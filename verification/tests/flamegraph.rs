use kvlm::flamegraph::{
    foldedWithinRange, inclusiveChecked, maxDepthChecked,
    addToTree, inclusive_exec, maxDepth, sortedChildren, truncateString, warmColor, xmlEsc, Frame, New,
    ParseFolded,
};

fn child<'a>(f: &'a Frame, name: &str) -> &'a Frame {
    f.Children.iter().find(|c| c.Name == name).expect("child present")
}

#[test]
fn new_defaults() {
    let fg = New();
    assert_eq!(fg.Title, "Flame Graph");
    assert_eq!((fg.Width, fg.Height, fg.FontSize, fg.VHeight), (1200, 16, 12, 720));
    assert!(!fg.Vertical);
    assert_eq!(fg.Total, 0);
    assert!(fg.Root.Children.is_empty());
}

#[test]
fn parse_folded_counts_and_total() {
    let fg = ParseFolded("a;b 3\na;c 2\n\n  a;b 1  \nbroken\nx;y notanumber\nd -1\n");
    assert_eq!(fg.Total, 5);
    let a = child(&fg.Root, "a");
    assert_eq!(a.Count, 0);
    assert_eq!(child(a, "b").Count, 4);
    assert_eq!(child(a, "c").Count, 2);
    assert_eq!(child(&fg.Root, "d").Count, -1);
    // the total is the root's inclusive weight
    assert_eq!(inclusive_exec(&fg.Root), fg.Total);
    assert_eq!(inclusive_exec(a), 6);
    assert_eq!(maxDepth(&fg.Root), 2);
    // children keep first-seen order in the tree
    let names: Vec<&str> = fg.Root.Children.iter().map(|c| c.Name.as_str()).collect();
    assert_eq!(names, vec!["a", "d"]);
}

#[test]
fn stack_with_spaces_splits_at_last_space() {
    let fg = ParseFolded("main;do work 7");
    let m = child(&fg.Root, "main");
    assert_eq!(child(m, "do work").Count, 7);
}

#[test]
fn add_to_tree_adds_at_path_only() {
    let mut root = Frame { Name: String::new(), Count: 0, Children: Vec::new() };
    let path: Vec<String> = vec!["a".into(), "b".into()];
    addToTree(&mut root, &path, 0, 5);
    addToTree(&mut root, &path, 1, 2);
    addToTree(&mut root, &path, 2, 1);
    assert_eq!(root.Count, 1);
    assert_eq!(child(&root, "a").Count, 0);
    assert_eq!(child(child(&root, "a"), "b").Count, 5);
    assert_eq!(child(&root, "b").Count, 2);
    assert_eq!(inclusive_exec(&root), 8);
}

#[test]
fn sorted_children_heaviest_first_stable() {
    let fg = ParseFolded("r;x 1\nr;y 5\nr;z 1\nr;w 3\n");
    let r = child(&fg.Root, "r");
    let order: Vec<&str> = sortedChildren(r).iter().map(|c| c.Name.as_str()).collect();
    assert_eq!(order, vec!["y", "w", "x", "z"]);
}

#[test]
fn xml_escape_and_colors() {
    assert_eq!(xmlEsc("<a&b>\"c\""), "&lt;a&amp;b&gt;&quot;c&quot;");
    assert_eq!(xmlEsc("plain"), "plain");
    assert_eq!(warmColor("foo"), "rgb(254,36,50)");
    assert_eq!(warmColor("a"), "rgb(225,153,15)");
    assert_eq!(warmColor("attention_kernel"), "rgb(226,3,17)");
    assert_eq!(warmColor("foo"), warmColor("foo"));
}

#[test]
fn truncate_bytes() {
    let s = b"flash_attention_kernel".to_vec();
    assert_eq!(truncateString(&s, 100), s);
    assert_eq!(truncateString(&s, 8), b"flash...".to_vec());
    assert_eq!(truncateString(&s, 3), b"fla".to_vec());
    assert_eq!(truncateString(&s, 0), Vec::<u8>::new());
}

#[test]
fn checked_weights_and_depth() {
    let text = "a;b 3\na;c 2\nd 1\n";
    assert!(foldedWithinRange(text));
    let fg = ParseFolded(text);
    assert_eq!(inclusiveChecked(&fg.Root), Some(6));
    assert_eq!(maxDepthChecked(&fg.Root), Some(2));
    let big = format!("a {}\nb {}\n", i64::MAX, 1);
    assert!(!foldedWithinRange(&big));
    let mut f = Frame { Name: "r".to_string(), Count: i64::MAX, Children: Vec::new() };
    f.Children.push(Frame { Name: "c".to_string(), Count: 1, Children: Vec::new() });
    assert_eq!(inclusiveChecked(&f), None);
    f.Count = 1;
    assert_eq!(inclusiveChecked(&f), Some(2));
    assert_eq!(maxDepthChecked(&f), Some(1));
}

#[test]
fn escaped_names_hold_no_markup() {
    for name in ["std::vector<int>::push_back", "a\"b\"", "x > y && y < z", "plain"] {
        let e = xmlEsc(name);
        assert!(!e.contains('<') && !e.contains('>') && !e.contains('"'), "{}", e);
    }
}

#[test]
fn parse_folded_tree_shape() {
    let fg = ParseFolded("a;b 1\na;c 2\nd 4\na;b 3\n");
    let names: Vec<&str> = fg.Root.Children.iter().map(|f| f.Name.as_str()).collect();
    assert_eq!(names, vec!["a", "d"]);
    let a = &fg.Root.Children[0];
    let under_a: Vec<&str> = a.Children.iter().map(|f| f.Name.as_str()).collect();
    assert_eq!(under_a, vec!["b", "c"]);
    assert_eq!(a.Children[0].Count, 4);
    assert_eq!(a.Children[1].Count, 2);
    assert!(fg.Root.Children[1].Children.is_empty());
    assert_eq!(fg.Total, 10);
}
