//! Flame graphs from folded stacks ("a;b;c 12" per line): the frame
//! tree, its weights and ordering, and the text helpers of the SVG.
use vstd::prelude::*;
use crate::arith::fits;
use vstd::string::StringSliceAdditionalSpecFns;
use crate::text::{
    char_len, last_index_char, last_index_char_exec, lemma_last_index_char, owned, parse_int,
    parse_int_exec, replace_char, replace_char_exec, split_char, split_char_exec, str_eq, substring,
    trim_space, trim_space_exec,
};

verus! {

/// One function frame of the call tree: `Count` is the samples that
/// ended here (self time), `Children` the frames called from it.
pub struct Frame {
    pub Name: String,
    pub Count: i64,
    pub Children: Vec<Frame>,
}

/// The parsed stacks and the rendering configuration.
pub struct FlameGraph {
    pub Root: Frame,
    pub Total: i64,
    pub Title: String,
    pub Width: i64,
    pub Height: i64,
    pub FontSize: i64,
    /// Renders the zoomable-icicle partition (depth as columns, share as
    /// height) instead of the classic flame.
    pub Vertical: bool,
    /// Canvas height of the vertical layout.
    pub VHeight: i64,
}

// ---------------------------------------------------------------------
// The tree model
// ---------------------------------------------------------------------

/// A frame's samples including everything beneath it.
pub open spec fn inclusive(f: Frame) -> int
    decreases f, 1int,
{
    proof {
        assert(decreases_to!(f.Children => f.Children@));
    }
    f.Count + sum_inclusive(f.Children@)
}

/// The inclusive samples of a list of sibling frames.
pub open spec fn sum_inclusive(cs: Seq<Frame>) -> int
    decreases cs, 0int,
{
    if cs.len() == 0 {
        0
    } else {
        sum_inclusive(cs.drop_last()) + inclusive(cs.last())
    }
}

/// Every partial sum `inclusive` forms fits an `i64`.
pub open spec fn inclusive_ok(f: Frame) -> bool
    decreases f, 1int,
{
    proof {
        assert(decreases_to!(f.Children => f.Children@));
    }
    fits(f.Count as int) && sum_ok(f.Count as int, f.Children@)
}

/// Each prefix sum `base + inclusive(cs[0]) + ...` fits, and so do the
/// children's own sums.
pub open spec fn sum_ok(base: int, cs: Seq<Frame>) -> bool
    decreases cs, 0int,
{
    if cs.len() == 0 {
        true
    } else {
        sum_ok(base, cs.drop_last()) && inclusive_ok(cs.last()) && fits(base + sum_inclusive(cs))
    }
}

/// Index of the first frame named `name`, or -1.
pub open spec fn child_index(cs: Seq<Frame>, name: Seq<char>) -> int
    decreases cs.len(),
{
    if cs.len() == 0 {
        -1
    } else if cs[0].Name@ == name {
        0
    } else {
        let k = child_index(cs.drop_first(), name);
        if k < 0 { -1 } else { k + 1 }
    }
}

/// The self samples of the frame reached from `f` along the names of
/// `path` (0 when there is no such frame).
pub open spec fn count_at(f: Frame, path: Seq<Seq<char>>) -> int
    decreases path.len(),
{
    if path.len() == 0 {
        f.Count as int
    } else {
        let k = child_index(f.Children@, path[0]);
        if k < 0 {
            0
        } else {
            count_at(f.Children@[k], path.drop_first())
        }
    }
}

/// The deepest stack below `f`, in frames.
pub open spec fn max_depth(f: Frame) -> int
    decreases f, 1int,
{
    proof {
        assert(decreases_to!(f.Children => f.Children@));
    }
    max_child_depth(f.Children@)
}

/// One more than the deepest child, 0 for no children.
pub open spec fn max_child_depth(cs: Seq<Frame>) -> int
    decreases cs, 0int,
{
    if cs.len() == 0 {
        0
    } else {
        let d = max_child_depth(cs.drop_last());
        let c = max_depth(cs.last()) + 1;
        if c > d { c } else { d }
    }
}

proof fn lemma_child_index(cs: Seq<Frame>, name: Seq<char>, k: int)
    requires
        -1 <= k < cs.len(),
        k >= 0 ==> cs[k].Name@ == name,
        forall|j: int| 0 <= j < cs.len() && (k < 0 || j < k) ==> cs[j].Name@ != name,
    ensures
        child_index(cs, name) == k,
    decreases cs.len(),
{
    if cs.len() > 0 && k != 0 {
        assert forall|j: int|
            0 <= j < cs.drop_first().len() && (k - 1 < 0 || j < k - 1) implies cs.drop_first()[j].Name@ != name by {
            assert(cs.drop_first()[j] == cs[j + 1]);
        }
        if k > 0 {
            assert(cs.drop_first()[k - 1] == cs[k]);
            lemma_child_index(cs.drop_first(), name, k - 1);
        } else {
            lemma_child_index(cs.drop_first(), name, -1);
        }
    }
}

proof fn lemma_child_index_bounds(cs: Seq<Frame>, name: Seq<char>)
    ensures
        -1 <= child_index(cs, name) < cs.len(),
        child_index(cs, name) >= 0 ==> cs[child_index(cs, name)].Name@ == name,
        forall|j: int|
            0 <= j < cs.len() && (child_index(cs, name) < 0 || j < child_index(cs, name)) ==> cs[j].Name@
                != name,
    decreases cs.len(),
{
    if cs.len() > 0 && cs[0].Name@ != name {
        lemma_child_index_bounds(cs.drop_first(), name);
        assert forall|j: int|
            0 <= j < cs.len() && (child_index(cs, name) < 0 || j < child_index(cs, name)) implies cs[j].Name@
                != name by {
            if j > 0 {
                assert(cs[j] == cs.drop_first()[j - 1]);
            }
        }
    }
}

/// Two sibling lists with the same names in the same places resolve
/// every name to the same index.
proof fn lemma_child_index_same_names(a: Seq<Frame>, b: Seq<Frame>, name: Seq<char>)
    requires
        a.len() == b.len(),
        forall|j: int| 0 <= j < a.len() ==> a[j].Name@ == b[j].Name@,
    ensures
        child_index(a, name) == child_index(b, name),
{
    lemma_child_index_bounds(a, name);
    lemma_child_index(b, name, child_index(a, name));
}

// ---------------------------------------------------------------------
// Executable
// ---------------------------------------------------------------------

/// A flame graph with no samples and the default configuration.
pub fn New() -> (fg: FlameGraph)
    ensures
        fg.Root.Name@.len() == 0,
        fg.Root.Count == 0,
        fg.Root.Children@.len() == 0,
        fg.Total == 0,
        fg.Title@ == "Flame Graph"@,
        fg.Width == 1200,
        fg.Height == 16,
        fg.FontSize == 12,
        !fg.Vertical,
        fg.VHeight == 720,
{
    FlameGraph {
        Root: Frame { Name: String::new(), Count: 0, Children: Vec::new() },
        Total: 0,
        Title: owned("Flame Graph"),
        Width: 1200,
        Height: 16,
        FontSize: 12,
        Vertical: false,
        VHeight: 720,
    }
}

/// A frame's total samples: itself plus everything beneath it. Frame
/// widths come from this, not from the self count.
pub fn inclusive_exec(f: &Frame) -> (r: i64)
    requires
        inclusive_ok(*f),
    ensures
        r == inclusive(*f),
    decreases f, 1int,
{
    let mut t = f.Count;
    let mut i: usize = 0;
    assert(f.Children@.take(0) =~= Seq::<Frame>::empty());
    while i < f.Children.len()
        invariant
            i <= f.Children.len(),
            inclusive_ok(*f),
            sum_ok(f.Count as int, f.Children@),
            t == f.Count + sum_inclusive(f.Children@.take(i as int)),
        decreases f.Children.len() - i,
    {
        proof {
            lemma_sum_ok_prefix(f.Count as int, f.Children@, i + 1);
            let p = f.Children@.take(i + 1);
            assert(p.drop_last() =~= f.Children@.take(i as int));
            assert(p.last() == f.Children@[i as int]);
            assert(decreases_to!(f => f.Children));
            assert(decreases_to!(f.Children => f.Children[i as int]));
        }
        let c = inclusive_exec(&f.Children[i]);
        t = t + c;
        i += 1;
    }
    assert(f.Children@.take(f.Children.len() as int) =~= f.Children@);
    t
}

proof fn lemma_sum_ok_prefix(base: int, cs: Seq<Frame>, k: int)
    requires
        sum_ok(base, cs),
        0 <= k <= cs.len(),
    ensures
        sum_ok(base, cs.take(k)),
        k > 0 ==> inclusive_ok(cs[k - 1]) && fits(base + sum_inclusive(cs.take(k))),
    decreases cs.len() - k,
{
    if k < cs.len() {
        assert(cs.drop_last().take(k) =~= cs.take(k));
        lemma_sum_ok_prefix(base, cs.drop_last(), k);
    } else {
        assert(cs.take(k) =~= cs);
        if k > 0 {
            assert(cs.last() == cs[k - 1]);
        }
    }
}

/// The deepest stack below `f`, in frames.
pub fn maxDepth(f: &Frame) -> (r: i64)
    requires
        max_depth(*f) <= i64::MAX,
    ensures
        r == max_depth(*f),
    decreases f, 1int,
{
    let mut d: i64 = 0;
    let mut i: usize = 0;
    assert(f.Children@.take(0) =~= Seq::<Frame>::empty());
    while i < f.Children.len()
        invariant
            i <= f.Children.len(),
            max_depth(*f) <= i64::MAX,
            d == max_child_depth(f.Children@.take(i as int)),
        decreases f.Children.len() - i,
    {
        proof {
            let p = f.Children@.take(i + 1);
            assert(p.drop_last() =~= f.Children@.take(i as int));
            assert(p.last() == f.Children@[i as int]);
            lemma_max_child_depth_prefix(f.Children@, i + 1);
            assert(decreases_to!(f => f.Children));
            assert(decreases_to!(f.Children => f.Children[i as int]));
        }
        let cd = maxDepth(&f.Children[i]) + 1;
        if cd > d {
            d = cd;
        }
        i += 1;
    }
    assert(f.Children@.take(f.Children.len() as int) =~= f.Children@);
    d
}

proof fn lemma_max_child_depth_prefix(cs: Seq<Frame>, k: int)
    requires
        0 < k <= cs.len(),
    ensures
        max_child_depth(cs.take(k)) <= max_child_depth(cs),
        max_depth(cs[k - 1]) + 1 <= max_child_depth(cs),
    decreases cs.len() - k,
{
    if k < cs.len() {
        assert(cs.drop_last().take(k) =~= cs.take(k));
        assert(cs.drop_last()[k - 1] == cs[k - 1]);
        lemma_max_child_depth_prefix(cs.drop_last(), k);
    } else {
        assert(cs.take(k) =~= cs);
        assert(cs.last() == cs[k - 1]);
    }
}

/// `inclusive(f)` when every partial sum of it fits an `i64`, `None`
/// otherwise.
pub fn inclusiveChecked(f: &Frame) -> (r: Option<i64>)
    ensures
        r is Some <==> inclusive_ok(*f),
        r is Some ==> r->0 == inclusive(*f),
    decreases f, 1int,
{
    let mut t = f.Count;
    let mut i: usize = 0;
    assert(f.Children@.take(0) =~= Seq::<Frame>::empty());
    while i < f.Children.len()
        invariant
            i <= f.Children.len(),
            sum_ok(f.Count as int, f.Children@.take(i as int)),
            t == f.Count + sum_inclusive(f.Children@.take(i as int)),
        decreases f.Children.len() - i,
    {
        let ghost p = f.Children@.take(i + 1);
        proof {
            assert(p.drop_last() =~= f.Children@.take(i as int));
            assert(p.last() == f.Children@[i as int]);
            assert(decreases_to!(f => f.Children));
            assert(decreases_to!(f.Children => f.Children[i as int]));
        }
        let c = match inclusiveChecked(&f.Children[i]) {
            Some(c) => c,
            None => {
                proof {
                    if inclusive_ok(*f) {
                        lemma_sum_ok_prefix(f.Count as int, f.Children@, i + 1);
                    }
                }
                return None;
            },
        };
        t = match t.checked_add(c) {
            Some(x) => x,
            None => {
                proof {
                    if inclusive_ok(*f) {
                        lemma_sum_ok_prefix(f.Count as int, f.Children@, i + 1);
                    }
                }
                return None;
            },
        };
        i += 1;
    }
    assert(f.Children@.take(f.Children.len() as int) =~= f.Children@);
    Some(t)
}

/// `max_depth(f)` when it fits an `i64`, `None` otherwise.
pub fn maxDepthChecked(f: &Frame) -> (r: Option<i64>)
    ensures
        r is Some <==> max_depth(*f) <= i64::MAX,
        r is Some ==> r->0 == max_depth(*f),
    decreases f, 1int,
{
    let mut d: i64 = 0;
    let mut i: usize = 0;
    assert(f.Children@.take(0) =~= Seq::<Frame>::empty());
    while i < f.Children.len()
        invariant
            i <= f.Children.len(),
            d == max_child_depth(f.Children@.take(i as int)),
        decreases f.Children.len() - i,
    {
        proof {
            let p = f.Children@.take(i + 1);
            assert(p.drop_last() =~= f.Children@.take(i as int));
            assert(p.last() == f.Children@[i as int]);
            lemma_max_child_depth_prefix(f.Children@, i + 1);
            assert(decreases_to!(f => f.Children));
            assert(decreases_to!(f.Children => f.Children[i as int]));
        }
        let c = match maxDepthChecked(&f.Children[i]) {
            Some(c) => c,
            None => {
                return None;
            },
        };
        if c == i64::MAX {
            return None;
        }
        let cd = c + 1;
        if cd > d {
            d = cd;
        }
        i += 1;
    }
    assert(f.Children@.take(f.Children.len() as int) =~= f.Children@);
    Some(d)
}

/// Text escaped for SVG/XML text and attributes: `&`, `<`, `>` and `"`
/// become entities (in that order).
pub open spec fn xml_esc(s: Seq<char>) -> Seq<char> {
    replace_char(
        replace_char(replace_char(replace_char(s, '&', "&amp;"@), '<', "&lt;"@), '>', "&gt;"@),
        '"',
        "&quot;"@,
    )
}

/// `d` does not occur in `s`.
pub open spec fn lacks(s: Seq<char>, d: char) -> bool {
    forall|i: int| 0 <= i < s.len() ==> s[i] != d
}

/// Replacing every `c` by text without `d` leaves no `d`, when `d` is
/// `c` or was absent.
proof fn lemma_replace_char_lacks(s: Seq<char>, c: char, w: Seq<char>, d: char)
    requires
        d == c || lacks(s, d),
        lacks(w, d),
    ensures
        lacks(replace_char(s, c, w), d),
    decreases s.len(),
{
    if s.len() > 0 {
        let head = if s[0] == c { w } else { seq![s[0]] };
        assert(lacks(s.drop_first(), d) || d == c) by {
            if d != c {
                assert forall|i: int| 0 <= i < s.drop_first().len() implies s.drop_first()[i] != d by {
                    assert(s.drop_first()[i] == s[i + 1]);
                }
            }
        }
        lemma_replace_char_lacks(s.drop_first(), c, w, d);
        let rest = replace_char(s.drop_first(), c, w);
        let r = replace_char(s, c, w);
        assert(r == head + rest);
        assert forall|i: int| 0 <= i < r.len() implies r[i] != d by {
            if i < head.len() {
                assert(r[i] == head[i]);
            } else {
                assert(r[i] == rest[i - head.len()]);
            }
        }
    }
}

/// Escaped text holds no raw markup character: no `<`, `>` or `"`.
pub proof fn lemma_xml_esc_no_markup(s: Seq<char>)
    ensures
        lacks(xml_esc(s), '<'),
        lacks(xml_esc(s), '>'),
        lacks(xml_esc(s), '"'),
{
    reveal_strlit("&amp;");
    reveal_strlit("&lt;");
    reveal_strlit("&gt;");
    reveal_strlit("&quot;");
    let s1 = replace_char(s, '&', "&amp;"@);
    let s2 = replace_char(s1, '<', "&lt;"@);
    let s3 = replace_char(s2, '>', "&gt;"@);
    lemma_replace_char_lacks(s1, '<', "&lt;"@, '<');
    lemma_replace_char_lacks(s2, '>', "&gt;"@, '<');
    lemma_replace_char_lacks(s2, '>', "&gt;"@, '>');
    lemma_replace_char_lacks(s3, '"', "&quot;"@, '<');
    lemma_replace_char_lacks(s3, '"', "&quot;"@, '>');
    lemma_replace_char_lacks(s3, '"', "&quot;"@, '"');
}

pub fn xmlEsc(s: &str) -> (r: String)
    ensures
        r@ == xml_esc(s@),
{
    let a = replace_char_exec(s, '&', "&amp;");
    let b = replace_char_exec(a.as_str(), '<', "&lt;");
    let c = replace_char_exec(b.as_str(), '>', "&gt;");
    replace_char_exec(c.as_str(), '"', "&quot;")
}


// ---------------------------------------------------------------------
// Adding a stack
// ---------------------------------------------------------------------

/// `new` is a fresh chain of frames named `name` then `rest`, with no
/// siblings, its last frame holding `c` samples.
pub open spec fn fresh_chain(new: Frame, name: Seq<char>, rest: Seq<Seq<char>>, c: int) -> bool
    decreases rest.len(),
{
    &&& new.Name@ == name
    &&& if rest.len() == 0 {
        new.Count == c && new.Children@.len() == 0
    } else {
        &&& new.Count == 0
        &&& new.Children@.len() == 1
        &&& fresh_chain(new.Children@[0], rest[0], rest.drop_first(), c)
    }
}

/// `new` is `old` with `c` samples added to the stack `path` below it:
/// the frames along the path are found by name (the first of that name)
/// or appended after the existing children, and the last one's count
/// grows by `c`; nothing else changes.
pub open spec fn added(old: Frame, new: Frame, path: Seq<Seq<char>>, c: int) -> bool
    decreases path.len(),
{
    &&& new.Name@ == old.Name@
    &&& if path.len() == 0 {
        new.Count == old.Count + c && new.Children@ == old.Children@
    } else {
        let k = child_index(old.Children@, path[0]);
        &&& new.Count == old.Count
        &&& if k >= 0 {
            &&& new.Children@.len() == old.Children@.len()
            &&& forall|j: int|
                0 <= j < old.Children@.len() && j != k ==> new.Children@[j] == old.Children@[j]
            &&& added(old.Children@[k], new.Children@[k], path.drop_first(), c)
        } else {
            &&& new.Children@.len() == old.Children@.len() + 1
            &&& new.Children@.take(old.Children@.len() as int) == old.Children@
            &&& fresh_chain(new.Children@.last(), path[0], path.drop_first(), c)
        }
    }
}

proof fn lemma_fresh_from_empty(e: Frame, n: Frame, rest: Seq<Seq<char>>, c: int)
    requires
        e.Count == 0,
        e.Children@.len() == 0,
        added(e, n, rest, c),
    ensures
        fresh_chain(n, e.Name@, rest, c),
{
    if rest.len() > 0 {
        assert(child_index(e.Children@, rest[0]) == -1);
        assert(n.Children@.len() == 1);
        assert(n.Children@.last() == n.Children@[0]);
    }
}

/// Adds `count` samples for the stack `frames[idx..]` below `node`.
pub fn addToTree(node: &mut Frame, frames: &Vec<String>, idx: usize, count: i64)
    requires
        idx <= frames.len(),
        fits(count_at(*old(node), frames.deep_view().skip(idx as int)) + count),
    ensures
        added(*old(node), *final(node), frames.deep_view().skip(idx as int), count as int),
    decreases frames.len() - idx,
{
    let ghost path = frames.deep_view().skip(idx as int);
    if idx >= frames.len() {
        assert(path.len() == 0);
        node.Count = node.Count + count;
        return;
    }
    let name = &frames[idx];
    assert(path[0] == name@);
    assert(path.drop_first() =~= frames.deep_view().skip(idx + 1));
    let mut k: usize = 0;
    let mut found = false;
    while !found && k < node.Children.len()
        invariant
            k <= node.Children.len(),
            forall|j: int| 0 <= j < k ==> node.Children@[j].Name@ != name@,
            found ==> k < node.Children.len() && node.Children@[k as int].Name@ == name@,
        decreases node.Children.len() - k + if found { 0int } else { 1int },
    {
        if str_eq(node.Children[k].Name.as_str(), name.as_str()) {
            found = true;
        } else {
            k += 1;
        }
    }
    let ghost old_node = *node;
    if !found {
        proof {
            lemma_child_index(node.Children@, name@, -1);
        }
        node.Children.push(Frame { Name: crate::text::copy(name), Count: 0, Children: Vec::new() });
        k = node.Children.len() - 1;
    } else {
        proof {
            lemma_child_index(node.Children@, name@, k as int);
        }
    }
    let ghost before = node.Children@;
    let mut child = node.Children.remove(k);
    let ghost old_child = child;
    proof {
        if found {
            assert(count_at(old_node, path) == count_at(old_child, path.drop_first()));
        } else {
            assert(count_at(old_node, path) == 0);
            assert(count_at(old_child, path.drop_first()) == 0) by {
                if path.drop_first().len() > 0 {
                    assert(child_index(old_child.Children@, path.drop_first()[0]) == -1);
                }
            }
        }
    }
    addToTree(&mut child, frames, idx + 1, count);
    node.Children.insert(k, child);
    proof {
        assert(node.Children@ =~= before.update(k as int, child));
        if !found {
            lemma_fresh_from_empty(old_child, child, path.drop_first(), count as int);
            assert(node.Children@.take(old_node.Children@.len() as int) =~= old_node.Children@);
            assert(node.Children@.last() == child);
        }
    }
}

// ---------------------------------------------------------------------
// Laws of adding a stack
// ---------------------------------------------------------------------

proof fn lemma_fresh_inclusive(n: Frame, name: Seq<char>, rest: Seq<Seq<char>>, c: int)
    requires
        fresh_chain(n, name, rest, c),
    ensures
        inclusive(n) == c,
    decreases rest.len(),
{
    if rest.len() == 0 {
        assert(sum_inclusive(n.Children@) == 0);
    } else {
        lemma_fresh_inclusive(n.Children@[0], rest[0], rest.drop_first(), c);
        assert(n.Children@.drop_last() =~= Seq::<Frame>::empty());
        assert(n.Children@.last() == n.Children@[0]);
        assert(sum_inclusive(n.Children@.drop_last()) == 0);
        assert(sum_inclusive(n.Children@) == inclusive(n.Children@[0]));
    }
}

proof fn lemma_sum_update(a: Seq<Frame>, b: Seq<Frame>, k: int, delta: int)
    requires
        a.len() == b.len(),
        0 <= k < a.len(),
        forall|j: int| 0 <= j < a.len() && j != k ==> a[j] == b[j],
        inclusive(b[k]) == inclusive(a[k]) + delta,
    ensures
        sum_inclusive(b) == sum_inclusive(a) + delta,
    decreases a.len(),
{
    if k < a.len() - 1 {
        lemma_sum_update(a.drop_last(), b.drop_last(), k, delta);
        assert(a.last() == b.last());
    } else {
        assert(a.drop_last() =~= b.drop_last());
    }
}

/// Adding `c` samples on a stack adds exactly `c` to the inclusive
/// weight of the frame it is added below.
pub proof fn lemma_added_inclusive(old: Frame, new: Frame, path: Seq<Seq<char>>, c: int)
    requires
        added(old, new, path, c),
    ensures
        inclusive(new) == inclusive(old) + c,
    decreases path.len(),
{
    if path.len() > 0 {
        let k = child_index(old.Children@, path[0]);
        if k >= 0 {
            lemma_child_index_bounds(old.Children@, path[0]);
            lemma_added_inclusive(old.Children@[k], new.Children@[k], path.drop_first(), c);
            lemma_sum_update(old.Children@, new.Children@, k, c);
        } else {
            let nc = new.Children@;
            assert(nc.drop_last() =~= nc.take(old.Children@.len() as int));
            lemma_fresh_inclusive(nc.last(), path[0], path.drop_first(), c);
        }
    }
}

proof fn lemma_seq_cons_eq(a: Seq<Seq<char>>, b: Seq<Seq<char>>)
    requires
        a.len() > 0,
        b.len() > 0,
        a[0] == b[0],
        a.drop_first() == b.drop_first(),
    ensures
        a == b,
{
    assert(a.drop_first().len() == a.len() - 1);
    assert(b.drop_first().len() == b.len() - 1);
    assert forall|i: int| 0 <= i < a.len() implies a[i] == b[i] by {
        if i > 0 {
            assert(a[i] == a.drop_first()[i - 1]);
            assert(b[i] == b.drop_first()[i - 1]);
        }
    }
    assert(a =~= b);
}

proof fn lemma_fresh_count_at(n: Frame, name: Seq<char>, rest: Seq<Seq<char>>, c: int, q: Seq<Seq<char>>)
    requires
        fresh_chain(n, name, rest, c),
    ensures
        count_at(n, q) == if q == rest { c } else { 0 },
    decreases rest.len(),
{
    reveal_with_fuel(fresh_chain, 2);
    if q.len() == 0 {
        if rest.len() > 0 {
            assert(q != rest);
        } else {
            assert(q =~= rest);
        }
    } else if rest.len() == 0 {
        assert(child_index(n.Children@, q[0]) == -1);
        assert(q != rest);
    } else {
        let ch = n.Children@[0];
        assert(ch.Name@ == rest[0]);
        if q[0] == rest[0] {
            lemma_child_index(n.Children@, q[0], 0);
            lemma_fresh_count_at(ch, rest[0], rest.drop_first(), c, q.drop_first());
            if q.drop_first() == rest.drop_first() {
                lemma_seq_cons_eq(q, rest);
            } else {
                assert(q != rest) by {
                    if q == rest {
                        assert(q.drop_first() =~= rest.drop_first());
                    }
                }
            }
        } else {
            lemma_child_index(n.Children@, q[0], -1);
            assert(q != rest) by {
                if q == rest {
                    assert(q[0] == rest[0]);
                }
            }
        }
    }
}

/// Adding `c` samples on `path` raises the self count of the frame at
/// that path by `c` and leaves every other path's count unchanged.
pub proof fn lemma_added_count_at(old: Frame, new: Frame, path: Seq<Seq<char>>, c: int, q: Seq<Seq<char>>)
    requires
        added(old, new, path, c),
    ensures
        count_at(new, q) == count_at(old, q) + if q == path { c } else { 0 },
    decreases path.len(),
{
    if q.len() == 0 {
        if path.len() > 0 {
            assert(q != path);
        } else {
            assert(q =~= path);
        }
    } else if path.len() == 0 {
        assert(new.Children@ == old.Children@);
        assert(q != path);
    } else {
        let oc = old.Children@;
        let nc = new.Children@;
        let k = child_index(oc, path[0]);
        lemma_child_index_bounds(oc, path[0]);
        let same_first = q[0] == path[0];
        assert(same_first ==> (q == path <==> q.drop_first() == path.drop_first())) by {
            if same_first && q.drop_first() == path.drop_first() {
                lemma_seq_cons_eq(q, path);
            }
            if q == path {
                assert(q.drop_first() =~= path.drop_first());
            }
        }
        assert(!same_first ==> q != path);
        if k >= 0 {
            assert forall|j: int| 0 <= j < oc.len() implies oc[j].Name@ == nc[j].Name@ by {
                if j == k {
                    assert(added(oc[k], nc[k], path.drop_first(), c));
                }
            }
            lemma_child_index_same_names(oc, nc, q[0]);
            if same_first {
                lemma_added_count_at(oc[k], nc[k], path.drop_first(), c, q.drop_first());
            } else {
                let kq = child_index(oc, q[0]);
                lemma_child_index_bounds(oc, q[0]);
                if kq >= 0 {
                    assert(kq != k);
                }
            }
        } else {
            let olen = oc.len() as int;
            assert forall|j: int| 0 <= j < olen implies nc[j] == oc[j] by {
                assert(nc.take(olen)[j] == nc[j]);
            }
            if same_first {
                lemma_child_index(nc, q[0], olen);
                lemma_fresh_count_at(nc.last(), path[0], path.drop_first(), c, q.drop_first());
                assert(nc.last() == nc[olen]);
            } else {
                lemma_child_index_bounds(oc, q[0]);
                let kq = child_index(oc, q[0]);
                assert(nc[olen].Name@ == path[0]);
                lemma_child_index(nc, q[0], kq);
            }
        }
    }
}


// ---------------------------------------------------------------------
// The shape of the tree
// ---------------------------------------------------------------------

/// `q` is a prefix of `p`.
pub open spec fn is_prefix(q: Seq<Seq<char>>, p: Seq<Seq<char>>) -> bool {
    q.len() <= p.len() && p.take(q.len() as int) == q
}

/// A frame lies below `f` along the names of `path`.
pub open spec fn has_node(f: Frame, path: Seq<Seq<char>>) -> bool
    decreases path.len(),
{
    if path.len() == 0 {
        true
    } else {
        let k = child_index(f.Children@, path[0]);
        k >= 0 && has_node(f.Children@[k], path.drop_first())
    }
}

/// No two children of any frame share a name.
pub open spec fn distinct_siblings(f: Frame) -> bool
    decreases f, 1int,
{
    proof {
        assert(decreases_to!(f.Children => f.Children@));
    }
    &&& forall|i: int, j: int|
        0 <= i < j < f.Children@.len() ==> f.Children@[i].Name@ != f.Children@[j].Name@
    &&& all_distinct(f.Children@)
}

/// Every frame of the list has distinct siblings below it.
pub open spec fn all_distinct(cs: Seq<Frame>) -> bool
    decreases cs, 0int,
{
    if cs.len() == 0 {
        true
    } else {
        all_distinct(cs.drop_last()) && distinct_siblings(cs.last())
    }
}

proof fn lemma_all_distinct(cs: Seq<Frame>)
    ensures
        all_distinct(cs) <==> forall|j: int| 0 <= j < cs.len() ==> #[trigger] distinct_siblings(cs[j]),
    decreases cs.len(),
{
    if cs.len() > 0 {
        lemma_all_distinct(cs.drop_last());
        assert forall|j: int| 0 <= j < cs.len() - 1 implies cs.drop_last()[j] == cs[j] by {}
        if forall|j: int| 0 <= j < cs.len() ==> #[trigger] distinct_siblings(cs[j]) {
            assert(distinct_siblings(cs[cs.len() - 1]));
            assert forall|j: int| 0 <= j < cs.drop_last().len() implies #[trigger] distinct_siblings(
                cs.drop_last()[j],
            ) by {
                assert(distinct_siblings(cs[j]));
            }
        }
        if all_distinct(cs) {
            assert forall|j: int| 0 <= j < cs.len() implies #[trigger] distinct_siblings(cs[j]) by {
                if j < cs.len() - 1 {
                    assert(distinct_siblings(cs.drop_last()[j]));
                }
            }
        }
    }
}

proof fn lemma_prefix_cons(q: Seq<Seq<char>>, p: Seq<Seq<char>>)
    requires
        q.len() > 0,
        p.len() > 0,
    ensures
        is_prefix(q, p) <==> (q[0] == p[0] && is_prefix(q.drop_first(), p.drop_first())),
{
    if is_prefix(q, p) {
        assert(p.take(q.len() as int)[0] == p[0]);
        assert(p.drop_first().take(q.drop_first().len() as int) =~= q.drop_first()) by {
            assert forall|i: int| 0 <= i < q.drop_first().len() implies p.drop_first().take(
                q.drop_first().len() as int,
            )[i] == q.drop_first()[i] by {
                assert(p.take(q.len() as int)[i + 1] == q[i + 1]);
            }
        }
    }
    if q[0] == p[0] && is_prefix(q.drop_first(), p.drop_first()) {
        assert(p.take(q.len() as int) =~= q) by {
            assert forall|i: int| 0 <= i < q.len() implies p.take(q.len() as int)[i] == q[i] by {
                if i > 0 {
                    assert(p.drop_first().take(q.drop_first().len() as int)[i - 1] == q.drop_first()[i - 1]);
                }
            }
        }
    }
}

proof fn lemma_fresh_distinct(n: Frame, name: Seq<char>, rest: Seq<Seq<char>>, c: int)
    requires
        fresh_chain(n, name, rest, c),
    ensures
        distinct_siblings(n),
    decreases rest.len(),
{
    reveal_with_fuel(fresh_chain, 2);
    if rest.len() > 0 {
        let ch = n.Children@[0];
        lemma_fresh_distinct(ch, rest[0], rest.drop_first(), c);
        lemma_all_distinct(n.Children@);
    } else {
        lemma_all_distinct(n.Children@);
    }
}

proof fn lemma_fresh_has_node(n: Frame, name: Seq<char>, rest: Seq<Seq<char>>, c: int, q: Seq<Seq<char>>)
    requires
        fresh_chain(n, name, rest, c),
    ensures
        has_node(n, q) == is_prefix(q, rest),
    decreases rest.len(),
{
    reveal_with_fuel(fresh_chain, 2);
    if q.len() == 0 {
        assert(rest.take(0) =~= q);
    } else if rest.len() == 0 {
        assert(child_index(n.Children@, q[0]) == -1);
    } else {
        let ch = n.Children@[0];
        assert(ch.Name@ == rest[0]);
        lemma_prefix_cons(q, rest);
        if q[0] == rest[0] {
            lemma_child_index(n.Children@, q[0], 0);
            lemma_fresh_has_node(ch, rest[0], rest.drop_first(), c, q.drop_first());
        } else {
            lemma_child_index(n.Children@, q[0], -1);
        }
    }
}

/// Adding a stack adds exactly the frames along it: a frame lies at `q`
/// afterwards when it did before or `q` begins the added stack.
pub proof fn lemma_added_has_node(old: Frame, new: Frame, path: Seq<Seq<char>>, c: int, q: Seq<Seq<char>>)
    requires
        added(old, new, path, c),
    ensures
        has_node(new, q) == (has_node(old, q) || is_prefix(q, path)),
    decreases path.len(),
{
    if q.len() == 0 {
    } else if path.len() == 0 {
        assert(new.Children@ == old.Children@);
    } else {
        let oc = old.Children@;
        let nc = new.Children@;
        let k = child_index(oc, path[0]);
        lemma_child_index_bounds(oc, path[0]);
        lemma_prefix_cons(q, path);
        if k >= 0 {
            assert forall|j: int| 0 <= j < oc.len() implies oc[j].Name@ == nc[j].Name@ by {
                if j == k {
                    assert(added(oc[k], nc[k], path.drop_first(), c));
                }
            }
            lemma_child_index_same_names(oc, nc, q[0]);
            if q[0] == path[0] {
                lemma_added_has_node(oc[k], nc[k], path.drop_first(), c, q.drop_first());
            } else {
                let kq = child_index(oc, q[0]);
                lemma_child_index_bounds(oc, q[0]);
                if kq >= 0 {
                    assert(kq != k);
                    assert(nc[kq] == oc[kq]);
                }
            }
        } else {
            let olen = oc.len() as int;
            assert forall|j: int| 0 <= j < olen implies nc[j] == oc[j] by {
                assert(nc.take(olen)[j] == nc[j]);
            }
            if q[0] == path[0] {
                lemma_child_index(nc, q[0], olen);
                assert(nc.last() == nc[olen]);
                lemma_fresh_has_node(nc.last(), path[0], path.drop_first(), c, q.drop_first());
            } else {
                lemma_child_index_bounds(oc, q[0]);
                let kq = child_index(oc, q[0]);
                assert(nc[olen].Name@ == path[0]);
                lemma_child_index(nc, q[0], kq);
                if kq >= 0 {
                    assert(nc[kq] == oc[kq]);
                }
            }
        }
    }
}

/// Adding a stack keeps the siblings of every frame distinct.
pub proof fn lemma_added_distinct(old: Frame, new: Frame, path: Seq<Seq<char>>, c: int)
    requires
        added(old, new, path, c),
        distinct_siblings(old),
    ensures
        distinct_siblings(new),
    decreases path.len(),
{
    let oc = old.Children@;
    let nc = new.Children@;
    lemma_all_distinct(oc);
    lemma_all_distinct(nc);
    if path.len() == 0 {
        assert(nc == oc);
    } else {
        let k = child_index(oc, path[0]);
        lemma_child_index_bounds(oc, path[0]);
        if k >= 0 {
            assert forall|j: int| 0 <= j < oc.len() implies oc[j].Name@ == nc[j].Name@ by {
                if j == k {
                    assert(added(oc[k], nc[k], path.drop_first(), c));
                }
            }
            assert(distinct_siblings(oc[k]));
            lemma_added_distinct(oc[k], nc[k], path.drop_first(), c);
            assert forall|j: int| 0 <= j < nc.len() implies #[trigger] distinct_siblings(nc[j]) by {
                if j != k {
                    assert(nc[j] == oc[j]);
                    assert(distinct_siblings(oc[j]));
                }
            }
        } else {
            let olen = oc.len() as int;
            assert forall|j: int| 0 <= j < olen implies nc[j] == oc[j] by {
                assert(nc.take(olen)[j] == nc[j]);
            }
            assert(nc.last() == nc[olen]);
            lemma_fresh_distinct(nc[olen], path[0], path.drop_first(), c);
            assert forall|j: int| 0 <= j < nc.len() implies #[trigger] distinct_siblings(nc[j]) by {
                if j < olen {
                    assert(distinct_siblings(oc[j]));
                }
            }
            assert forall|i: int, j: int| 0 <= i < j < nc.len() implies nc[i].Name@ != nc[j].Name@ by {
                if j == olen {
                    assert(oc[i].Name@ != path[0]);
                }
            }
        }
    }
}

/// The names of a list of frames, in order.
pub open spec fn names_of(cs: Seq<Frame>) -> Seq<Seq<char>> {
    cs.map_values(|f: Frame| f.Name@)
}

/// The names of the children of the frame at `path`, in order (none
/// where there is no such frame).
pub open spec fn children_at(f: Frame, path: Seq<Seq<char>>) -> Seq<Seq<char>>
    decreases path.len(),
{
    if path.len() == 0 {
        names_of(f.Children@)
    } else {
        let k = child_index(f.Children@, path[0]);
        if k < 0 {
            seq![]
        } else {
            children_at(f.Children@[k], path.drop_first())
        }
    }
}

/// The names of `children_at(f, q)` after one more stack `p`: the frame
/// that follows `q` on `p` is appended unless it is already there.
pub open spec fn with_next(names: Seq<Seq<char>>, q: Seq<Seq<char>>, p: Seq<Seq<char>>) -> Seq<Seq<char>> {
    if is_prefix(q, p) && p.len() > q.len() && !names.contains(p[q.len() as int]) {
        names.push(p[q.len() as int])
    } else {
        names
    }
}

/// The frames that follow `q` on the samples' stacks, each once, in the
/// order they first appear.
pub open spec fn next_names(ss: Seq<(Seq<Seq<char>>, int)>, q: Seq<Seq<char>>) -> Seq<Seq<char>>
    decreases ss.len(),
{
    if ss.len() == 0 {
        seq![]
    } else {
        with_next(next_names(ss.drop_last(), q), q, ss.last().0)
    }
}

proof fn lemma_fresh_children_at(n: Frame, name: Seq<char>, rest: Seq<Seq<char>>, c: int, q: Seq<Seq<char>>)
    requires
        fresh_chain(n, name, rest, c),
    ensures
        children_at(n, q) == with_next(seq![], q, rest),
    decreases rest.len(),
{
    reveal_with_fuel(fresh_chain, 2);
    if q.len() == 0 {
        assert(rest.take(0) =~= q);
        if rest.len() == 0 {
            assert(names_of(n.Children@) =~= seq![]);
        } else {
            assert(names_of(n.Children@) =~= seq![rest[0]]);
            assert(seq![].push(rest[0]) =~= seq![rest[0]]);
        }
    } else if rest.len() == 0 {
        assert(child_index(n.Children@, q[0]) == -1);
    } else {
        let ch = n.Children@[0];
        assert(ch.Name@ == rest[0]);
        lemma_prefix_cons(q, rest);
        if q[0] == rest[0] {
            lemma_child_index(n.Children@, q[0], 0);
            lemma_fresh_children_at(ch, rest[0], rest.drop_first(), c, q.drop_first());
            if rest.len() > q.len() {
                assert(rest.drop_first()[q.drop_first().len() as int] == rest[q.len() as int]);
            }
        } else {
            lemma_child_index(n.Children@, q[0], -1);
        }
    }
}

/// Adding a stack appends a frame's new child after its existing ones,
/// and only when no child of that name exists.
pub proof fn lemma_added_children_at(old: Frame, new: Frame, path: Seq<Seq<char>>, c: int, q: Seq<Seq<char>>)
    requires
        added(old, new, path, c),
    ensures
        children_at(new, q) == with_next(children_at(old, q), q, path),
    decreases path.len(),
{
    let oc = old.Children@;
    let nc = new.Children@;
    if path.len() == 0 {
        assert(nc == oc);
    } else {
        let k = child_index(oc, path[0]);
        lemma_child_index_bounds(oc, path[0]);
        if k >= 0 {
            assert forall|j: int| 0 <= j < oc.len() implies oc[j].Name@ == nc[j].Name@ by {
                if j == k {
                    assert(added(oc[k], nc[k], path.drop_first(), c));
                }
            }
        } else {
            let olen = oc.len() as int;
            assert forall|j: int| 0 <= j < olen implies nc[j] == oc[j] by {
                assert(nc.take(olen)[j] == nc[j]);
            }
            assert(nc[olen].Name@ == path[0]);
        }
        if q.len() == 0 {
            assert(path.take(0) =~= q);
            if k >= 0 {
                assert(names_of(nc) =~= names_of(oc));
                assert(names_of(oc)[k] == path[0]);
            } else {
                let olen = oc.len() as int;
                assert(names_of(nc) =~= names_of(oc).push(path[0]));
                assert(!names_of(oc).contains(path[0])) by {
                    if names_of(oc).contains(path[0]) {
                        let j = choose|j: int| 0 <= j < olen && names_of(oc)[j] == path[0];
                        assert(oc[j].Name@ != path[0]);
                    }
                }
            }
        } else {
            lemma_prefix_cons(q, path);
            if k >= 0 {
                lemma_child_index_same_names(oc, nc, q[0]);
                if q[0] == path[0] {
                    lemma_added_children_at(oc[k], nc[k], path.drop_first(), c, q.drop_first());
                    if path.len() > q.len() {
                        assert(path.drop_first()[q.drop_first().len() as int] == path[q.len() as int]);
                    }
                } else {
                    let kq = child_index(oc, q[0]);
                    lemma_child_index_bounds(oc, q[0]);
                    if kq >= 0 {
                        assert(kq != k);
                        assert(nc[kq] == oc[kq]);
                    }
                }
            } else {
                let olen = oc.len() as int;
                if q[0] == path[0] {
                    lemma_child_index(nc, q[0], olen);
                    assert(nc.last() == nc[olen]);
                    lemma_fresh_children_at(nc.last(), path[0], path.drop_first(), c, q.drop_first());
                    if path.len() > q.len() {
                        assert(path.drop_first()[q.drop_first().len() as int] == path[q.len() as int]);
                    }
                } else {
                    lemma_child_index_bounds(oc, q[0]);
                    let kq = child_index(oc, q[0]);
                    lemma_child_index(nc, q[0], kq);
                    if kq >= 0 {
                        assert(nc[kq] == oc[kq]);
                    }
                }
            }
        }
    }
}

/// Some sample's stack begins with `q`.
pub open spec fn on_some_stack(ss: Seq<(Seq<Seq<char>>, int)>, q: Seq<Seq<char>>) -> bool
    decreases ss.len(),
{
    if ss.len() == 0 {
        false
    } else {
        on_some_stack(ss.drop_last(), q) || is_prefix(q, ss.last().0)
    }
}

// ---------------------------------------------------------------------
// Folded input
// ---------------------------------------------------------------------

/// One folded line: the stack (split at ';') and its sample count,
/// separated by the line's last space. Blank lines, lines without a
/// space and counts that are not integers are skipped.
pub open spec fn folded_sample(line: Seq<char>) -> Option<(Seq<Seq<char>>, int)> {
    let t = trim_space(line);
    let sp = last_index_char(t, ' ');
    if t.len() == 0 || sp < 0 {
        None
    } else {
        match parse_int(t.skip(sp + 1)) {
            Some(n) => Some((split_char(t.take(sp), ';'), n)),
            None => None,
        }
    }
}

/// The samples of a list of lines, in order.
pub open spec fn samples_of(lines: Seq<Seq<char>>) -> Seq<(Seq<Seq<char>>, int)>
    decreases lines.len(),
{
    if lines.len() == 0 {
        seq![]
    } else {
        samples_of(lines.drop_last()) + match folded_sample(lines.last()) {
            Some(x) => seq![x],
            None => seq![],
        }
    }
}

/// The samples of folded-stack text.
pub open spec fn folded_samples(input: Seq<char>) -> Seq<(Seq<Seq<char>>, int)> {
    samples_of(split_char(input, '\n'))
}

/// All samples' counts.
pub open spec fn total(ss: Seq<(Seq<Seq<char>>, int)>) -> int
    decreases ss.len(),
{
    if ss.len() == 0 {
        0
    } else {
        total(ss.drop_last()) + ss.last().1
    }
}

/// The counts of the samples on exactly the stack `p`.
pub open spec fn path_total(ss: Seq<(Seq<Seq<char>>, int)>, p: Seq<Seq<char>>) -> int
    decreases ss.len(),
{
    if ss.len() == 0 {
        0
    } else {
        path_total(ss.drop_last(), p) + if ss.last().0 == p { ss.last().1 } else { 0 }
    }
}

/// The running totals the parse forms, overall and per stack, all fit
/// an `i64`.
pub open spec fn folded_ok(input: Seq<char>) -> bool {
    let ss = folded_samples(input);
    &&& forall|k: int| 0 <= k <= ss.len() ==> fits(#[trigger] total(ss.take(k)))
    &&& forall|k: int, p: Seq<Seq<char>>|
        0 <= k <= ss.len() ==> fits(#[trigger] path_total(ss.take(k), p))
}

proof fn lemma_samples_prefix(lines: Seq<Seq<char>>, i: int)
    requires
        0 <= i <= lines.len(),
    ensures
        samples_of(lines.take(i)).len() <= samples_of(lines).len(),
        samples_of(lines).take(samples_of(lines.take(i)).len() as int) == samples_of(lines.take(i)),
    decreases lines.len() - i,
{
    if i < lines.len() {
        lemma_samples_prefix(lines.drop_last(), i);
        assert(lines.drop_last().take(i) =~= lines.take(i));
        let a = samples_of(lines.drop_last());
        let b = samples_of(lines.take(i));
        assert(samples_of(lines).take(b.len() as int) =~= a.take(b.len() as int));
    } else {
        assert(lines.take(i) =~= lines);
        assert(samples_of(lines).take(samples_of(lines).len() as int) =~= samples_of(lines));
    }
}

/// Parses folded stack text into a flame graph: each sample's count is
/// added on its stack, and to the total. The tree holds a frame exactly
/// at each beginning of a sample's stack, no two siblings share a name,
/// and siblings stand in the order their frames first appear.
pub fn ParseFolded(input: &str) -> (fg: FlameGraph)
    requires
        folded_ok(input@),
    ensures
        fg.Total == total(folded_samples(input@)),
        forall|p: Seq<Seq<char>>| #[trigger] count_at(fg.Root, p) == path_total(folded_samples(input@), p),
        forall|p: Seq<Seq<char>>|
            #[trigger] has_node(fg.Root, p) == (p.len() == 0 || on_some_stack(folded_samples(input@), p)),
        distinct_siblings(fg.Root),
        forall|p: Seq<Seq<char>>| #[trigger] children_at(fg.Root, p) == next_names(folded_samples(input@), p),
        inclusive(fg.Root) == fg.Total,
        fg.Root.Name@.len() == 0,
        fg.Title@ == "Flame Graph"@,
        fg.Width == 1200,
        fg.Height == 16,
        fg.FontSize == 12,
        !fg.Vertical,
        fg.VHeight == 720,
{
    let mut fg = New();
    let lines = split_char_exec(input, '\n');
    let ghost ls = lines.deep_view();
    let ghost all = folded_samples(input@);
    let mut i: usize = 0;
    assert(ls.take(0) =~= Seq::<Seq<char>>::empty());
    assert forall|p: Seq<Seq<char>>| #[trigger] count_at(fg.Root, p) == path_total(samples_of(ls.take(0)), p) by {
        if p.len() > 0 {
            assert(child_index(fg.Root.Children@, p[0]) == -1);
        }
    }
    assert forall|p: Seq<Seq<char>>|
        #[trigger] has_node(fg.Root, p) == (p.len() == 0 || on_some_stack(samples_of(ls.take(0)), p)) by {
        if p.len() > 0 {
            assert(child_index(fg.Root.Children@, p[0]) == -1);
        }
    }
    proof {
        lemma_all_distinct(fg.Root.Children@);
    }
    assert forall|p: Seq<Seq<char>>| #[trigger] children_at(fg.Root, p) == next_names(samples_of(ls.take(0)), p) by {
        if p.len() > 0 {
            assert(child_index(fg.Root.Children@, p[0]) == -1);
        } else {
            assert(names_of(fg.Root.Children@) =~= seq![]);
        }
    }
    while i < lines.len()
        invariant
            i <= lines.len(),
            ls == lines.deep_view(),
            ls == split_char(input@, '\n'),
            all == samples_of(ls),
            folded_ok(input@),
            fg.Total == total(samples_of(ls.take(i as int))),
            forall|p: Seq<Seq<char>>| #[trigger] count_at(fg.Root, p) == path_total(samples_of(ls.take(i as int)), p),
            forall|p: Seq<Seq<char>>|
                #[trigger] has_node(fg.Root, p) == (p.len() == 0 || on_some_stack(samples_of(ls.take(i as int)), p)),
            distinct_siblings(fg.Root),
            forall|p: Seq<Seq<char>>| #[trigger] children_at(fg.Root, p) == next_names(samples_of(ls.take(i as int)), p),
            inclusive(fg.Root) == fg.Total,
            fg.Root.Name@.len() == 0,
            fg.Title@ == "Flame Graph"@,
            fg.Width == 1200,
            fg.Height == 16,
            fg.FontSize == 12,
            !fg.Vertical,
            fg.VHeight == 720,
        decreases lines.len() - i,
    {
        let ghost before = samples_of(ls.take(i as int));
        proof {
            let t = ls.take(i + 1);
            assert(t.drop_last() =~= ls.take(i as int));
            assert(t.last() == ls[i as int]);
            lemma_samples_prefix(ls, i + 1);
        }
        let line = trim_space_exec(lines[i].as_str());
        let sp = last_index_char_exec(line.as_str(), ' ');
        if line.as_str().is_empty() || sp.is_none() {
            assert(samples_of(ls.take(i + 1)) =~= before);
            i += 1;
            continue;
        }
        let sp = sp.unwrap();
        proof {
            lemma_last_index_char(line@, ' ');
        }
        let len = char_len(line.as_str());
        let stack = substring(line.as_str(), 0, sp);
        let count_str = substring(line.as_str(), sp + 1, len);
        assert(stack@ == line@.take(sp as int));
        assert(count_str@ == line@.skip(sp + 1));
        let count = match parse_int_exec(count_str.as_str()) {
            Some(n) => n,
            None => {
                assert(samples_of(ls.take(i + 1)) =~= before);
                i += 1;
                continue;
            },
        };
        let frames = split_char_exec(stack.as_str(), ';');
        let ghost path = frames.deep_view();
        let ghost after = samples_of(ls.take(i + 1));
        assert(after =~= before.push((path, count as int)));
        assert(after.drop_last() =~= before);
        assert(frames.deep_view().skip(0) =~= path);
        proof {
            let m = after.len() as int;
            assert(all.take(m) == after);
            assert(all == folded_samples(input@));
            assert(0 <= m <= all.len());
            assert(fits(total(folded_samples(input@).take(m))));
            assert(fits(path_total(folded_samples(input@).take(m), path)));
            assert(path_total(after, path) == path_total(before, path) + count);
        }
        let ghost old_root = fg.Root;
        addToTree(&mut fg.Root, &frames, 0, count);
        fg.Total = fg.Total + count;
        proof {
            lemma_added_inclusive(old_root, fg.Root, path, count as int);
            assert forall|p: Seq<Seq<char>>| #[trigger] count_at(fg.Root, p) == path_total(after, p) by {
                lemma_added_count_at(old_root, fg.Root, path, count as int, p);
            }
            assert forall|p: Seq<Seq<char>>|
                #[trigger] has_node(fg.Root, p) == (p.len() == 0 || on_some_stack(after, p)) by {
                lemma_added_has_node(old_root, fg.Root, path, count as int, p);
                assert(has_node(old_root, p) == (p.len() == 0 || on_some_stack(before, p)));
            }
            lemma_added_distinct(old_root, fg.Root, path, count as int);
            assert forall|p: Seq<Seq<char>>| #[trigger] children_at(fg.Root, p) == next_names(after, p) by {
                lemma_added_children_at(old_root, fg.Root, path, count as int, p);
                assert(children_at(old_root, p) == next_names(before, p));
            }
        }
        i += 1;
    }
    assert(ls.take(lines.len() as int) =~= ls);
    fg
}


/// The sum of the samples' absolute counts.
pub open spec fn abs_total(ss: Seq<(Seq<Seq<char>>, int)>) -> int
    decreases ss.len(),
{
    if ss.len() == 0 {
        0
    } else {
        abs_total(ss.drop_last()) + crate::arith::abs(ss.last().1)
    }
}

proof fn lemma_abs_total_bounds(ss: Seq<(Seq<Seq<char>>, int)>, p: Seq<Seq<char>>)
    ensures
        crate::arith::abs(total(ss)) <= abs_total(ss),
        crate::arith::abs(path_total(ss, p)) <= abs_total(ss),
    decreases ss.len(),
{
    if ss.len() > 0 {
        lemma_abs_total_bounds(ss.drop_last(), p);
    }
}

proof fn lemma_abs_total_prefix(ss: Seq<(Seq<Seq<char>>, int)>, k: int)
    requires
        0 <= k <= ss.len(),
    ensures
        abs_total(ss.take(k)) <= abs_total(ss),
    decreases ss.len(),
{
    if k < ss.len() {
        assert(ss.drop_last().take(k) =~= ss.take(k));
        lemma_abs_total_prefix(ss.drop_last(), k);
    } else {
        assert(ss.take(k) =~= ss);
    }
}

/// Samples whose absolute counts sum to at most `i64::MAX` keep every
/// running total of the parse in range.
proof fn lemma_abs_total_folded_ok(input: Seq<char>)
    requires
        abs_total(folded_samples(input)) <= i64::MAX,
    ensures
        folded_ok(input),
{
    let ss = folded_samples(input);
    assert forall|k: int| 0 <= k <= ss.len() implies fits(#[trigger] total(ss.take(k))) by {
        lemma_abs_total_prefix(ss, k);
        lemma_abs_total_bounds(ss.take(k), seq![]);
    }
    assert forall|k: int, p: Seq<Seq<char>>| 0 <= k <= ss.len() implies fits(
        #[trigger] path_total(ss.take(k), p),
    ) by {
        lemma_abs_total_prefix(ss, k);
        lemma_abs_total_bounds(ss.take(k), p);
    }
}

/// The sample count of one folded line, if the line holds a sample.
fn folded_count(line: &str) -> (r: Option<i64>)
    ensures
        r is Some <==> folded_sample(line@) is Some,
        r is Some ==> r->0 == folded_sample(line@).unwrap().1,
{
    let t = trim_space_exec(line);
    let sp = last_index_char_exec(t.as_str(), ' ');
    if t.as_str().is_empty() || sp.is_none() {
        return None;
    }
    let sp = sp.unwrap();
    proof {
        lemma_last_index_char(t@, ' ');
    }
    let len = char_len(t.as_str());
    let count_str = substring(t.as_str(), sp + 1, len);
    assert(count_str@ == t@.skip(sp + 1));
    parse_int_exec(count_str.as_str())
}

/// Whether the absolute sample counts of folded text sum to at most
/// `i64::MAX`; when they do, `ParseFolded` accepts the text.
pub fn foldedWithinRange(input: &str) -> (r: bool)
    ensures
        r ==> folded_ok(input@),
        r <==> abs_total(folded_samples(input@)) <= i64::MAX,
{
    let lines = split_char_exec(input, '\n');
    let ghost ls = lines.deep_view();
    let mut acc: i128 = 0;
    let mut i: usize = 0;
    assert(ls.take(0) =~= Seq::<Seq<char>>::empty());
    while i < lines.len()
        invariant
            i <= lines.len(),
            ls == lines.deep_view(),
            ls == split_char(input@, '\n'),
            0 <= acc <= i64::MAX,
            acc == abs_total(samples_of(ls.take(i as int))),
        decreases lines.len() - i,
    {
        let ghost before = samples_of(ls.take(i as int));
        proof {
            let t = ls.take(i + 1);
            assert(t.drop_last() =~= ls.take(i as int));
            assert(t.last() == ls[i as int]);
            lemma_samples_prefix(ls, i + 1);
        }
        match folded_count(lines[i].as_str()) {
            None => {
                assert(samples_of(ls.take(i + 1)) =~= before);
            },
            Some(c) => {
                let ghost after = samples_of(ls.take(i + 1));
                assert(after.drop_last() =~= before);
                let a: i128 = if c < 0 { -(c as i128) } else { c as i128 };
                acc = acc + a;
                if acc > i64::MAX as i128 {
                    proof {
                        lemma_samples_prefix(ls, i + 1);
                        lemma_abs_total_prefix(samples_of(ls), after.len() as int);
                    }
                    return false;
                }
            },
        }
        i += 1;
    }
    assert(ls.take(lines.len() as int) =~= ls);
    proof {
        lemma_abs_total_folded_ok(input@);
    }
    true
}

// ---------------------------------------------------------------------
// Layout helpers
// ---------------------------------------------------------------------

/// Child `i` goes before child `j`: heavier first, ties in input order.
pub open spec fn goes_before(cs: Seq<Frame>, i: int, j: int) -> bool {
    inclusive(cs[i]) > inclusive(cs[j]) || (inclusive(cs[i]) == inclusive(cs[j]) && i < j)
}

/// `o` lists each index of `cs` once, heaviest child first, children of
/// equal weight in input order.
pub open spec fn heaviest_first(cs: Seq<Frame>, o: Seq<usize>) -> bool {
    &&& o.len() == cs.len()
    &&& forall|i: int| 0 <= i < o.len() ==> o[i] < cs.len()
    &&& forall|i: int, j: int| 0 <= i < j < o.len() ==> o[i] != o[j]
    &&& forall|i: int, j: int| 0 <= i < j < o.len() ==> goes_before(cs, o[i] as int, o[j] as int)
}

proof fn lemma_sum_ok_children(base: int, cs: Seq<Frame>)
    requires
        sum_ok(base, cs),
    ensures
        forall|i: int| 0 <= i < cs.len() ==> inclusive_ok(#[trigger] cs[i]),
{
    assert forall|i: int| 0 <= i < cs.len() implies inclusive_ok(#[trigger] cs[i]) by {
        lemma_sum_ok_prefix(base, cs, i + 1);
    }
}

/// The order the children of `f` are laid out in: heaviest first by
/// inclusive weight, a deterministic layout whatever the input order.
pub fn sorted_order(f: &Frame) -> (o: Vec<usize>)
    requires
        inclusive_ok(*f),
    ensures
        heaviest_first(f.Children@, o@),
{
    let cs = &f.Children;
    proof {
        lemma_sum_ok_children(f.Count as int, cs@);
    }
    let mut w: Vec<i64> = Vec::new();
    let mut i: usize = 0;
    while i < cs.len()
        invariant
            i <= cs.len(),
            forall|k: int| 0 <= k < cs.len() ==> inclusive_ok(#[trigger] cs@[k]),
            w.len() == i,
            forall|k: int| 0 <= k < i ==> w@[k] == inclusive(#[trigger] cs@[k]),
        decreases cs.len() - i,
    {
        w.push(inclusive_exec(&cs[i]));
        i += 1;
    }
    let mut o: Vec<usize> = Vec::new();
    let mut t: usize = 0;
    while t < cs.len()
        invariant
            t <= cs.len(),
            w.len() == cs.len(),
            forall|k: int| 0 <= k < cs.len() ==> w@[k] == inclusive(#[trigger] cs@[k]),
            o.len() == t,
            forall|a: int| 0 <= a < o.len() ==> o@[a] < t,
            forall|a: int, b: int| 0 <= a < b < o.len() ==> o@[a] != o@[b],
            forall|a: int, b: int| 0 <= a < b < o.len() ==> goes_before(cs@, o@[a] as int, o@[b] as int),
        decreases cs.len() - t,
    {
        let mut p: usize = 0;
        while p < o.len() && w[o[p]] >= w[t]
            invariant
                p <= o.len(),
                t < cs.len(),
                w.len() == cs.len(),
                forall|a: int| 0 <= a < o.len() ==> o@[a] < t,
                forall|a: int| 0 <= a < p ==> w@[o@[a] as int] >= w@[t as int],
            decreases o.len() - p,
        {
            p += 1;
        }
        let ghost old_o = o@;
        proof {
            assert forall|a: int| p <= a < old_o.len() implies w@[old_o[a] as int] < w@[t as int] by {
                if p < old_o.len() {
                    if a > p {
                        assert(goes_before(cs@, old_o[p as int] as int, old_o[a] as int));
                        assert(w@[old_o[p as int] as int] == inclusive(cs@[old_o[p as int] as int]));
                        assert(w@[old_o[a] as int] == inclusive(cs@[old_o[a] as int]));
                    }
                }
            }
        }
        o.insert(p, t);
        proof {
            assert forall|a: int, b: int| 0 <= a < b < o.len() implies goes_before(cs@, o@[a] as int, o@[b] as int) by {
                let x = o@[a] as int;
                let y = o@[b] as int;
                assert(w@[x] == inclusive(cs@[x]));
                assert(w@[y] == inclusive(cs@[y]));
                if a < p && b < p {
                    assert(o@[a] == old_o[a] && o@[b] == old_o[b]);
                } else if a < p && b == p {
                    assert(o@[a] == old_o[a]);
                } else if a < p && b > p {
                    assert(o@[a] == old_o[a] && o@[b] == old_o[b - 1]);
                } else if a == p {
                    assert(o@[b] == old_o[b - 1]);
                } else {
                    assert(o@[a] == old_o[a - 1] && o@[b] == old_o[b - 1]);
                }
            }
            assert forall|a: int, b: int| 0 <= a < b < o.len() implies o@[a] != o@[b] by {
                if a < p && b < p {
                    assert(o@[a] == old_o[a] && o@[b] == old_o[b]);
                } else if a < p && b == p {
                    assert(o@[a] == old_o[a]);
                } else if a < p && b > p {
                    assert(o@[a] == old_o[a] && o@[b] == old_o[b - 1]);
                } else if a == p {
                    assert(o@[b] == old_o[b - 1]);
                } else {
                    assert(o@[a] == old_o[a - 1] && o@[b] == old_o[b - 1]);
                }
            }
        }
        t += 1;
    }
    o
}

/// A frame's children ordered heaviest first (ties in input order).
pub fn sortedChildren(f: &Frame) -> (r: Vec<&Frame>)
    requires
        inclusive_ok(*f),
    ensures
        exists|o: Seq<usize>|
            heaviest_first(f.Children@, o) && r@.len() == o.len() && forall|i: int|
                0 <= i < o.len() ==> *r@[i] == f.Children@[o[i] as int],
{
    let o = sorted_order(f);
    let mut r: Vec<&Frame> = Vec::new();
    let mut i: usize = 0;
    while i < o.len()
        invariant
            heaviest_first(f.Children@, o@),
            i <= o.len(),
            r.len() == i,
            forall|k: int| 0 <= k < i ==> *r@[k] == f.Children@[o@[k] as int],
        decreases o.len() - i,
    {
        r.push(&f.Children[o[i]]);
        i += 1;
    }
    r
}

/// The djb2 hash of bytes, kept to 31 bits.
pub open spec fn djb2(b: Seq<u8>) -> int
    decreases b.len(),
{
    if b.len() == 0 {
        5381
    } else {
        (djb2(b.drop_last()) * 33 + b.last()) % 0x8000_0000
    }
}

/// "rgb(r,g,b)" of a warm color picked from the name's hash: red 205 to
/// 254, green 0 to 199, blue 0 to 54.
pub open spec fn warm_color(name: &str) -> Seq<char> {
    let h = djb2(name.spec_bytes());
    "rgb("@ + crate::text::decimal(205 + h % 50) + ","@ + crate::text::decimal((h / 50) % 200) + ","@
        + crate::text::decimal((h / 11500) % 55) + ")"@
}

/// A deterministic warm color per function name, so the same function
/// has the same color across graphs.
pub fn warmColor(name: &str) -> (r: String)
    ensures
        r@ == warm_color(name),
{
    let bytes = name.as_bytes();
    let mut h: i64 = 5381;
    let mut i: usize = 0;
    while i < bytes.len()
        invariant
            i <= bytes@.len(),
            bytes@ == name.spec_bytes(),
            0 <= h < 0x8000_0000,
            h == djb2(bytes@.take(i as int)),
        decreases bytes@.len() - i,
    {
        let x: i64 = h * 33 + bytes[i] as i64;
        assert(x & 0x7fffffff == x % 0x8000_0000) by (bit_vector)
            requires
                0 <= x < 0x20_0000_0000,
        ;
        proof {
            let t = bytes@.take(i + 1);
            assert(t.drop_last() =~= bytes@.take(i as int));
            assert(t.last() == bytes@[i as int]);
        }
        h = x & 0x7fffffff;
        i += 1;
    }
    assert(bytes@.take(bytes@.len() as int) =~= bytes@);
    let mut s = owned("rgb(");
    let r1 = crate::text::int_to_string(205 + h % 50);
    crate::text::push_str(&mut s, r1.as_str());
    crate::text::push_str(&mut s, ",");
    let g1 = crate::text::int_to_string((h / 50) % 200);
    crate::text::push_str(&mut s, g1.as_str());
    crate::text::push_str(&mut s, ",");
    let b1 = crate::text::int_to_string((h / 11500) % 55);
    crate::text::push_str(&mut s, b1.as_str());
    crate::text::push_str(&mut s, ")");
    s
}

/// Bytes cut to at most `maxLen`, the last three replaced by "..." when
/// something was cut and there is room for them.
pub open spec fn truncated(s: Seq<u8>, max: int) -> Seq<u8> {
    if s.len() <= max {
        s
    } else if max <= 3 {
        s.take(max)
    } else {
        s.take(max - 3) + seq![46u8, 46u8, 46u8]
    }
}

/// Truncates a byte string to `maxLen` bytes, ending in "..." when cut.
pub fn truncateString(s: &Vec<u8>, maxLen: i64) -> (r: Vec<u8>)
    requires
        maxLen >= 0,
    ensures
        r@ == truncated(s@, maxLen as int),
{
    let n: usize = if (s.len() as u64) <= (maxLen as u64) {
        s.len()
    } else if maxLen <= 3 {
        maxLen as usize
    } else {
        (maxLen - 3) as usize
    };
    let mut r: Vec<u8> = Vec::new();
    let mut i: usize = 0;
    while i < n
        invariant
            n <= s.len(),
            i <= n,
            r@ == s@.take(i as int),
        decreases n - i,
    {
        r.push(s[i]);
        i += 1;
        assert(r@ =~= s@.take(i as int));
    }
    if s.len() as u64 > maxLen as u64 && maxLen > 3 {
        r.push(46u8);
        r.push(46u8);
        r.push(46u8);
    }
    assert(r@ =~= truncated(s@, maxLen as int));
    r
}

} // verus!
