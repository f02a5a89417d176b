//! Serve recipes as data: flags, serve specs (argv and shell forms),
//! hardware rows and the recipe values a variant pins.
use vstd::prelude::*;
use crate::model::{Flag, Hardware, ServeSpec, Variant};
use crate::text::{contains, contains_exec, copy, parse_int, parse_int_exec, push_str, str_eq};

verus! {

pub type FlagView = (Seq<char>, Seq<char>);

/// (profile, note, env, model, flags)
pub type ServeView = (Seq<char>, Seq<char>, Seq<Seq<char>>, Seq<char>, Seq<FlagView>);

/// (target, key, profile, image, floor, floor reference, note)
pub type HardwareView = (Seq<char>, Seq<char>, Seq<char>, Seq<char>, Seq<char>, Seq<char>, Seq<char>);

impl View for Flag {
    type V = FlagView;

    open spec fn view(&self) -> FlagView {
        (self.Name@, self.Value@)
    }
}

impl View for ServeSpec {
    type V = ServeView;

    open spec fn view(&self) -> ServeView {
        (self.Profile@, self.Note@, self.Env.deep_view(), self.Model@, self.Flags@.map_values(|f: Flag| f@))
    }
}

impl View for Hardware {
    type V = HardwareView;

    open spec fn view(&self) -> HardwareView {
        (self.Target@, self.Key@, self.Profile@, self.Image@, self.Floor@, self.FloorRef@, self.Note@)
    }
}

pub open spec fn flag_views(fs: Seq<Flag>) -> Seq<FlagView> {
    fs.map_values(|f: Flag| f@)
}

/// The argv words one flag contributes: its name, then its value unless
/// it is a boolean switch.
pub open spec fn flag_words(f: FlagView) -> Seq<Seq<char>> {
    if f.1.len() > 0 { seq![f.0, f.1] } else { seq![f.0] }
}

pub open spec fn flags_words(fs: Seq<FlagView>) -> Seq<Seq<char>>
    decreases fs.len(),
{
    if fs.len() == 0 {
        seq![]
    } else {
        flags_words(fs.drop_last()) + flag_words(fs.last())
    }
}

/// ["vllm", "serve", model, flag words...]
pub open spec fn argv_of(s: ServeView) -> Seq<Seq<char>> {
    seq!["vllm"@, "serve"@, s.3] + flags_words(s.4)
}

/// Index of the first flag named `name`, or -1.
pub open spec fn flag_index(fs: Seq<FlagView>, name: Seq<char>) -> int
    decreases fs.len(),
{
    if fs.len() == 0 {
        -1
    } else if fs[0].0 == name {
        0
    } else {
        let k = flag_index(fs.drop_first(), name);
        if k < 0 { -1 } else { k + 1 }
    }
}

proof fn lemma_flag_index(fs: Seq<FlagView>, name: Seq<char>, k: int)
    requires
        -1 <= k < fs.len(),
        k >= 0 ==> fs[k].0 == name,
        forall|j: int| 0 <= j < fs.len() && (k < 0 || j < k) ==> fs[j].0 != name,
    ensures
        flag_index(fs, name) == k,
    decreases fs.len(),
{
    if fs.len() > 0 && k != 0 {
        assert forall|j: int|
            0 <= j < fs.drop_first().len() && (k - 1 < 0 || j < k - 1) implies fs.drop_first()[j].0
            != name by {
            assert(fs.drop_first()[j] == fs[j + 1]);
        }
        if k > 0 {
            assert(fs.drop_first()[k - 1] == fs[k]);
            lemma_flag_index(fs.drop_first(), name, k - 1);
        } else {
            lemma_flag_index(fs.drop_first(), name, -1);
        }
    }
}

/// A value shell-quoted when it holds a space or a double quote.
pub open spec fn shell_value(v: Seq<char>) -> Seq<char> {
    if contains(v, " "@) || contains(v, "\""@) { "'"@ + v + "'"@ } else { v }
}

/// A character a POSIX shell reads literally outside quotes (no blank,
/// quote, escape, expansion, operator or glob character).
pub open spec fn sh_plain(c: char) -> bool {
    !(c == '\'' || c == '"' || c == ' ' || c == '\t' || c == '\n' || c == '\\' || c == '$' || c == '`' || c
        == ';' || c == '&' || c == '|' || c == '<' || c == '>' || c == '(' || c == ')' || c == '*' || c == '?'
        || c == '[' || c == '#' || c == '~')
}

/// A character a POSIX shell reads literally inside double quotes.
pub open spec fn dq_plain(c: char) -> bool {
    !(c == '\\' || c == '$' || c == '`')
}

/// The single word a POSIX shell reads from `s` after quote removal:
/// literal characters, '...' read as they stand, "..." without escapes
/// or expansions. `None` when `s` is not one such word (a blank splits
/// it, a quote is unterminated, or a character would be interpreted).
pub open spec fn sh_word(s: Seq<char>) -> Option<Seq<char>>
    decreases s.len(),
{
    if s.len() == 0 {
        Some(seq![])
    } else if s[0] == '\'' || s[0] == '"' {
        let q = s[0];
        let rest = s.drop_first();
        let k = crate::text::index_char(rest, q);
        proof {
            crate::text::lemma_index_char(rest, q);
        }
        if k < 0 {
            None
        } else if q == '"' && !(forall|j: int| 0 <= j < k ==> dq_plain(#[trigger] rest[j])) {
            None
        } else {
            match sh_word(rest.skip(k + 1)) {
                Some(w) => Some(rest.take(k) + w),
                None => None,
            }
        }
    } else if sh_plain(s[0]) {
        match sh_word(s.drop_first()) {
            Some(w) => Some(seq![s[0]] + w),
            None => None,
        }
    } else {
        None
    }
}

/// A flag value whose characters are all literal to the shell, blanks
/// and double quotes aside.
pub open spec fn sh_safe(v: Seq<char>) -> bool {
    forall|i: int| 0 <= i < v.len() ==> sh_plain(#[trigger] v[i]) || v[i] == ' ' || v[i] == '"'
}

proof fn lemma_plain_word(v: Seq<char>)
    requires
        forall|i: int| 0 <= i < v.len() ==> sh_plain(#[trigger] v[i]),
    ensures
        sh_word(v) == Some(v),
    decreases v.len(),
{
    if v.len() > 0 {
        assert forall|i: int| 0 <= i < v.drop_first().len() implies sh_plain(#[trigger] v.drop_first()[i]) by {
            assert(v.drop_first()[i] == v[i + 1]);
        }
        lemma_plain_word(v.drop_first());
        assert(sh_plain(v[0]));
        assert(seq![v[0]] + v.drop_first() =~= v);
    }
}

/// The rendered command is shell-faithful: a flag value of characters
/// the shell reads literally (blanks and double quotes included) reads
/// back, after the shell's quote removal, as exactly one word equal to
/// the value.
pub proof fn lemma_shell_value_reads_back(v: Seq<char>)
    requires
        sh_safe(v),
    ensures
        sh_word(shell_value(v)) == Some(v),
{
    reveal_strlit(" ");
    reveal_strlit("\"");
    reveal_strlit("'");
    if contains(v, " "@) || contains(v, "\""@) {
        let s = shell_value(v);
        assert(s =~= seq!['\''] + v + seq!['\'']);
        let rest = s.drop_first();
        assert(rest =~= v + seq!['\'']);
        assert forall|j: int| 0 <= j < v.len() implies rest[j] != '\'' by {
            assert(rest[j] == v[j]);
            assert(sh_plain(v[j]) || v[j] == ' ' || v[j] == '"');
        }
        crate::text::lemma_index_char_at(rest, '\'', v.len() as int);
        assert(rest.take(v.len() as int) =~= v);
        assert(rest.skip(v.len() as int + 1) =~= Seq::<char>::empty());
        assert(s[0] == '\'');
        assert(crate::text::index_char(rest, '\'') == v.len());
        assert(sh_word(Seq::<char>::empty()) == Some(Seq::<char>::empty()));
        assert(sh_word(s) == Some(rest.take(v.len() as int) + Seq::<char>::empty()));
        assert(v + Seq::<char>::empty() =~= v);
    } else {
        assert forall|i: int| 0 <= i < v.len() implies sh_plain(#[trigger] v[i]) by {
            if v[i] == ' ' {
                assert(v.subrange(i, i + 1) =~= " "@);
                crate::text::lemma_contains_at(v, " "@, i);
            }
            if v[i] == '"' {
                assert(v.subrange(i, i + 1) =~= "\""@);
                crate::text::lemma_contains_at(v, "\""@, i);
            }
        }
        lemma_plain_word(v);
    }
}

/// A blank: what separates shell words.
pub open spec fn sh_blank(c: char) -> bool {
    c == ' ' || c == '\t' || c == '\n'
}

/// The next shell word at the start of `s`, read up to an unquoted blank
/// or the end, after quote removal, with the number of characters it
/// took; `None` where a quote is unterminated or a character would be
/// interpreted.
pub open spec fn sh_tok(s: Seq<char>) -> Option<(Seq<char>, int)>
    decreases s.len(),
{
    if s.len() == 0 || sh_blank(s[0]) {
        Some((seq![], 0))
    } else if s[0] == '\'' || s[0] == '"' {
        let q = s[0];
        let rest = s.drop_first();
        let k = crate::text::index_char(rest, q);
        proof {
            crate::text::lemma_index_char(rest, q);
        }
        if k < 0 {
            None
        } else if q == '"' && !(forall|j: int| 0 <= j < k ==> dq_plain(#[trigger] rest[j])) {
            None
        } else {
            match sh_tok(rest.skip(k + 1)) {
                Some((w, n)) => Some((rest.take(k) + w, k + 2 + n)),
                None => None,
            }
        }
    } else if sh_plain(s[0]) {
        match sh_tok(s.drop_first()) {
            Some((w, n)) => Some((seq![s[0]] + w, n + 1)),
            None => None,
        }
    } else {
        None
    }
}

/// The words a POSIX shell reads from a command line: blanks separate
/// them, a backslash-newline continues the line, quotes are removed.
pub open spec fn sh_words(s: Seq<char>) -> Option<Seq<Seq<char>>>
    decreases s.len(),
{
    if s.len() == 0 {
        Some(seq![])
    } else if sh_blank(s[0]) {
        sh_words(s.drop_first())
    } else if s[0] == '\\' && s.len() >= 2 && s[1] == '\n' {
        sh_words(s.skip(2))
    } else {
        match sh_tok(s) {
            Some((w, n)) => if n < 1 || n > s.len() {
                None
            } else {
                match sh_words(s.skip(n)) {
                    Some(ws) => Some(seq![w] + ws),
                    None => None,
                }
            },
            None => None,
        }
    }
}

/// A text ends a shell word where `t` begins: `t` is empty or starts
/// with a blank.
pub open spec fn word_end(t: Seq<char>) -> bool {
    t.len() == 0 || sh_blank(t[0])
}

pub(crate) proof fn lemma_tok_plain(w: Seq<char>, t: Seq<char>)
    requires
        forall|i: int| 0 <= i < w.len() ==> sh_plain(#[trigger] w[i]),
        word_end(t),
    ensures
        sh_tok(w + t) == Some((w, w.len() as int)),
    decreases w.len(),
{
    if w.len() == 0 {
        assert(w + t =~= t);
        assert(w =~= Seq::<char>::empty());
    } else {
        assert forall|i: int| 0 <= i < w.drop_first().len() implies sh_plain(#[trigger] w.drop_first()[i]) by {
            assert(w.drop_first()[i] == w[i + 1]);
        }
        lemma_tok_plain(w.drop_first(), t);
        assert((w + t).drop_first() =~= w.drop_first() + t);
        assert((w + t)[0] == w[0]);
        assert(sh_plain(w[0]));
        assert(seq![w[0]] + w.drop_first() =~= w);
    }
}

proof fn lemma_tok_value(v: Seq<char>, t: Seq<char>)
    requires
        sh_safe(v),
        v.len() > 0,
        word_end(t),
    ensures
        sh_tok(shell_value(v) + t) == Some((v, shell_value(v).len() as int)),
{
    reveal_strlit(" ");
    reveal_strlit("\"");
    reveal_strlit("'");
    if contains(v, " "@) || contains(v, "\""@) {
        let s = shell_value(v) + t;
        assert(shell_value(v) =~= seq!['\''] + v + seq!['\'']);
        let rest = s.drop_first();
        assert(rest =~= v + seq!['\''] + t);
        assert forall|j: int| 0 <= j < v.len() implies rest[j] != '\'' by {
            assert(rest[j] == v[j]);
            assert(sh_plain(v[j]) || v[j] == ' ' || v[j] == '"');
        }
        assert(rest[v.len() as int] == '\'');
        crate::text::lemma_index_char_at(rest, '\'', v.len() as int);
        assert(rest.take(v.len() as int) =~= v);
        assert(rest.skip(v.len() as int + 1) =~= t);
        assert(sh_tok(t) == Some((Seq::<char>::empty(), 0int)));
        assert(s[0] == '\'');
        assert(v + Seq::<char>::empty() =~= v);
    } else {
        assert forall|i: int| 0 <= i < v.len() implies sh_plain(#[trigger] v[i]) by {
            if v[i] == ' ' {
                assert(v.subrange(i, i + 1) =~= " "@);
                crate::text::lemma_contains_at(v, " "@, i);
            }
            if v[i] == '"' {
                assert(v.subrange(i, i + 1) =~= "\""@);
                crate::text::lemma_contains_at(v, "\""@, i);
            }
        }
        lemma_tok_plain(v, t);
    }
}

/// A flag the shell reads back as written: a name of literal characters,
/// and a value (when it has one) of literal characters, blanks and double
/// quotes.
pub open spec fn flag_sh_safe(f: FlagView) -> bool {
    &&& f.0.len() > 0
    &&& forall|i: int| 0 <= i < f.0.len() ==> sh_plain(#[trigger] f.0[i])
    &&& sh_safe(f.1)
}

/// `sh_words` on a word followed by the rest of a line.
pub(crate) proof fn lemma_words_tok(w: Seq<char>, n: int, s: Seq<char>)
    requires
        s.len() > 0,
        !sh_blank(s[0]),
        !(s[0] == '\\' && s.len() >= 2 && s[1] == '\n'),
        sh_tok(s) == Some((w, n)),
        1 <= n <= s.len(),
    ensures
        sh_words(s) == match sh_words(s.skip(n)) {
            Some(ws) => Some(seq![w] + ws),
            None => None::<Seq<Seq<char>>>,
        },
{
}

proof fn lemma_continuation(s1: Seq<char>)
    ensures
        sh_words(seq![' ', '\\', '\n', ' ', ' '] + s1) == sh_words(s1),
{
    let s = seq![' ', '\\', '\n', ' ', ' '] + s1;
    let d1 = s.drop_first();
    assert(d1 =~= seq!['\\', '\n', ' ', ' '] + s1);
    assert(s[0] == ' ');
    assert(sh_words(s) == sh_words(d1));
    assert(d1[0] == '\\' && d1[1] == '\n');
    let d2 = d1.skip(2);
    assert(d2 =~= seq![' ', ' '] + s1);
    assert(sh_words(d1) == sh_words(d2));
    let d3 = d2.drop_first();
    assert(d3 =~= seq![' '] + s1);
    assert(d2[0] == ' ');
    assert(sh_words(d2) == sh_words(d3));
    assert(d3[0] == ' ');
    assert(d3.drop_first() =~= s1);
    assert(sh_words(d3) == sh_words(s1));
}

proof fn lemma_value_first_char(v: Seq<char>)
    requires
        sh_safe(v),
        v.len() > 0,
    ensures
        shell_value(v).len() > 0,
        !sh_blank(shell_value(v)[0]),
        shell_value(v)[0] != '\\',
{
    reveal_strlit(" ");
    reveal_strlit("\"");
    reveal_strlit("'");
    let sv = shell_value(v);
    if contains(v, " "@) || contains(v, "\""@) {
        assert(sv =~= seq!['\''] + v + seq!['\'']);
        assert(sv[0] == '\'');
    } else {
        assert(sv[0] == v[0]);
        if v[0] == ' ' {
            assert(v.subrange(0, 1) =~= " "@);
            crate::text::lemma_contains_at(v, " "@, 0);
        }
        if v[0] == '"' {
            assert(v.subrange(0, 1) =~= "\""@);
            crate::text::lemma_contains_at(v, "\""@, 0);
        }
        assert(sh_plain(v[0]));
    }
}

proof fn lemma_value_reads_back(v: Seq<char>, t: Seq<char>)
    requires
        sh_safe(v),
        v.len() > 0,
        word_end(t),
    ensures
        sh_words(seq![' '] + shell_value(v) + t) == match sh_words(t) {
            Some(ws) => Some(seq![v] + ws),
            None => None::<Seq<Seq<char>>>,
        },
{
    let sv = shell_value(v);
    let s = seq![' '] + sv + t;
    assert(s[0] == ' ');
    assert(s.drop_first() =~= sv + t);
    assert(sh_words(s) == sh_words(sv + t));
    lemma_tok_value(v, t);
    lemma_value_first_char(v);
    assert((sv + t)[0] == sv[0]);
    lemma_words_tok(v, sv.len() as int, sv + t);
    assert((sv + t).skip(sv.len() as int) =~= t);
}

proof fn lemma_flag_reads_back(f: FlagView, t: Seq<char>)
    requires
        flag_sh_safe(f),
        word_end(t),
    ensures
        sh_words(render_flag(f) + t) == match sh_words(t) {
            Some(ws) => Some(flag_words(f) + ws),
            None => None::<Seq<Seq<char>>>,
        },
{
    reveal_strlit(" \\\n  ");
    reveal_strlit(" ");
    let name = f.0;
    let after: Seq<char> = if f.1.len() > 0 { seq![' '] + shell_value(f.1) } else { seq![] };
    let rest = after + t;
    let s1 = name + rest;
    assert(render_flag(f) + t =~= seq![' ', '\\', '\n', ' ', ' '] + s1);
    lemma_continuation(s1);
    assert(word_end(rest)) by {
        if f.1.len() > 0 {
            assert(rest[0] == ' ');
        }
    }
    lemma_tok_plain(name, rest);
    assert(s1[0] == name[0]);
    assert(sh_plain(name[0]));
    lemma_words_tok(name, name.len() as int, s1);
    assert(s1.skip(name.len() as int) =~= rest);
    if f.1.len() > 0 {
        assert(rest =~= seq![' '] + shell_value(f.1) + t);
        lemma_value_reads_back(f.1, t);
        match sh_words(t) {
            Some(ws) => {
                assert(seq![name] + (seq![f.1] + ws) =~= seq![name, f.1] + ws);
            },
            None => {},
        }
    } else {
        assert(rest =~= t);
    }
}

/// One continuation line of the rendered command.
pub open spec fn render_flag(f: FlagView) -> Seq<char> {
    " \\\n  "@ + f.0 + if f.1.len() > 0 { " "@ + shell_value(f.1) } else { seq![] }
}

pub open spec fn render_flags(fs: Seq<FlagView>) -> Seq<char>
    decreases fs.len(),
{
    if fs.len() == 0 {
        seq![]
    } else {
        render_flags(fs.drop_last()) + render_flag(fs.last())
    }
}

pub open spec fn render_env(env: Seq<Seq<char>>) -> Seq<char>
    decreases env.len(),
{
    if env.len() == 0 {
        seq![]
    } else {
        render_env(env.drop_last()) + env.last() + " "@
    }
}

/// The copy-pasteable shell form: note comment, environment, then
/// `vllm serve <model>` with one flag per continuation line.
pub open spec fn render_of(s: ServeView) -> Seq<char> {
    let note = if s.1.len() > 0 { "# "@ + s.1 + "\n"@ } else { seq![] };
    note + render_env(s.2) + "vllm serve "@ + s.3 + render_flags(s.4)
}

fn push_flag(b: &mut String, f: &Flag)
    ensures
        final(b)@ == old(b)@ + render_flag(f@),
{
    push_str(b, " \\\n  ");
    push_str(b, f.Name.as_str());
    if !f.Value.as_str().is_empty() {
        push_str(b, " ");
        if contains_exec(f.Value.as_str(), " ") || contains_exec(f.Value.as_str(), "\"") {
            push_str(b, "'");
            push_str(b, f.Value.as_str());
            push_str(b, "'");
        } else {
            push_str(b, f.Value.as_str());
        }
    }
    assert(b@ =~= old(b)@ + render_flag(f@));
}

fn copy_flag(f: &Flag) -> (r: Flag)
    ensures
        r@ == f@,
{
    Flag { Name: copy(&f.Name), Value: copy(&f.Value) }
}

pub fn copy_strings(v: &Vec<String>) -> (r: Vec<String>)
    ensures
        r.deep_view() == v.deep_view(),
{
    let mut r: Vec<String> = Vec::new();
    let mut i: usize = 0;
    while i < v.len()
        invariant
            i <= v.len(),
            r.deep_view() == v.deep_view().take(i as int),
        decreases v.len() - i,
    {
        let ghost before = r.deep_view();
        r.push(copy(&v[i]));
        assert(r.deep_view() =~= before.push(v.deep_view()[i as int]));
        i += 1;
        assert(r.deep_view() =~= v.deep_view().take(i as int));
    }
    assert(v.deep_view().take(v.len() as int) =~= v.deep_view());
    r
}

fn copy_serve(s: &ServeSpec) -> (r: ServeSpec)
    ensures
        r@ == s@,
{
    let mut flags: Vec<Flag> = Vec::new();
    let mut i: usize = 0;
    while i < s.Flags.len()
        invariant
            i <= s.Flags.len(),
            flag_views(flags@) == flag_views(s.Flags@).take(i as int),
        decreases s.Flags.len() - i,
    {
        let ghost before = flag_views(flags@);
        flags.push(copy_flag(&s.Flags[i]));
        assert(flag_views(flags@) =~= before.push(s.Flags@[i as int]@));
        i += 1;
        assert(flag_views(flags@) =~= flag_views(s.Flags@).take(i as int));
    }
    assert(flag_views(s.Flags@).take(s.Flags.len() as int) =~= flag_views(s.Flags@));
    ServeSpec {
        Profile: copy(&s.Profile),
        Note: copy(&s.Note),
        Env: copy_strings(&s.Env),
        Model: copy(&s.Model),
        Flags: flags,
    }
}

pub open spec fn empty_serve() -> ServeView {
    (seq![], seq![], seq![], seq![], seq![])
}

fn new_serve() -> (r: ServeSpec)
    ensures
        r@ == empty_serve(),
{
    let r = ServeSpec {
        Profile: String::new(),
        Note: String::new(),
        Env: Vec::new(),
        Model: String::new(),
        Flags: Vec::new(),
    };
    assert(r.Env.deep_view() =~= Seq::<Seq<char>>::empty());
    assert(flag_views(r.Flags@) =~= Seq::<FlagView>::empty());
    r
}

impl ServeSpec {
    /// The exec-style container command for platform drivers:
    /// ["vllm", "serve", model, "--flag", "value", ...], values verbatim.
    pub fn Argv(&self) -> (r: Vec<String>)
        ensures
            r.deep_view() == argv_of(self@),
    {
        let mut argv: Vec<String> = Vec::new();
        argv.push(crate::text::owned("vllm"));
        assert(argv.deep_view() =~= seq!["vllm"@]);
        argv.push(crate::text::owned("serve"));
        assert(argv.deep_view() =~= seq!["vllm"@, "serve"@]);
        argv.push(copy(&self.Model));
        let ghost fs = flag_views(self.Flags@);
        assert(argv.deep_view() =~= seq!["vllm"@, "serve"@, self.Model@] + flags_words(fs.take(0)));
        let mut i: usize = 0;
        while i < self.Flags.len()
            invariant
                i <= self.Flags.len(),
                fs == flag_views(self.Flags@),
                argv.deep_view() == seq!["vllm"@, "serve"@, self.Model@] + flags_words(fs.take(i as int)),
            decreases self.Flags.len() - i,
        {
            let f = &self.Flags[i];
            let ghost before = argv.deep_view();
            argv.push(copy(&f.Name));
            assert(argv.deep_view() =~= before.push(f.Name@));
            if !f.Value.as_str().is_empty() {
                let ghost mid = argv.deep_view();
                argv.push(copy(&f.Value));
                assert(argv.deep_view() =~= mid.push(f.Value@));
            }
            proof {
                assert(fs.take(i + 1).drop_last() =~= fs.take(i as int));
                assert(fs.take(i + 1).last() == f@);
            }
            i += 1;
            assert(argv.deep_view() =~= seq!["vllm"@, "serve"@, self.Model@] + flags_words(fs.take(i as int)));
        }
        assert(fs.take(self.Flags.len() as int) =~= fs);
        argv
    }

    /// The value of one flag: (value, true) for the first flag of that
    /// name, ("", false) when absent; a switch has value "".
    pub fn FlagValue(&self, name: &str) -> (r: (String, bool))
        ensures
            r.1 == (flag_index(self@.4, name@) >= 0),
            r.1 ==> r.0@ == self@.4[flag_index(self@.4, name@)].1,
            !r.1 ==> r.0@.len() == 0,
    {
        let ghost fs = self@.4;
        let mut i: usize = 0;
        while i < self.Flags.len()
            invariant
                i <= self.Flags.len(),
                fs == flag_views(self.Flags@),
                forall|j: int| 0 <= j < i ==> fs[j].0 != name@,
            decreases self.Flags.len() - i,
        {
            if str_eq(self.Flags[i].Name.as_str(), name) {
                proof {
                    lemma_flag_index(fs, name@, i as int);
                }
                return (copy(&self.Flags[i].Value), true);
            }
            i += 1;
        }
        proof {
            lemma_flag_index(fs, name@, -1);
        }
        (String::new(), false)
    }

    /// The human copy-pasteable shell form.
    pub fn Render(&self) -> (r: String)
        ensures
            r@ == render_of(self@),
    {
        let mut b = String::new();
        if !self.Note.as_str().is_empty() {
            push_str(&mut b, "# ");
            push_str(&mut b, self.Note.as_str());
            push_str(&mut b, "\n");
        }
        let ghost note = b@;
        let ghost env = self.Env.deep_view();
        let mut i: usize = 0;
        assert(env.take(0) =~= Seq::<Seq<char>>::empty());
        while i < self.Env.len()
            invariant
                i <= self.Env.len(),
                env == self.Env.deep_view(),
                b@ == note + render_env(env.take(i as int)),
            decreases self.Env.len() - i,
        {
            push_str(&mut b, self.Env[i].as_str());
            push_str(&mut b, " ");
            proof {
                assert(env.take(i + 1).drop_last() =~= env.take(i as int));
            }
            i += 1;
            assert(b@ =~= note + render_env(env.take(i as int)));
        }
        assert(env.take(self.Env.len() as int) =~= env);
        push_str(&mut b, "vllm serve ");
        push_str(&mut b, self.Model.as_str());
        let ghost head = b@;
        let ghost fs = flag_views(self.Flags@);
        let mut k: usize = 0;
        assert(fs.take(0) =~= Seq::<FlagView>::empty());
        while k < self.Flags.len()
            invariant
                k <= self.Flags.len(),
                fs == flag_views(self.Flags@),
                b@ == head + render_flags(fs.take(k as int)),
            decreases self.Flags.len() - k,
        {
            let f = &self.Flags[k];
            push_flag(&mut b, f);
            proof {
                assert(fs.take(k + 1).drop_last() =~= fs.take(k as int));
                assert(fs.take(k + 1).last() == f@);
            }
            k += 1;
            assert(b@ =~= head + render_flags(fs.take(k as int)));
        }
        assert(fs.take(self.Flags.len() as int) =~= fs);
        b
    }
}

proof fn lemma_render_flags_front(fs: Seq<FlagView>)
    requires
        fs.len() > 0,
    ensures
        render_flags(fs) == render_flag(fs[0]) + render_flags(fs.drop_first()),
        flags_words(fs) == flag_words(fs[0]) + flags_words(fs.drop_first()),
{
    lemma_render_flags_front_r(fs);
    lemma_flags_words_front(fs);
}

proof fn lemma_render_flags_front_r(fs: Seq<FlagView>)
    requires
        fs.len() > 0,
    ensures
        render_flags(fs) == render_flag(fs[0]) + render_flags(fs.drop_first()),
    decreases fs.len(),
{
    let r0 = render_flag(fs[0]);
    if fs.len() == 1 {
        assert(fs.drop_last().len() == 0);
        assert(fs.drop_first().len() == 0);
        assert(render_flags(fs.drop_last()) == Seq::<char>::empty());
        assert(render_flags(fs.drop_first()) == Seq::<char>::empty());
        assert(fs.last() == fs[0]);
        assert(render_flags(fs) =~= r0 + Seq::<char>::empty());
    } else {
        let p = fs.drop_last();
        let q = fs.drop_first();
        lemma_render_flags_front_r(p);
        assert(p[0] == fs[0]);
        assert(p.drop_first() =~= q.drop_last());
        assert(q.last() == fs.last());
        assert(render_flags(q) == render_flags(q.drop_last()) + render_flag(q.last()));
        assert(render_flags(fs) == render_flags(p) + render_flag(fs.last()));
        assert(render_flags(fs) =~= r0 + render_flags(q));
    }
}

proof fn lemma_flags_words_front(fs: Seq<FlagView>)
    requires
        fs.len() > 0,
    ensures
        flags_words(fs) == flag_words(fs[0]) + flags_words(fs.drop_first()),
    decreases fs.len(),
{
    let w0 = flag_words(fs[0]);
    if fs.len() == 1 {
        assert(fs.drop_last().len() == 0);
        assert(fs.drop_first().len() == 0);
        assert(flags_words(fs.drop_last()) == Seq::<Seq<char>>::empty());
        assert(flags_words(fs.drop_first()) == Seq::<Seq<char>>::empty());
        assert(fs.last() == fs[0]);
        assert(flags_words(fs) =~= w0 + Seq::<Seq<char>>::empty());
    } else {
        let p = fs.drop_last();
        let q = fs.drop_first();
        lemma_flags_words_front(p);
        assert(p[0] == fs[0]);
        assert(p.drop_first() =~= q.drop_last());
        assert(q.last() == fs.last());
        assert(flags_words(q) == flags_words(q.drop_last()) + flag_words(q.last()));
        assert(flags_words(fs) == flags_words(p) + flag_words(fs.last()));
        assert(flags_words(fs) =~= w0 + flags_words(q));
    }
}

proof fn lemma_render_env_front(env: Seq<Seq<char>>)
    requires
        env.len() > 0,
    ensures
        render_env(env) == env[0] + " "@ + render_env(env.drop_first()),
    decreases env.len(),
{
    if env.len() == 1 {
        assert(env.drop_last() =~= Seq::<Seq<char>>::empty());
        assert(env.drop_first() =~= Seq::<Seq<char>>::empty());
        assert(render_env(env) =~= env[0] + " "@ + render_env(env.drop_first()));
    } else {
        let p = env.drop_last();
        lemma_render_env_front(p);
        assert(p[0] == env[0]);
        assert(p.drop_first() =~= env.drop_first().drop_last());
        assert(env.drop_first().last() == env.last());
        assert(render_env(env) =~= env[0] + " "@ + render_env(env.drop_first()));
    }
}

proof fn lemma_flags_read_back(fs: Seq<FlagView>)
    requires
        forall|i: int| 0 <= i < fs.len() ==> flag_sh_safe(#[trigger] fs[i]),
    ensures
        sh_words(render_flags(fs)) == Some(flags_words(fs)),
        render_flags(fs).len() == 0 || render_flags(fs)[0] == ' ',
    decreases fs.len(),
{
    if fs.len() == 0 {
        assert(render_flags(fs) =~= Seq::<char>::empty());
        assert(flags_words(fs) =~= Seq::<Seq<char>>::empty());
    } else {
        lemma_render_flags_front(fs);
        let rest = fs.drop_first();
        assert forall|i: int| 0 <= i < rest.len() implies flag_sh_safe(#[trigger] rest[i]) by {
            assert(rest[i] == fs[i + 1]);
        }
        lemma_flags_read_back(rest);
        assert(flag_sh_safe(fs[0]));
        lemma_flag_reads_back(fs[0], render_flags(rest));
        reveal_strlit(" \\\n  ");
        assert(render_flag(fs[0])[0] == ' ');
    }
}

/// A plain word: non-empty, of characters the shell reads literally.
pub open spec fn sh_plain_word(w: Seq<char>) -> bool {
    w.len() > 0 && forall|i: int| 0 <= i < w.len() ==> sh_plain(#[trigger] w[i])
}

proof fn lemma_plain_then(w: Seq<char>, t: Seq<char>)
    requires
        sh_plain_word(w),
        word_end(t),
    ensures
        sh_words(w + t) == match sh_words(t) {
            Some(ws) => Some(seq![w] + ws),
            None => None::<Seq<Seq<char>>>,
        },
{
    lemma_tok_plain(w, t);
    assert((w + t)[0] == w[0]);
    assert(sh_plain(w[0]));
    lemma_words_tok(w, w.len() as int, w + t);
    assert((w + t).skip(w.len() as int) =~= t);
}

proof fn lemma_env_read_back(env: Seq<Seq<char>>, t: Seq<char>)
    requires
        forall|i: int| 0 <= i < env.len() ==> sh_plain_word(#[trigger] env[i]),
        word_end(t) || sh_plain_word(t.take(1)),
    ensures
        sh_words(render_env(env) + t) == match sh_words(t) {
            Some(ws) => Some(env + ws),
            None => None::<Seq<Seq<char>>>,
        },
    decreases env.len(),
{
    reveal_strlit(" ");
    if env.len() == 0 {
        assert(render_env(env) + t =~= t);
        match sh_words(t) {
            Some(ws) => {
                assert(env + ws =~= ws);
            },
            None => {},
        }
    } else {
        lemma_render_env_front(env);
        let rest = env.drop_first();
        assert forall|i: int| 0 <= i < rest.len() implies sh_plain_word(#[trigger] rest[i]) by {
            assert(rest[i] == env[i + 1]);
        }
        lemma_env_read_back(rest, t);
        let tail = render_env(rest) + t;
        assert(render_env(env) + t =~= env[0] + (seq![' '] + tail));
        assert(sh_plain_word(env[0]));
        lemma_plain_then(env[0], seq![' '] + tail);
        assert((seq![' '] + tail)[0] == ' ');
        assert((seq![' '] + tail).drop_first() =~= tail);
        assert(sh_words(seq![' '] + tail) == sh_words(tail));
        match sh_words(t) {
            Some(ws) => {
                assert(seq![env[0]] + (rest + ws) =~= env + ws);
            },
            None => {},
        }
    }
}

/// `Render` and `Argv` agree: for a serve spec without a note, whose
/// environment entries, model and flag names are words the shell reads
/// literally and whose flag values are literal apart from blanks and
/// double quotes, a POSIX shell splits the rendered command into exactly
/// the environment assignments followed by the argv words, each flag
/// value coming back unchanged.
pub proof fn lemma_render_reads_back_as_argv(s: ServeView)
    requires
        s.1.len() == 0,
        forall|i: int| 0 <= i < s.2.len() ==> sh_plain_word(#[trigger] s.2[i]),
        sh_plain_word(s.3),
        forall|i: int| 0 <= i < s.4.len() ==> flag_sh_safe(#[trigger] s.4[i]),
    ensures
        sh_words(render_of(s)) == Some(s.2 + argv_of(s)),
{
    reveal_strlit("vllm serve ");
    reveal_strlit("vllm");
    reveal_strlit("serve");
    lemma_flags_read_back(s.4);
    let fl = render_flags(s.4);
    let ml = s.3 + fl;
    lemma_plain_then(s.3, fl);
    let vllm = "vllm"@;
    let serve = "serve"@;
    assert(sh_plain_word(vllm));
    assert(sh_plain_word(serve));
    let l2 = serve + (seq![' '] + ml);
    assert((seq![' '] + ml).drop_first() =~= ml);
    assert(sh_words(seq![' '] + ml) == sh_words(ml));
    lemma_plain_then(serve, seq![' '] + ml);
    let l1 = vllm + (seq![' '] + l2);
    assert((seq![' '] + l2).drop_first() =~= l2);
    assert(sh_words(seq![' '] + l2) == sh_words(l2));
    lemma_plain_then(vllm, seq![' '] + l2);
    assert(l1 =~= "vllm serve "@ + s.3 + fl);
    assert(l1.take(1) =~= seq!['v']);
    lemma_env_read_back(s.2, l1);
    let note: Seq<char> = if s.1.len() > 0 { "# "@ + s.1 + "\n"@ } else { seq![] };
    assert(note =~= Seq::<char>::empty());
    assert(render_of(s) =~= render_env(s.2) + l1);
    assert(s.2 + argv_of(s) =~= s.2 + (seq![vllm] + (seq![serve] + (seq![s.3] + flags_words(s.4)))));
}

/// Index of the first serve spec with the default ("") profile, or -1.
pub open spec fn default_index(ss: Seq<ServeSpec>) -> int
    decreases ss.len(),
{
    if ss.len() == 0 {
        -1
    } else if ss[0].Profile@.len() == 0 {
        0
    } else {
        let k = default_index(ss.drop_first());
        if k < 0 { -1 } else { k + 1 }
    }
}

proof fn lemma_default_index(ss: Seq<ServeSpec>, k: int)
    requires
        -1 <= k < ss.len(),
        k >= 0 ==> ss[k].Profile@.len() == 0,
        forall|j: int| 0 <= j < ss.len() && (k < 0 || j < k) ==> ss[j].Profile@.len() != 0,
    ensures
        default_index(ss) == k,
    decreases ss.len(),
{
    if ss.len() > 0 && k != 0 {
        assert forall|j: int|
            0 <= j < ss.drop_first().len() && (k - 1 < 0 || j < k - 1) implies ss.drop_first()[j].Profile@.len() != 0 by {
            assert(ss.drop_first()[j] == ss[j + 1]);
        }
        if k > 0 {
            assert(ss.drop_first()[k - 1] == ss[k]);
            lemma_default_index(ss.drop_first(), k - 1);
        } else {
            lemma_default_index(ss.drop_first(), -1);
        }
    }
}

/// The variant's default-profile serve spec, when it has one.
pub fn defaultSpec(v: &Variant) -> (r: Option<&ServeSpec>)
    ensures
        default_index(v.Serve@) < 0 ==> r is None,
        default_index(v.Serve@) >= 0 ==> r == Some(&v.Serve@[default_index(v.Serve@)]),
{
    let mut i: usize = 0;
    while i < v.Serve.len()
        invariant
            i <= v.Serve.len(),
            forall|j: int| 0 <= j < i ==> v.Serve@[j].Profile@.len() != 0,
        decreases v.Serve.len() - i,
    {
        if v.Serve[i].Profile.as_str().is_empty() {
            proof {
                lemma_default_index(v.Serve@, i as int);
            }
            return Some(&v.Serve[i]);
        }
        i += 1;
    }
    proof {
        lemma_default_index(v.Serve@, -1);
    }
    None
}

/// A variant's default-profile serve spec, for callers outside the
/// catalog (the vLLM launch): (spec, true), or (empty spec, false).
pub fn DefaultServe(v: &Variant) -> (r: (ServeSpec, bool))
    ensures
        r.1 == (default_index(v.Serve@) >= 0),
        r.1 ==> r.0@ == v.Serve@[default_index(v.Serve@)]@,
        !r.1 ==> r.0@ == empty_serve(),
{
    match defaultSpec(v) {
        Some(s) => (copy_serve(s), true),
        None => (new_serve(), false),
    }
}

/// The integer a variant's default recipe pins for `flag`, if the
/// recipe exists, sets the flag, and its value parses.
pub open spec fn recipe_int(v: Variant, flag: Seq<char>) -> Option<int> {
    let d = default_index(v.Serve@);
    if d < 0 {
        None
    } else {
        let fs = v.Serve@[d]@.4;
        let k = flag_index(fs, flag);
        if k < 0 {
            None
        } else {
            parse_int(fs[k].1)
        }
    }
}

fn recipe_int_exec(v: &Variant, flag: &str) -> (r: (i64, bool))
    ensures
        r.1 == recipe_int(*v, flag@) is Some,
        r.1 ==> r.0 == recipe_int(*v, flag@).unwrap(),
        !r.1 ==> r.0 == 0,
{
    let s = match defaultSpec(v) {
        Some(s) => s,
        None => {
            return (0, false);
        },
    };
    let (val, present) = s.FlagValue(flag);
    if !present {
        return (0, false);
    }
    match parse_int_exec(val.as_str()) {
        Some(n) => (n, true),
        None => (0, false),
    }
}

/// The --max-num-seqs the default recipe admits: (n, true), or (0,
/// false) when no recipe pins it.
pub fn RecipeMaxSeqs(v: &Variant) -> (r: (i64, bool))
    ensures
        r.1 == recipe_int(*v, "--max-num-seqs"@) is Some,
        r.1 ==> r.0 == recipe_int(*v, "--max-num-seqs"@).unwrap(),
        !r.1 ==> r.0 == 0,
{
    recipe_int_exec(v, "--max-num-seqs")
}

/// The --max-model-len the default recipe serves: (n, true), or (0,
/// false) when no recipe pins it.
pub fn RecipeMaxLen(v: &Variant) -> (r: (i64, bool))
    ensures
        r.1 == recipe_int(*v, "--max-model-len"@) is Some,
        r.1 ==> r.0 == recipe_int(*v, "--max-model-len"@).unwrap(),
        !r.1 ==> r.0 == 0,
{
    recipe_int_exec(v, "--max-model-len")
}

/// Index of the first hardware row keyed `key`, or -1.
pub open spec fn key_index(hs: Seq<Hardware>, key: Seq<char>) -> int
    decreases hs.len(),
{
    if hs.len() == 0 {
        -1
    } else if hs[0].Key@ == key {
        0
    } else {
        let k = key_index(hs.drop_first(), key);
        if k < 0 { -1 } else { k + 1 }
    }
}

proof fn lemma_key_index(hs: Seq<Hardware>, key: Seq<char>, k: int)
    requires
        -1 <= k < hs.len(),
        k >= 0 ==> hs[k].Key@ == key,
        forall|j: int| 0 <= j < hs.len() && (k < 0 || j < k) ==> hs[j].Key@ != key,
    ensures
        key_index(hs, key) == k,
    decreases hs.len(),
{
    if hs.len() > 0 && k != 0 {
        assert forall|j: int|
            0 <= j < hs.drop_first().len() && (k - 1 < 0 || j < k - 1) implies hs.drop_first()[j].Key@ != key by {
            assert(hs.drop_first()[j] == hs[j + 1]);
        }
        if k > 0 {
            assert(hs.drop_first()[k - 1] == hs[k]);
            lemma_key_index(hs.drop_first(), key, k - 1);
        } else {
            lemma_key_index(hs.drop_first(), key, -1);
        }
    }
}

/// The hardware row a GPU class resolves to: the first row keyed by the
/// class; for "blackwell" without such a row, the first "cuda" row;
/// nothing falls back to or from "rocm".
pub open spec fn pick_index(hs: Seq<Hardware>, class: Seq<char>) -> int {
    let k = key_index(hs, class);
    if k >= 0 {
        k
    } else if class == "blackwell"@ {
        key_index(hs, "cuda"@)
    } else {
        -1
    }
}

fn find_key(hs: &Vec<Hardware>, key: &str) -> (r: Option<usize>)
    ensures
        key_index(hs@, key@) < 0 ==> r is None,
        key_index(hs@, key@) >= 0 ==> r == Some(key_index(hs@, key@) as usize),
        r is Some ==> r.unwrap() < hs.len() && r.unwrap() as int == key_index(hs@, key@),
{
    let mut i: usize = 0;
    while i < hs.len()
        invariant
            i <= hs.len(),
            forall|j: int| 0 <= j < i ==> hs@[j].Key@ != key@,
        decreases hs.len() - i,
    {
        if str_eq(hs[i].Key.as_str(), key) {
            proof {
                lemma_key_index(hs@, key@, i as int);
            }
            return Some(i);
        }
        i += 1;
    }
    proof {
        lemma_key_index(hs@, key@, -1);
    }
    None
}

fn copy_hardware(h: &Hardware) -> (r: Hardware)
    ensures
        r@ == h@,
{
    Hardware {
        Target: copy(&h.Target),
        Key: copy(&h.Key),
        Profile: copy(&h.Profile),
        Image: copy(&h.Image),
        Floor: copy(&h.Floor),
        FloorRef: copy(&h.FloorRef),
        Note: copy(&h.Note),
    }
}

pub open spec fn empty_hardware() -> HardwareView {
    (seq![], seq![], seq![], seq![], seq![], seq![], seq![])
}

/// Resolves the hardware row for a GPU class: (row, true), or (empty
/// row, false).
pub fn PickHardware(v: &Variant, class: &str) -> (r: (Hardware, bool))
    ensures
        r.1 == (pick_index(v.Hardware@, class@) >= 0),
        r.1 ==> r.0@ == v.Hardware@[pick_index(v.Hardware@, class@)]@,
        !r.1 ==> r.0@ == empty_hardware(),
{
    let mut found = find_key(&v.Hardware, class);
    if found.is_none() && str_eq(class, "blackwell") {
        found = find_key(&v.Hardware, "cuda");
    }
    match found {
        Some(i) => (copy_hardware(&v.Hardware[i]), true),
        None => (
            Hardware {
                Target: String::new(),
                Key: String::new(),
                Profile: String::new(),
                Image: String::new(),
                Floor: String::new(),
                FloorRef: String::new(),
                Note: String::new(),
            },
            false,
        ),
    }
}


proof fn lemma_key_index_bounds(hs: Seq<Hardware>, key: Seq<char>)
    ensures
        -1 <= key_index(hs, key) < hs.len(),
        key_index(hs, key) >= 0 ==> hs[key_index(hs, key)].Key@ == key,
        key_index(hs, key) < 0 ==> forall|j: int| 0 <= j < hs.len() ==> hs[j].Key@ != key,
    decreases hs.len(),
{
    if hs.len() > 0 && hs[0].Key@ != key {
        lemma_key_index_bounds(hs.drop_first(), key);
        assert forall|j: int| 0 <= j < hs.len() && key_index(hs, key) < 0 implies hs[j].Key@ != key by {
            if j > 0 {
                assert(hs[j] == hs.drop_first()[j - 1]);
            }
        }
    }
}

/// The resolver only ever lands on a row of the asked class, except
/// that a Blackwell GPU runs a CUDA row when the variant has no
/// Blackwell row of its own; nothing falls back to or from ROCm, and a
/// variant with a row of the class always gets that class's row.
pub proof fn lemma_pick_class(hs: Seq<Hardware>, class: Seq<char>)
    ensures
        pick_index(hs, class) >= 0 ==> 0 <= pick_index(hs, class) < hs.len(),
        pick_index(hs, class) >= 0 ==> hs[pick_index(hs, class)].Key@ == class || (class == "blackwell"@
            && hs[pick_index(hs, class)].Key@ == "cuda"@),
        (exists|j: int| 0 <= j < hs.len() && hs[j].Key@ == class) ==> hs[pick_index(hs, class)].Key@ == class,
        class == "rocm"@ && pick_index(hs, class) >= 0 ==> hs[pick_index(hs, class)].Key@ == "rocm"@,
{
    lemma_key_index_bounds(hs, class);
    lemma_key_index_bounds(hs, "cuda"@);
    reveal_strlit("rocm");
    reveal_strlit("blackwell");
    assert("rocm"@[0] != "blackwell"@[0]);
}

} // verus!
