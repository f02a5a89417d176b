//! Collected runs as revisions: run names and references, the serve
//! argv a run recorded, and where each flag override came from.
use vstd::prelude::*;
use crate::text::{
    decimal, fields, fields_exec, has_prefix, has_prefix_exec, int_to_string, join, join_exec,
    owned, parse_int, parse_int_exec, push_str, split_char, split_char_exec, str_eq, trim_prefix,
    trim_prefix_exec,
};

verus! {

/// The number of a run directory "runN", or -1 when the name is not of
/// that form.
pub open spec fn run_number(name: Seq<char>) -> int {
    if !has_prefix(name, "run"@) {
        -1
    } else {
        match parse_int(trim_prefix(name, "run"@)) {
            Some(n) => n,
            None => -1,
        }
    }
}

pub fn runNumber(name: &str) -> (r: i64)
    ensures
        r == run_number(name@),
{
    if !has_prefix_exec(name, "run") {
        return -1;
    }
    let digits = trim_prefix_exec(name, "run");
    match parse_int_exec(digits.as_str()) {
        Some(n) => n,
        None => -1,
    }
}

/// The run numbers among directory names, in order.
pub open spec fn run_nums(dirs: Seq<Seq<char>>) -> Seq<i64>
    decreases dirs.len(),
{
    if dirs.len() == 0 {
        seq![]
    } else {
        run_nums(dirs.drop_last()) + if run_number(dirs.last()) >= 0 {
            seq![run_number(dirs.last()) as i64]
        } else {
            seq![]
        }
    }
}

pub open spec fn ascending(s: Seq<i64>) -> bool {
    forall|i: int, j: int| 0 <= i <= j < s.len() ==> s[i] <= s[j]
}

/// The numbers of `v` in ascending order.
pub fn sort_ascending(v: Vec<i64>) -> (r: Vec<i64>)
    ensures
        ascending(r@),
        r@.to_multiset() == v@.to_multiset(),
        r@.len() == v@.len(),
{
    let mut r: Vec<i64> = Vec::new();
    let mut i: usize = 0;
    assert(v@.take(0) =~= Seq::<i64>::empty());
    while i < v.len()
        invariant
            i <= v.len(),
            ascending(r@),
            r@.to_multiset() == v@.take(i as int).to_multiset(),
            r@.len() == i,
        decreases v.len() - i,
    {
        let x = v[i];
        let mut p: usize = r.len();
        while p > 0 && r[p - 1] > x
            invariant
                p <= r.len(),
                ascending(r@),
                forall|k: int| p <= k < r.len() ==> r@[k] > x,
            decreases p,
        {
            p -= 1;
        }
        let ghost before = r@;
        proof {
            assert forall|k: int| 0 <= k < p implies before[k] <= x by {
                if p > 0 {
                    assert(before[k] <= before[p - 1]);
                }
            }
        }
        r.insert(p, x);
        proof {
            assert forall|a: int, b: int| 0 <= a <= b < r@.len() implies r@[a] <= r@[b] by {
                if a < p && b < p {
                    assert(r@[a] == before[a] && r@[b] == before[b]);
                } else if a < p && b == p {
                    assert(r@[a] == before[a]);
                } else if a < p && b > p {
                    assert(r@[a] == before[a] && r@[b] == before[b - 1]);
                } else if a == p && b > p {
                    assert(r@[b] == before[b - 1]);
                } else if a > p {
                    assert(r@[a] == before[a - 1] && r@[b] == before[b - 1]);
                }
            }
            vstd::seq_lib::to_multiset_insert(before, p as int, x);
            assert(v@.take(i + 1) =~= v@.take(i as int).push(x));
            vstd::seq_lib::to_multiset_build(v@.take(i as int), x);
        }
        i += 1;
    }
    assert(v@.take(v.len() as int) =~= v@);
    r
}

/// The run directory names in run order: the runN names among the
/// directories, by ascending number, written back as "runN".
pub open spec fn run_names_of(dirs: Seq<Seq<char>>, names: Seq<Seq<char>>) -> bool {
    exists|s: Seq<i64>|
        #![trigger s.to_multiset()]
        ascending(s) && s.to_multiset() == run_nums(dirs).to_multiset() && names == s.map_values(
            |n: i64| "run"@ + decimal(n as int),
        )
}

/// The collected runs under an output directory, given the names of its
/// subdirectories, in run order.
pub fn runNames(dirs: &Vec<String>) -> (r: Vec<String>)
    ensures
        run_names_of(dirs.deep_view(), r.deep_view()),
{
    let mut nums: Vec<i64> = Vec::new();
    let mut i: usize = 0;
    assert(dirs.deep_view().take(0) =~= Seq::<Seq<char>>::empty());
    while i < dirs.len()
        invariant
            i <= dirs.len(),
            nums@ == run_nums(dirs.deep_view().take(i as int)),
        decreases dirs.len() - i,
    {
        let n = runNumber(dirs[i].as_str());
        proof {
            let t = dirs.deep_view().take(i + 1);
            assert(t.drop_last() =~= dirs.deep_view().take(i as int));
            assert(t.last() == dirs[i as int]@);
        }
        if n >= 0 {
            nums.push(n);
        }
        i += 1;
        assert(nums@ =~= run_nums(dirs.deep_view().take(i as int)));
    }
    assert(dirs.deep_view().take(dirs.len() as int) =~= dirs.deep_view());
    let sorted = sort_ascending(nums);
    let mut names: Vec<String> = Vec::new();
    let mut k: usize = 0;
    while k < sorted.len()
        invariant
            k <= sorted.len(),
            names.deep_view() == sorted@.take(k as int).map_values(|n: i64| "run"@ + decimal(n as int)),
        decreases sorted.len() - k,
    {
        let mut s = owned("run");
        let d = int_to_string(sorted[k]);
        push_str(&mut s, d.as_str());
        let ghost before = names.deep_view();
        let ghost sv = s@;
        names.push(s);
        assert(names.deep_view() =~= before.push(sv));
        k += 1;
        assert(sorted@.take(k as int).map_values(|n: i64| "run"@ + decimal(n as int)) =~= sorted@.take(
            k - 1,
        ).map_values(|n: i64| "run"@ + decimal(n as int)).push("run"@ + decimal(sorted@[k - 1] as int)));
        assert(names.deep_view() =~= sorted@.take(k as int).map_values(|n: i64| "run"@ + decimal(n as int)));
    }
    assert(sorted@.take(sorted.len() as int) =~= sorted@);
    assert(names.deep_view() =~= sorted@.map_values(|n: i64| "run"@ + decimal(n as int)));
    names
}

/// Why a run reference does not name a run.
pub enum RunRefError {
    /// No run was collected yet.
    NoRuns,
    /// "-N" with N not a positive integer.
    BadReference,
    /// "-N" reaching back past the first run; how many runs exist.
    PastFirst(usize),
    /// Neither runN, N, latest, -N nor a path.
    BadForm,
    /// The reference names a run whose directory does not exist under
    /// the output root.
    NotCollected,
}

/// The run a reference names among the runs in order: "latest", "last"
/// or "" for the newest, "-N" for N back from it, a bare number N for
/// "runN", anything of the form "runN" as itself. (A path is resolved
/// before this, by the caller.)
pub open spec fn run_reference(names: Seq<Seq<char>>, r: Seq<char>) -> Result<Seq<char>, RunRefError> {
    if names.len() == 0 {
        Err(RunRefError::NoRuns)
    } else if r == "latest"@ || r == "last"@ || r.len() == 0 {
        Ok(names.last())
    } else if has_prefix(r, "-"@) {
        match parse_int(trim_prefix(r, "-"@)) {
            Some(back) => if back < 1 {
                Err(RunRefError::BadReference)
            } else if names.len() - 1 - back < 0 {
                Err(RunRefError::PastFirst(names.len() as usize))
            } else {
                Ok(names[names.len() - 1 - back])
            },
            None => Err(RunRefError::BadReference),
        }
    } else if run_number(r) < 0 {
        match parse_int(r) {
            Some(n) => Ok("run"@ + decimal(n)),
            None => Err(RunRefError::BadForm),
        }
    } else {
        Ok(r)
    }
}

/// The run a reference names, given the runs in order (`names`) and the
/// directories under the output root (`dirs`): the run its form picks,
/// provided a directory of exactly that name exists.
pub open spec fn resolve_run(names: Seq<Seq<char>>, dirs: Seq<Seq<char>>, r: Seq<char>) -> Result<Seq<char>, RunRefError> {
    match run_reference(names, r) {
        Ok(n) => if dirs.contains(n) {
            Ok(n)
        } else {
            Err(RunRefError::NotCollected)
        },
        Err(e) => Err(e),
    }
}

fn collected(names: &Vec<String>, n: &str) -> (r: bool)
    ensures
        r == names.deep_view().contains(n@),
{
    let mut i: usize = 0;
    while i < names.len()
        invariant
            i <= names.len(),
            forall|j: int| 0 <= j < i ==> names.deep_view()[j] != n@,
        decreases names.len() - i,
    {
        if str_eq(names[i].as_str(), n) {
            assert(names.deep_view()[i as int] == n@);
            return true;
        }
        assert(names.deep_view()[i as int] == names[i as int]@);
        i += 1;
    }
    false
}

/// The runs in order are determined by the directories: two orderings of
/// the same directories' run numbers are the same list.
pub proof fn lemma_run_names_unique(dirs: Seq<Seq<char>>, a: Seq<Seq<char>>, b: Seq<Seq<char>>)
    requires
        run_names_of(dirs, a),
        run_names_of(dirs, b),
    ensures
        a == b,
{
    let sa = choose|s: Seq<i64>|
        #![trigger s.to_multiset()]
        ascending(s) && s.to_multiset() == run_nums(dirs).to_multiset() && a == s.map_values(
            |n: i64| "run"@ + decimal(n as int),
        );
    let sb = choose|s: Seq<i64>|
        #![trigger s.to_multiset()]
        ascending(s) && s.to_multiset() == run_nums(dirs).to_multiset() && b == s.map_values(
            |n: i64| "run"@ + decimal(n as int),
        );
    let leq = |x: i64, y: i64| x <= y;
    assert(vstd::relations::total_ordering(leq)) by {
        assert(vstd::relations::reflexive(leq));
        assert(vstd::relations::antisymmetric(leq));
        assert(vstd::relations::transitive(leq));
        assert(vstd::relations::strongly_connected(leq));
    }
    assert(vstd::relations::sorted_by(sa, leq));
    assert(vstd::relations::sorted_by(sb, leq));
    vstd::seq_lib::lemma_sorted_unique(sa, sb, leq);
    assert(sa == sb);
}

/// A run's name reads back as its number: "runN" for any N from zero up
/// is run N.
pub proof fn lemma_run_name_number(n: int)
    requires
        0 <= n <= i64::MAX,
    ensures
        run_number("run"@ + decimal(n)) == n,
{
    reveal_strlit("run");
    let s = "run"@ + decimal(n);
    assert(s.subrange(0, 3) =~= "run"@);
    assert(s.subrange(3, s.len() as int) =~= decimal(n));
    crate::text::lemma_parse_decimal(n);
}

/// A bare run number and the run's name refer to the same run: when a
/// directory "runN" exists, "N" and "runN" both resolve to it.
pub proof fn lemma_bare_number_reference(names: Seq<Seq<char>>, dirs: Seq<Seq<char>>, n: int)
    requires
        names.len() > 0,
        dirs.contains("run"@ + decimal(n)),
        0 <= n <= i64::MAX,
    ensures
        resolve_run(names, dirs, decimal(n)) == Ok::<Seq<char>, RunRefError>("run"@ + decimal(n)),
        resolve_run(names, dirs, "run"@ + decimal(n)) == Ok::<Seq<char>, RunRefError>("run"@ + decimal(n)),
{
    reveal_strlit("run");
    reveal_strlit("latest");
    reveal_strlit("last");
    reveal_strlit("-");
    crate::text::lemma_parse_decimal(n);
    lemma_run_name_number(n);
    let d = decimal(n);
    let named = "run"@ + d;
    assert(d.len() > 0 && d[0] != 'r' && d[0] != '-' && d[0] != 'l') by {
        crate::text::lemma_nat_decimal(n as nat);
        assert(crate::text::is_digit(d[0]));
    }
    assert(!has_prefix(d, "run"@)) by {
        if has_prefix(d, "run"@) {
            assert(d.subrange(0, 3)[0] == d[0]);
        }
    }
    assert(!has_prefix(d, "-"@)) by {
        if has_prefix(d, "-"@) {
            assert(d.subrange(0, 1)[0] == d[0]);
        }
    }
    assert(d != "latest"@ && d != "last"@) by {
        if d == "latest"@ || d == "last"@ {
            assert(d[0] == 'l');
        }
    }
    assert(named[0] == 'r');
    assert(!has_prefix(named, "-"@)) by {
        if has_prefix(named, "-"@) {
            assert(named.subrange(0, 1)[0] == named[0]);
        }
    }
    assert(named != "latest"@ && named != "last"@) by {
        if named == "latest"@ || named == "last"@ {
            assert(named[0] == 'l');
        }
    }
}

/// Turns a typed run reference into a run name, given the names of the
/// directories under the output root.
pub fn resolveRunName(dirs: &Vec<String>, reference: &str) -> (r: Result<String, RunRefError>)
    ensures
        forall|names: Seq<Seq<char>>|
            #[trigger] run_names_of(dirs.deep_view(), names) ==> match (r, resolve_run(names, dirs.deep_view(), reference@)) {
                (Ok(a), Ok(b)) => a@ == b,
                (Err(RunRefError::NoRuns), Err(RunRefError::NoRuns)) => true,
                (Err(RunRefError::BadReference), Err(RunRefError::BadReference)) => true,
                (Err(RunRefError::PastFirst(a)), Err(RunRefError::PastFirst(b))) => a == b,
                (Err(RunRefError::BadForm), Err(RunRefError::BadForm)) => true,
                (Err(RunRefError::NotCollected), Err(RunRefError::NotCollected)) => true,
                _ => false,
            },
{
    let names = runNames(dirs);
    let r = resolve_in(&names, dirs, reference);
    proof {
        assert forall|other: Seq<Seq<char>>| #[trigger] run_names_of(dirs.deep_view(), other) implies other
            == names.deep_view() by {
            lemma_run_names_unique(dirs.deep_view(), other, names.deep_view());
        }
    }
    r
}

fn resolve_in(names: &Vec<String>, dirs: &Vec<String>, reference: &str) -> (r: Result<String, RunRefError>)
    ensures
        match (r, resolve_run(names.deep_view(), dirs.deep_view(), reference@)) {
            (Ok(a), Ok(b)) => a@ == b,
            (Err(RunRefError::NoRuns), Err(RunRefError::NoRuns)) => true,
            (Err(RunRefError::BadReference), Err(RunRefError::BadReference)) => true,
            (Err(RunRefError::PastFirst(a)), Err(RunRefError::PastFirst(b))) => a == b,
            (Err(RunRefError::BadForm), Err(RunRefError::BadForm)) => true,
            (Err(RunRefError::NotCollected), Err(RunRefError::NotCollected)) => true,
            _ => false,
        },
{
    if names.len() == 0 {
        return Err(RunRefError::NoRuns);
    }
    let n = names.len();
    proof {
        assert(names.deep_view()[n - 1] == names[n - 1]@);
    }
    if str_eq(reference, "latest") || str_eq(reference, "last") || reference.is_empty() {
        return if collected(dirs, names[n - 1].as_str()) {
            Ok(crate::text::copy(&names[n - 1]))
        } else {
            Err(RunRefError::NotCollected)
        };
    }
    if has_prefix_exec(reference, "-") {
        let rest = trim_prefix_exec(reference, "-");
        let back = match parse_int_exec(rest.as_str()) {
            Some(b) => b,
            None => {
                return Err(RunRefError::BadReference);
            },
        };
        if back < 1 {
            return Err(RunRefError::BadReference);
        }
        if (back as u64) > ((n - 1) as u64) {
            return Err(RunRefError::PastFirst(n));
        }
        let idx: usize = n - 1 - (back as usize);
        assert(names.deep_view()[idx as int] == names[idx as int]@);
        return if collected(dirs, names[idx].as_str()) {
            Ok(crate::text::copy(&names[idx]))
        } else {
            Err(RunRefError::NotCollected)
        };
    }
    if runNumber(reference) < 0 {
        return match parse_int_exec(reference) {
            Some(v) => {
                let mut s = owned("run");
                let d = int_to_string(v);
                push_str(&mut s, d.as_str());
                if collected(dirs, s.as_str()) {
                    Ok(s)
                } else {
                    Err(RunRefError::NotCollected)
                }
            },
            None => Err(RunRefError::BadForm),
        };
    }
    if collected(dirs, reference) {
        Ok(owned(reference))
    } else {
        Err(RunRefError::NotCollected)
    }
}

/// "k=v k=v" of a recorded delta, in the order given.
pub open spec fn delta_text(pairs: Seq<(Seq<char>, Seq<char>)>) -> Seq<char> {
    join(pairs.map_values(|p: (Seq<char>, Seq<char>)| p.0 + "="@ + p.1), " "@)
}

pub open spec fn pair_view(p: (String, String)) -> (Seq<char>, Seq<char>) {
    (p.0@, p.1@)
}

/// Renders a run's recorded delta as "k=v k=v".
pub fn deltaString(pairs: &Vec<(String, String)>) -> (r: String)
    ensures
        r@ == delta_text(pairs@.map_values(|p: (String, String)| pair_view(p))),
{
    let ghost pv = pairs@.map_values(|p: (String, String)| pair_view(p));
    let ghost f = |p: (Seq<char>, Seq<char>)| p.0 + "="@ + p.1;
    let mut parts: Vec<String> = Vec::new();
    let mut i: usize = 0;
    while i < pairs.len()
        invariant
            i <= pairs.len(),
            pv == pairs@.map_values(|p: (String, String)| pair_view(p)),
            f == (|p: (Seq<char>, Seq<char>)| p.0 + "="@ + p.1),
            parts.deep_view() == pv.take(i as int).map_values(f),
        decreases pairs.len() - i,
    {
        let mut s = crate::text::copy(&pairs[i].0);
        push_str(&mut s, "=");
        push_str(&mut s, pairs[i].1.as_str());
        let ghost before = parts.deep_view();
        let ghost sv = s@;
        parts.push(s);
        assert(parts.deep_view() =~= before.push(sv));
        assert(pv[i as int] == pair_view(pairs@[i as int]));
        i += 1;
        assert(pv.take(i as int).map_values(f) =~= pv.take(i - 1).map_values(f).push(f(pv[i - 1])));
        assert(parts.deep_view() =~= pv.take(i as int).map_values(f));
    }
    assert(pv.take(pairs.len() as int) =~= pv);
    join_exec(&parts, " ")
}

/// The serve argv of a recorded "argv: ..." line: the words after
/// "serve", without the profiler flag and the JSON words of its value
/// (which run to the next "--" word).
pub open spec fn ship_words(words: Seq<Seq<char>>) -> Seq<Seq<char>> {
    ship_state(words).2
}

/// (started, skipping the profiler value, words kept) after `words`.
pub open spec fn ship_state(words: Seq<Seq<char>>) -> (bool, bool, Seq<Seq<char>>)
    decreases words.len(),
{
    if words.len() == 0 {
        (false, false, seq![])
    } else {
        let (started, skipping, out) = ship_state(words.drop_last());
        let tok = words.last();
        if !started {
            (tok == "serve"@, false, out)
        } else if tok == "--profiler-config"@ {
            (true, true, out)
        } else if skipping && !has_prefix(tok, "--"@) {
            (true, true, out)
        } else {
            (true, false, out.push(tok))
        }
    }
}

/// The argv a run's captured text records: the first "argv: " line
/// whose serve words are not empty.
pub open spec fn ship_argv_of(lines: Seq<Seq<char>>) -> Option<Seq<Seq<char>>>
    decreases lines.len(),
{
    if lines.len() == 0 {
        None
    } else {
        let l = lines[0];
        if has_prefix(l, "argv: "@) && ship_words(fields(trim_prefix(l, "argv: "@))).len() > 0 {
            Some(ship_words(fields(trim_prefix(l, "argv: "@))))
        } else {
            ship_argv_of(lines.drop_first())
        }
    }
}

fn ship_words_exec(words: &Vec<String>) -> (r: Vec<String>)
    ensures
        r.deep_view() == ship_words(words.deep_view()),
{
    let ghost ws = words.deep_view();
    let mut out: Vec<String> = Vec::new();
    let mut started = false;
    let mut skipping = false;
    let mut i: usize = 0;
    assert(ws.take(0) =~= Seq::<Seq<char>>::empty());
    while i < words.len()
        invariant
            i <= words.len(),
            ws == words.deep_view(),
            ship_state(ws.take(i as int)) == (started, skipping, out.deep_view()),
        decreases words.len() - i,
    {
        let tok = &words[i];
        proof {
            let t = ws.take(i + 1);
            assert(t.drop_last() =~= ws.take(i as int));
            assert(t.last() == tok@);
        }
        if !started {
            if str_eq(tok.as_str(), "serve") {
                started = true;
            }
        } else if str_eq(tok.as_str(), "--profiler-config") {
            skipping = true;
        } else if skipping && !has_prefix_exec(tok.as_str(), "--") {
        } else {
            skipping = false;
            let ghost before = out.deep_view();
            out.push(crate::text::copy(tok));
            assert(out.deep_view() =~= before.push(tok@));
        }
        i += 1;
    }
    assert(ws.take(words.len() as int) =~= ws);
    out
}

/// Extracts the serve argv a run ran with from its captured text.
pub fn shipArgv(data: &str) -> (r: Option<Vec<String>>)
    ensures
        match (r, ship_argv_of(split_char(data@, '\n'))) {
            (Some(a), Some(b)) => a.deep_view() == b,
            (None, None) => true,
            _ => false,
        },
{
    let lines = split_char_exec(data, '\n');
    let ghost ls = lines.deep_view();
    let mut i: usize = 0;
    assert(ls.skip(0) =~= ls);
    while i < lines.len()
        invariant
            i <= lines.len(),
            ls == lines.deep_view(),
            ls == split_char(data@, '\n'),
            ship_argv_of(ls) == ship_argv_of(ls.skip(i as int)),
        decreases lines.len() - i,
    {
        let line = &lines[i];
        proof {
            assert(ls.skip(i as int)[0] == line@);
            assert(ls.skip(i as int).drop_first() =~= ls.skip(i + 1));
        }
        if has_prefix_exec(line.as_str(), "argv: ") {
            let rest = trim_prefix_exec(line.as_str(), "argv: ");
            let words = fields_exec(rest.as_str());
            let out = ship_words_exec(&words);
            assert(out.deep_view().len() == out.len());
            if out.len() > 0 {
                proof {
                    let rs = ls.skip(i as int);
                    assert(rs.len() > 0);
                    assert(rs[0] == line@);
                    assert(ship_words(fields(trim_prefix(rs[0], "argv: "@))) == out.deep_view());
                    assert(ship_argv_of(rs) == Some(out.deep_view()));
                }
                return Some(out);
            }
        }
        i += 1;
    }
    None
}


pub open spec fn kv_view(v: Seq<(String, String)>) -> Seq<(Seq<char>, Seq<char>)> {
    v.map_values(|p: (String, String)| (p.0@, p.1@))
}

pub open spec fn has_key(kvs: Seq<(Seq<char>, Seq<char>)>, k: Seq<char>) -> bool {
    exists|i: int| 0 <= i < kvs.len() && (#[trigger] kvs[i]).0 == k
}

/// A run's vLLM config: the resolved settings, then each explicitly
/// set flag whose key they (or an earlier explicit flag) lack.
pub open spec fn merged_config(resolved: Seq<(Seq<char>, Seq<char>)>, explicit: Seq<(Seq<char>, Seq<char>)>) -> Seq<(Seq<char>, Seq<char>)>
    decreases explicit.len(),
{
    if explicit.len() == 0 {
        resolved
    } else {
        let m = merged_config(resolved, explicit.drop_last());
        let kv = explicit.last();
        if has_key(m, kv.0) { m } else { m.push(kv) }
    }
}

/// Merges the two config dumps of a run's server log: the resolved
/// line wins, explicit flags fill the keys it lacks.
pub fn mergeConfig(resolved: &Vec<(String, String)>, explicit: &Vec<(String, String)>) -> (r: Vec<(String, String)>)
    ensures
        kv_view(r@) == merged_config(kv_view(resolved@), kv_view(explicit@)),
{
    let mut out: Vec<(String, String)> = Vec::new();
    let mut i: usize = 0;
    while i < resolved.len()
        invariant
            i <= resolved.len(),
            kv_view(out@) == kv_view(resolved@).take(i as int),
        decreases resolved.len() - i,
    {
        let ghost before = kv_view(out@);
        out.push((crate::text::copy(&resolved[i].0), crate::text::copy(&resolved[i].1)));
        assert(kv_view(out@) =~= before.push((resolved@[i as int].0@, resolved@[i as int].1@)));
        i += 1;
        assert(kv_view(out@) =~= kv_view(resolved@).take(i as int));
    }
    assert(kv_view(resolved@).take(resolved.len() as int) =~= kv_view(resolved@));
    let ghost ev = kv_view(explicit@);
    let mut j: usize = 0;
    assert(ev.take(0) =~= Seq::<(Seq<char>, Seq<char>)>::empty());
    while j < explicit.len()
        invariant
            j <= explicit.len(),
            ev == kv_view(explicit@),
            kv_view(out@) == merged_config(kv_view(resolved@), ev.take(j as int)),
        decreases explicit.len() - j,
    {
        let ghost ov = kv_view(out@);
        proof {
            let t = ev.take(j + 1);
            assert(t.drop_last() =~= ev.take(j as int));
            assert(t.last() == (explicit@[j as int].0@, explicit@[j as int].1@));
        }
        let mut have = false;
        let mut k: usize = 0;
        while k < out.len()
            invariant
                k <= out.len(),
                j < explicit.len(),
                ov == kv_view(out@),
                have == exists|w: int| 0 <= w < k && (#[trigger] ov[w]).0 == explicit@[j as int].0@,
            decreases out.len() - k,
        {
            assert(ov[k as int] == (out@[k as int].0@, out@[k as int].1@));
            if str_eq(out[k].0.as_str(), explicit[j].0.as_str()) {
                have = true;
            }
            k += 1;
        }
        if !have {
            out.push((crate::text::copy(&explicit[j].0), crate::text::copy(&explicit[j].1)));
            assert(kv_view(out@) =~= ov.push((explicit@[j as int].0@, explicit@[j as int].1@)));
        }
        j += 1;
    }
    assert(ev.take(explicit.len() as int) =~= ev);
    out
}

/// The (flag, run) pairs a run chain sets, oldest run first: each flag
/// key of a run's delta as "--key".
pub open spec fn chain_pairs(chain: Seq<(Seq<char>, Seq<Seq<char>>)>) -> Seq<(Seq<char>, Seq<char>)>
    decreases chain.len(),
{
    if chain.len() == 0 {
        seq![]
    } else {
        let (run, keys) = chain[0];
        chain_pairs(chain.drop_first()) + keys.map_values(|k: Seq<char>| ("--"@ + k, run))
    }
}

pub open spec fn chain_view(chain: Seq<(String, Vec<String>)>) -> Seq<(Seq<char>, Seq<Seq<char>>)> {
    chain.map_values(|c: (String, Vec<String>)| (c.0@, c.1.deep_view()))
}

/// Maps each flag override of a run's ancestry to the run whose delta
/// introduced it; `chain` runs from the run back to its oldest
/// ancestor, with the keys each one's delta set; newer runs win.
pub fn deltaOrigins(chain: &Vec<(String, Vec<String>)>) -> (r: Vec<(String, String)>)
    ensures
        crate::tuning::distinct_keys(crate::tuning::pairs_view(r@)),
        crate::tuning::assoc_map(crate::tuning::pairs_view(r@)) == crate::tuning::assoc_map(
            chain_pairs(chain_view(chain@)),
        ),
{
    let ghost cv = chain_view(chain@);
    let mut origins: Vec<(String, String)> = Vec::new();
    let ghost mut done: Seq<(Seq<char>, Seq<char>)> = seq![];
    let mut i: usize = chain.len();
    assert(cv.skip(chain.len() as int) =~= Seq::<(Seq<char>, Seq<Seq<char>>)>::empty());
    while i > 0
        invariant
            i <= chain.len(),
            cv == chain_view(chain@),
            crate::tuning::distinct_keys(crate::tuning::pairs_view(origins@)),
            crate::tuning::assoc_map(crate::tuning::pairs_view(origins@)) == crate::tuning::assoc_map(
                chain_pairs(cv.skip(i as int)),
            ),
        decreases i,
    {
        i -= 1;
        let run = &chain[i].0;
        let keys = &chain[i].1;
        let ghost base = chain_pairs(cv.skip(i + 1));
        let ghost f = |k: Seq<char>| ("--"@ + k, run@);
        proof {
            let t = cv.skip(i as int);
            assert(t[0] == (run@, keys.deep_view()));
            assert(t.drop_first() =~= cv.skip(i + 1));
        }
        let mut k: usize = 0;
        assert(base + keys.deep_view().take(0).map_values(f) =~= base);
        while k < keys.len()
            invariant
                k <= keys.len(),
                f == (|k: Seq<char>| ("--"@ + k, run@)),
                crate::tuning::distinct_keys(crate::tuning::pairs_view(origins@)),
                crate::tuning::assoc_map(crate::tuning::pairs_view(origins@)) == crate::tuning::assoc_map(
                    base + keys.deep_view().take(k as int).map_values(f),
                ),
            decreases keys.len() - k,
        {
            let mut flag = owned("--");
            push_str(&mut flag, keys[k].as_str());
            crate::tuning::assoc_set_pub(&mut origins, flag, crate::text::copy(run));
            proof {
                let s1 = base + keys.deep_view().take(k + 1).map_values(f);
                let s0 = base + keys.deep_view().take(k as int).map_values(f);
                assert(s1 =~= s0.push(f(keys.deep_view()[k as int])));
                assert(s1.drop_last() =~= s0);
            }
            k += 1;
        }
        assert(keys.deep_view().take(keys.len() as int) =~= keys.deep_view());
    }
    assert(cv.skip(0) =~= cv);
    origins
}


/// The value of the first setting named `key`, "" when there is none.
pub open spec fn first_value(kvs: Seq<(Seq<char>, Seq<char>)>, key: Seq<char>) -> Seq<char>
    decreases kvs.len(),
{
    if kvs.len() == 0 {
        seq![]
    } else if kvs[0].0 == key {
        kvs[0].1
    } else {
        first_value(kvs.drop_first(), key)
    }
}

/// The flag lines of `run diff`: the vLLM version change, then each
/// relevant key whose value differs; none unless both runs captured
/// their config (a version).
pub open spec fn flag_rows(
    ver_a: Seq<char>,
    ver_b: Seq<char>,
    keys: Seq<Seq<char>>,
    a: Seq<(Seq<char>, Seq<char>)>,
    b: Seq<(Seq<char>, Seq<char>)>,
) -> Seq<Seq<char>> {
    if ver_a.len() == 0 || ver_b.len() == 0 {
        seq![]
    } else {
        (if ver_a != ver_b { seq!["  vllm: "@ + ver_a + " -> "@ + ver_b] } else { seq![] }) + key_rows(keys, a, b)
    }
}

pub open spec fn key_rows(keys: Seq<Seq<char>>, a: Seq<(Seq<char>, Seq<char>)>, b: Seq<(Seq<char>, Seq<char>)>) -> Seq<Seq<char>>
    decreases keys.len(),
{
    if keys.len() == 0 {
        seq![]
    } else {
        let k = keys.last();
        let va = first_value(a, k);
        let vb = first_value(b, k);
        key_rows(keys.drop_last(), a, b) + if va != vb {
            seq!["  "@ + k + ": "@ + va + " -> "@ + vb]
        } else {
            seq![]
        }
    }
}

/// The row `run diff` prints for a key whose value changed.
pub open spec fn change_row(k: Seq<char>, va: Seq<char>, vb: Seq<char>) -> Seq<char> {
    "  "@ + k + ": "@ + va + " -> "@ + vb
}

proof fn lemma_key_rows_exact(keys: Seq<Seq<char>>, a: Seq<(Seq<char>, Seq<char>)>, b: Seq<(Seq<char>, Seq<char>)>)
    ensures
        forall|i: int|
            0 <= i < keys.len() && first_value(a, keys[i]) != first_value(b, keys[i]) ==> key_rows(keys, a, b).contains(
                change_row(keys[i], first_value(a, keys[i]), first_value(b, keys[i])),
            ),
        forall|r: Seq<char>|
            key_rows(keys, a, b).contains(r) ==> exists|i: int|
                0 <= i < keys.len() && first_value(a, keys[i]) != first_value(b, keys[i]) && r == change_row(
                    keys[i],
                    first_value(a, keys[i]),
                    first_value(b, keys[i]),
                ),
    decreases keys.len(),
{
    if keys.len() > 0 {
        let pre = keys.drop_last();
        lemma_key_rows_exact(pre, a, b);
        let k = keys.last();
        let va = first_value(a, k);
        let vb = first_value(b, k);
        let head = key_rows(pre, a, b);
        let tail: Seq<Seq<char>> = if va != vb { seq!["  "@ + k + ": "@ + va + " -> "@ + vb] } else { seq![] };
        let rows = key_rows(keys, a, b);
        assert(rows == head + tail);
        let n = keys.len() - 1;
        assert forall|i: int|
            0 <= i < keys.len() && first_value(a, keys[i]) != first_value(b, keys[i]) implies rows.contains(
                change_row(keys[i], first_value(a, keys[i]), first_value(b, keys[i])),
            ) by {
            if i < n {
                assert(pre[i] == keys[i]);
                let row = change_row(keys[i], first_value(a, keys[i]), first_value(b, keys[i]));
                let j = choose|j: int| 0 <= j < head.len() && head[j] == row;
                assert(rows[j] == head[j]);
            } else {
                assert(rows[head.len() as int] == tail[0]);
            }
        }
        assert forall|r: Seq<char>| rows.contains(r) implies exists|i: int|
            0 <= i < keys.len() && first_value(a, keys[i]) != first_value(b, keys[i]) && r == change_row(
                keys[i],
                first_value(a, keys[i]),
                first_value(b, keys[i]),
            ) by {
            let j = choose|j: int| 0 <= j < rows.len() && rows[j] == r;
            if j < head.len() {
                assert(head[j] == r);
                assert(head.contains(r));
                let i = choose|i: int|
                    0 <= i < pre.len() && first_value(a, pre[i]) != first_value(b, pre[i]) && r == change_row(
                        pre[i],
                        first_value(a, pre[i]),
                        first_value(b, pre[i]),
                    );
                assert(keys[i] == pre[i]);
            } else {
                assert(keys[n] == k);
            }
        }
    }
}

/// What `run diff` reports of the flags: nothing unless both runs
/// captured a vLLM version; with both, the version change when the
/// versions differ, and for every relevant key whose (first) values
/// differ a row "  key: a -> b", whether or not the versions are equal;
/// no other row.
pub proof fn lemma_flag_rows_report_changes(
    ver_a: Seq<char>,
    ver_b: Seq<char>,
    keys: Seq<Seq<char>>,
    a: Seq<(Seq<char>, Seq<char>)>,
    b: Seq<(Seq<char>, Seq<char>)>,
)
    ensures
        ver_a.len() == 0 || ver_b.len() == 0 ==> flag_rows(ver_a, ver_b, keys, a, b).len() == 0,
        ver_a.len() > 0 && ver_b.len() > 0 ==> forall|i: int|
            0 <= i < keys.len() && first_value(a, keys[i]) != first_value(b, keys[i]) ==> flag_rows(
                ver_a,
                ver_b,
                keys,
                a,
                b,
            ).contains(change_row(keys[i], first_value(a, keys[i]), first_value(b, keys[i]))),
        ver_a.len() > 0 && ver_b.len() > 0 && ver_a != ver_b ==> flag_rows(ver_a, ver_b, keys, a, b)[0]
            == "  vllm: "@ + ver_a + " -> "@ + ver_b,
        forall|r: Seq<char>|
            flag_rows(ver_a, ver_b, keys, a, b).contains(r) ==> r == "  vllm: "@ + ver_a + " -> "@ + ver_b
                || exists|i: int|
                0 <= i < keys.len() && first_value(a, keys[i]) != first_value(b, keys[i]) && r == change_row(
                    keys[i],
                    first_value(a, keys[i]),
                    first_value(b, keys[i]),
                ),
{
    lemma_key_rows_exact(keys, a, b);
    if ver_a.len() > 0 && ver_b.len() > 0 {
        let head: Seq<Seq<char>> = if ver_a != ver_b { seq!["  vllm: "@ + ver_a + " -> "@ + ver_b] } else { seq![] };
        let kr = key_rows(keys, a, b);
        let rows = flag_rows(ver_a, ver_b, keys, a, b);
        assert(rows == head + kr);
        assert forall|i: int|
            0 <= i < keys.len() && first_value(a, keys[i]) != first_value(b, keys[i]) implies rows.contains(
                change_row(keys[i], first_value(a, keys[i]), first_value(b, keys[i])),
            ) by {
            let row = change_row(keys[i], first_value(a, keys[i]), first_value(b, keys[i]));
            let j = choose|j: int| 0 <= j < kr.len() && kr[j] == row;
            assert(rows[head.len() + j] == kr[j]);
        }
        assert forall|r: Seq<char>| rows.contains(r) implies r == "  vllm: "@ + ver_a + " -> "@ + ver_b
            || exists|i: int|
            0 <= i < keys.len() && first_value(a, keys[i]) != first_value(b, keys[i]) && r == change_row(
                keys[i],
                first_value(a, keys[i]),
                first_value(b, keys[i]),
            ) by {
            let j = choose|j: int| 0 <= j < rows.len() && rows[j] == r;
            if j >= head.len() {
                assert(kr[j - head.len()] == r);
                assert(kr.contains(r));
            }
        }
    }
}

fn first_value_exec(kvs: &Vec<(String, String)>, key: &str) -> (r: String)
    ensures
        r@ == first_value(kv_view(kvs@), key@),
{
    let ghost kv = kv_view(kvs@);
    let mut i: usize = 0;
    assert(kv.skip(0) =~= kv);
    while i < kvs.len()
        invariant
            i <= kvs.len(),
            kv == kv_view(kvs@),
            first_value(kv, key@) == first_value(kv.skip(i as int), key@),
        decreases kvs.len() - i,
    {
        proof {
            let t = kv.skip(i as int);
            assert(t[0] == (kvs@[i as int].0@, kvs@[i as int].1@));
            assert(t.drop_first() =~= kv.skip(i + 1));
        }
        if str_eq(kvs[i].0.as_str(), key) {
            return crate::text::copy(&kvs[i].1);
        }
        i += 1;
    }
    String::new()
}

/// The flag lines `run diff` prints between two runs' configs.
pub fn flagRows(
    verA: &str,
    verB: &str,
    keys: &Vec<String>,
    a: &Vec<(String, String)>,
    b: &Vec<(String, String)>,
) -> (r: Vec<String>)
    ensures
        r.deep_view() == flag_rows(verA@, verB@, keys.deep_view(), kv_view(a@), kv_view(b@)),
{
    let mut rows: Vec<String> = Vec::new();
    if verA.is_empty() || verB.is_empty() {
        assert(rows.deep_view() =~= Seq::<Seq<char>>::empty());
        return rows;
    }
    if !str_eq(verA, verB) {
        let mut s = owned("  vllm: ");
        push_str(&mut s, verA);
        push_str(&mut s, " -> ");
        push_str(&mut s, verB);
        let ghost sv = s@;
        rows.push(s);
        assert(rows.deep_view() =~= seq![sv]);
    }
    let ghost head = rows.deep_view();
    let ghost kd = keys.deep_view();
    let mut i: usize = 0;
    assert(kd.take(0) =~= Seq::<Seq<char>>::empty());
    assert(head + key_rows(kd.take(0), kv_view(a@), kv_view(b@)) =~= head);
    while i < keys.len()
        invariant
            i <= keys.len(),
            kd == keys.deep_view(),
            rows.deep_view() == head + key_rows(kd.take(i as int), kv_view(a@), kv_view(b@)),
        decreases keys.len() - i,
    {
        let k = &keys[i];
        proof {
            let t = kd.take(i + 1);
            assert(t.drop_last() =~= kd.take(i as int));
            assert(t.last() == k@);
        }
        let va = first_value_exec(a, k.as_str());
        let vb = first_value_exec(b, k.as_str());
        if !str_eq(va.as_str(), vb.as_str()) {
            let mut s = owned("  ");
            push_str(&mut s, k.as_str());
            push_str(&mut s, ": ");
            push_str(&mut s, va.as_str());
            push_str(&mut s, " -> ");
            push_str(&mut s, vb.as_str());
            let ghost before = rows.deep_view();
            let ghost sv = s@;
            rows.push(s);
            assert(rows.deep_view() =~= before.push(sv));
        }
        i += 1;
        assert(rows.deep_view() =~= head + key_rows(kd.take(i as int), kv_view(a@), kv_view(b@)));
    }
    assert(kd.take(keys.len() as int) =~= kd);
    rows
}

/// The highest run number among directory names, 0 when there is none.
pub open spec fn max_run(names: Seq<Seq<char>>) -> int
    decreases names.len(),
{
    if names.len() == 0 {
        0
    } else {
        let m = max_run(names.drop_last());
        let n = run_number(names.last());
        if n > m { n } else { m }
    }
}

/// The name the next collected run gets: one past the highest "runN"
/// present, "run1" for the first.
pub open spec fn next_run_name(names: Seq<Seq<char>>) -> Seq<char> {
    "run"@ + decimal(max_run(names) + 1)
}

proof fn lemma_max_run_nonneg(names: Seq<Seq<char>>)
    ensures
        max_run(names) >= 0,
    decreases names.len(),
{
    if names.len() > 0 {
        lemma_max_run_nonneg(names.drop_last());
    }
}

proof fn lemma_max_run_bounds(names: Seq<Seq<char>>)
    ensures
        forall|i: int| 0 <= i < names.len() ==> run_number(#[trigger] names[i]) <= max_run(names),
        max_run(names) == 0 || exists|i: int| 0 <= i < names.len() && run_number(#[trigger] names[i]) == max_run(names),
    decreases names.len(),
{
    if names.len() > 0 {
        let pre = names.drop_last();
        lemma_max_run_bounds(pre);
        assert forall|i: int| 0 <= i < names.len() implies run_number(#[trigger] names[i]) <= max_run(names) by {
            if i < pre.len() {
                assert(names[i] == pre[i]);
            }
        }
        if max_run(names) != 0 && max_run(names) == max_run(pre) {
            let i = choose|i: int| 0 <= i < pre.len() && run_number(#[trigger] pre[i]) == max_run(pre);
            assert(names[i] == pre[i]);
        }
        if max_run(names) != max_run(pre) {
            assert(run_number(names[names.len() - 1]) == max_run(names));
        }
    }
}

/// The next run is numbered one past the highest run present (run1 for
/// none): its number is above every existing run's, so it names a new
/// directory, and no smaller such number is skipped past a present run.
pub proof fn lemma_next_run_is_new(names: Seq<Seq<char>>)
    requires
        max_run(names) < i64::MAX,
    ensures
        forall|i: int| 0 <= i < names.len() ==> run_number(#[trigger] names[i]) < run_number(next_run_name(names)),
        forall|i: int| 0 <= i < names.len() ==> #[trigger] names[i] != next_run_name(names),
        run_number(next_run_name(names)) >= 1,
        run_number(next_run_name(names)) == 1 || exists|i: int|
            0 <= i < names.len() && run_number(#[trigger] names[i]) == run_number(next_run_name(names)) - 1,
{
    lemma_max_run_nonneg(names);
    lemma_max_run_bounds(names);
    lemma_run_name_number(max_run(names) + 1);
    assert forall|i: int| 0 <= i < names.len() implies #[trigger] names[i] != next_run_name(names) by {
        assert(run_number(names[i]) < run_number(next_run_name(names)));
    }
}

/// Names the next run directory among the existing entries.
pub fn nextRunName(names: &Vec<String>) -> (r: String)
    requires
        max_run(names.deep_view()) < i64::MAX,
    ensures
        r@ == next_run_name(names.deep_view()),
{
    let ghost nv = names.deep_view();
    let mut m: i64 = 0;
    let mut i: usize = 0;
    assert(nv.take(0) =~= Seq::<Seq<char>>::empty());
    while i < names.len()
        invariant
            i <= names.len(),
            nv == names.deep_view(),
            m == max_run(nv.take(i as int)),
        decreases names.len() - i,
    {
        proof {
            let t = nv.take(i + 1);
            assert(t.drop_last() =~= nv.take(i as int));
            assert(t.last() == names[i as int]@);
        }
        let n = runNumber(names[i].as_str());
        if n > m {
            m = n;
        }
        i += 1;
    }
    assert(nv.take(names.len() as int) =~= nv);
    proof {
        lemma_max_run_nonneg(nv);
    }
    let mut r = owned("run");
    let x = int_to_string(m + 1);
    push_str(&mut r, x.as_str());
    r
}

} // verus!
