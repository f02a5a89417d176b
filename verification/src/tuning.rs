//! The tuning loop's small languages: flag deltas ("max-num-seqs=64"),
//! goals ("total@32"), and the text helpers the collector writes with.
use vstd::prelude::*;
use vstd::string::StringSliceAdditionalSpecFns;
use crate::text::{
    contains, decimal, fields, fields_exec, has_prefix, has_prefix_exec, has_suffix, has_suffix_exec,
    index_char, index_char_exec, int_to_string, lemma_index_char, owned, parse_int, parse_int_exec,
    push_char, push_str, replace_char, replace_char_exec, splitn_char, splitn_char_exec, str_eq,
    substring, trim_prefix, trim_prefix_exec,
};

verus! {

// ---------------------------------------------------------------------
// Flag deltas
// ---------------------------------------------------------------------

/// The key and value of one "flag=value" argument: the text before the
/// first '=' (which must not be empty), without a leading "--", with '_'
/// written as '-'; and the text after it.
pub open spec fn delta_arg(a: Seq<char>) -> Option<(Seq<char>, Seq<char>)> {
    let idx = index_char(a, '=');
    if idx <= 0 {
        None
    } else {
        Some((replace_char(trim_prefix(a.take(idx), "--"@), '_', "-"@), a.skip(idx + 1)))
    }
}

/// Why a delta cannot be applied, by the position of the argument.
pub enum DeltaFault {
    NotFlagValue(int),
    UnknownFlag(int),
    NothingToApply,
}

/// The overrides `args` set: each key to the value of its last
/// argument, "tp" standing for "tensor-parallel-size"; when a flag
/// catalog is known, every other key must be in it (with '-' written as
/// '_'). The first bad argument decides the error.
pub open spec fn delta_prefix(args: Seq<Seq<char>>, cat: Option<Seq<Seq<char>>>) -> Result<Map<Seq<char>, Seq<char>>, DeltaFault>
    decreases args.len(),
{
    if args.len() == 0 {
        Ok(Map::empty())
    } else {
        match delta_prefix(args.drop_last(), cat) {
            Err(e) => Err(e),
            Ok(m) => {
                let i = args.len() - 1;
                match delta_arg(args.last()) {
                    None => Err(DeltaFault::NotFlagValue(i)),
                    Some((k, v)) => if k == "tp"@ {
                        Ok(m.insert("tensor-parallel-size"@, v))
                    } else if cat is Some && !cat.unwrap().contains(replace_char(k, '-', "_"@)) {
                        Err(DeltaFault::UnknownFlag(i))
                    } else {
                        Ok(m.insert(k, v))
                    },
                }
            },
        }
    }
}

/// The delta `args` describe; nothing to apply without arguments.
pub open spec fn delta_of(args: Seq<Seq<char>>, cat: Option<Seq<Seq<char>>>) -> Result<Map<Seq<char>, Seq<char>>, DeltaFault> {
    if args.len() == 0 {
        Err(DeltaFault::NothingToApply)
    } else {
        delta_prefix(args, cat)
    }
}

/// An association list as a map (later entries win).
pub open spec fn assoc_map(ps: Seq<(Seq<char>, Seq<char>)>) -> Map<Seq<char>, Seq<char>>
    decreases ps.len(),
{
    if ps.len() == 0 {
        Map::empty()
    } else {
        assoc_map(ps.drop_last()).insert(ps.last().0, ps.last().1)
    }
}

pub open spec fn distinct_keys(ps: Seq<(Seq<char>, Seq<char>)>) -> bool {
    forall|i: int, j: int| 0 <= i < j < ps.len() ==> ps[i].0 != ps[j].0
}

pub open spec fn pairs_view(v: Seq<(String, String)>) -> Seq<(Seq<char>, Seq<char>)> {
    v.map_values(|p: (String, String)| (p.0@, p.1@))
}

proof fn lemma_assoc_update(ps: Seq<(Seq<char>, Seq<char>)>, j: int, v: Seq<char>)
    requires
        distinct_keys(ps),
        0 <= j < ps.len(),
    ensures
        assoc_map(ps.update(j, (ps[j].0, v))) == assoc_map(ps).insert(ps[j].0, v),
        distinct_keys(ps.update(j, (ps[j].0, v))),
    decreases ps.len(),
{
    let q = ps.update(j, (ps[j].0, v));
    if j == ps.len() - 1 {
        assert(q.drop_last() =~= ps.drop_last());
        assert(assoc_map(q) =~= assoc_map(ps).insert(ps[j].0, v));
    } else {
        let d = ps.drop_last();
        assert(distinct_keys(d));
        lemma_assoc_update(d, j, v);
        assert(q.drop_last() =~= d.update(j, (ps[j].0, v)));
        assert(ps.last().0 != ps[j].0);
        assert(assoc_map(q) =~= assoc_map(ps).insert(ps[j].0, v));
    }
}

proof fn lemma_assoc_absent(ps: Seq<(Seq<char>, Seq<char>)>, k: Seq<char>)
    requires
        forall|i: int| 0 <= i < ps.len() ==> ps[i].0 != k,
    ensures
        !assoc_map(ps).dom().contains(k),
    decreases ps.len(),
{
    if ps.len() > 0 {
        lemma_assoc_absent(ps.drop_last(), k);
    }
}

/// Sets `k` to `v` in an association list with distinct keys.
fn assoc_set(ps: &mut Vec<(String, String)>, k: String, v: String)
    requires
        distinct_keys(pairs_view(old(ps)@)),
    ensures
        distinct_keys(pairs_view(final(ps)@)),
        assoc_map(pairs_view(final(ps)@)) == assoc_map(pairs_view(old(ps)@)).insert(k@, v@),
        final(ps)@.len() >= 1,
{
    let ghost pv = pairs_view(ps@);
    let mut i: usize = 0;
    while i < ps.len()
        invariant
            i <= ps.len(),
            pv == pairs_view(ps@),
            pv == pairs_view(old(ps)@),
            distinct_keys(pv),
            forall|j: int| 0 <= j < i ==> pv[j].0 != k@,
        decreases ps.len() - i,
    {
        assert(pv[i as int] == (ps@[i as int].0@, ps@[i as int].1@));
        if str_eq(ps[i].0.as_str(), k.as_str()) {
            let key = crate::text::copy(&ps[i].0);
            proof {
                assert(pv[i as int] == (ps@[i as int].0@, ps@[i as int].1@));
                lemma_assoc_update(pv, i as int, v@);
            }
            let ghost vv = v@;
            ps.set(i, (key, v));
            assert(pairs_view(ps@) =~= pv.update(i as int, (pv[i as int].0, vv)));
            assert(pv[i as int].0 == k@);
            assert(assoc_map(pairs_view(ps@)) == assoc_map(pv).insert(pv[i as int].0, vv));
            assert(pv == pairs_view(old(ps)@));
            return;
        }
        i += 1;
    }
    proof {
        lemma_assoc_absent(pv, k@);
    }
    let ghost kv = k@;
    let ghost vv = v@;
    ps.push((k, v));
    assert(pairs_view(ps@) =~= pv.push((kv, vv)));
    assert(pairs_view(ps@).drop_last() =~= pv);
}

proof fn lemma_delta_err_stays(args: Seq<Seq<char>>, k: int, cat: Option<Seq<Seq<char>>>)
    requires
        0 <= k <= args.len(),
        delta_prefix(args.take(k), cat) is Err,
    ensures
        delta_prefix(args, cat) == delta_prefix(args.take(k), cat),
    decreases args.len() - k,
{
    if k < args.len() {
        assert(args.drop_last().take(k) =~= args.take(k));
        lemma_delta_err_stays(args.drop_last(), k, cat);
    } else {
        assert(args.take(k) =~= args);
    }
}

/// Sets `k` to `v` in an association list with distinct keys.
pub fn assoc_set_pub(ps: &mut Vec<(String, String)>, k: String, v: String)
    requires
        distinct_keys(pairs_view(old(ps)@)),
    ensures
        distinct_keys(pairs_view(final(ps)@)),
        assoc_map(pairs_view(final(ps)@)) == assoc_map(pairs_view(old(ps)@)).insert(k@, v@),
{
    assoc_set(ps, k, v)
}

/// Why a delta was refused.
pub enum DeltaError {
    /// An argument without "flag=" before a value.
    NotFlagValue(String),
    /// A flag the collected vLLM catalog does not have (dash form).
    UnknownFlag(String),
    /// No arguments at all.
    NothingToApply,
}

fn in_catalog(cat: &Vec<String>, key: &str) -> (r: bool)
    ensures
        r == cat.deep_view().contains(key@),
{
    let mut i: usize = 0;
    while i < cat.len()
        invariant
            i <= cat.len(),
            forall|j: int| 0 <= j < i ==> cat.deep_view()[j] != key@,
        decreases cat.len() - i,
    {
        if str_eq(cat[i].as_str(), key) {
            assert(cat.deep_view()[i as int] == key@);
            return true;
        }
        i += 1;
    }
    false
}

/// Turns "flag=value" arguments into dash-form flag overrides, checked
/// against the pinned version's flag catalog when one was collected.
pub fn parseDelta(args: &Vec<String>, catalog: Option<&Vec<String>>) -> (r: Result<Vec<(String, String)>, DeltaError>)
    ensures
        ({
            let cat = match catalog {
                Some(c) => Some(c.deep_view()),
                None => None,
            };
            match (r, delta_of(args.deep_view(), cat)) {
                (Ok(ps), Ok(m)) => distinct_keys(pairs_view(ps@)) && assoc_map(pairs_view(ps@)) == m,
                (Err(DeltaError::NotFlagValue(s)), Err(DeltaFault::NotFlagValue(i))) => 0 <= i
                    < args.len() && s@ == args.deep_view()[i],
                (Err(DeltaError::UnknownFlag(s)), Err(DeltaFault::UnknownFlag(i))) => 0 <= i
                    < args.len() && s@ == delta_arg(args.deep_view()[i]).unwrap().0,
                (Err(DeltaError::NothingToApply), Err(DeltaFault::NothingToApply)) => true,
                _ => false,
            }
        }),
{
    let ghost cat = match catalog {
        Some(c) => Some(c.deep_view()),
        None => None,
    };
    let ghost av = args.deep_view();
    if args.len() == 0 {
        return Err(DeltaError::NothingToApply);
    }
    let mut delta: Vec<(String, String)> = Vec::new();
    let mut i: usize = 0;
    assert(av.take(0) =~= Seq::<Seq<char>>::empty());
    assert(assoc_map(pairs_view(delta@)) =~= Map::<Seq<char>, Seq<char>>::empty());
    while i < args.len()
        invariant
            i <= args.len(),
            av == args.deep_view(),
            cat == (match catalog {
                Some(c) => Some(c.deep_view()),
                None => None,
            }),
            distinct_keys(pairs_view(delta@)),
            delta_prefix(av.take(i as int), cat) == Ok::<Map<Seq<char>, Seq<char>>, DeltaFault>(
                assoc_map(pairs_view(delta@)),
            ),
        decreases args.len() - i,
    {
        let a = &args[i];
        proof {
            let t = av.take(i + 1);
            assert(t.drop_last() =~= av.take(i as int));
            assert(t.last() == a@);
            lemma_index_char(a@, '=');
        }
        let idx = match index_char_exec(a.as_str(), '=') {
            Some(x) => x,
            None => {
                proof {
                    lemma_delta_err_stays(av, i + 1, cat);
                }
                return Err(DeltaError::NotFlagValue(crate::text::copy(a)));
            },
        };
        if idx == 0 {
            proof {
                lemma_delta_err_stays(av, i + 1, cat);
            }
            return Err(DeltaError::NotFlagValue(crate::text::copy(a)));
        }
        let len = crate::text::char_len(a.as_str());
        let key0 = substring(a.as_str(), 0, idx);
        let value = substring(a.as_str(), idx + 1, len);
        assert(value@ == a@.skip(idx + 1));
        let key1 = trim_prefix_exec(key0.as_str(), "--");
        let dashed = replace_char_exec(key1.as_str(), '_', "-");
        if str_eq(dashed.as_str(), "tp") {
            assoc_set(&mut delta, owned("tensor-parallel-size"), value);
        } else {
            match catalog {
                Some(c) => {
                    let underscored = replace_char_exec(dashed.as_str(), '-', "_");
                    if !in_catalog(c, underscored.as_str()) {
                        proof {
                            lemma_delta_err_stays(av, i + 1, cat);
                        }
                        return Err(DeltaError::UnknownFlag(dashed));
                    }
                },
                None => {},
            }
            assoc_set(&mut delta, dashed, value);
        }
        i += 1;
    }
    assert(av.take(args.len() as int) =~= av);
    Ok(delta)
}

// ---------------------------------------------------------------------
// Goals
// ---------------------------------------------------------------------

/// Why a goal or floor was refused.
pub enum GoalError {
    /// A floor without "=value".
    NeedsValue,
    /// Not of the form metric@concurrency.
    NotMetricAtConcurrency,
    /// A metric other than total or per-stream.
    BadMetric(String),
    /// A concurrency that is not a positive integer.
    BadConcurrency,
}

/// The two parts of a floor "metric@conc=value": the goal text and the
/// value text; for a plain goal the whole text and no value.
pub open spec fn goal_split(s: Seq<char>, with_value: bool) -> Option<(Seq<char>, Seq<char>)> {
    if with_value {
        let eq = index_char(s, '=');
        if eq <= 0 { None } else { Some((s.take(eq), s.skip(eq + 1))) }
    } else {
        Some((s, seq![]))
    }
}

/// Splits a floor at its first '=' into goal and value text; a plain
/// goal passes whole. The value is a number the caller parses.
pub fn splitGoal(s: &str, withValue: bool) -> (r: Result<(String, String), GoalError>)
    ensures
        match (r, goal_split(s@, withValue)) {
            (Ok(p), Some(q)) => p.0@ == q.0 && p.1@ == q.1,
            (Err(GoalError::NeedsValue), None) => true,
            _ => false,
        },
{
    if !withValue {
        return Ok((owned(s), String::new()));
    }
    proof {
        lemma_index_char(s@, '=');
    }
    let eq = match index_char_exec(s, '=') {
        Some(e) => e,
        None => {
            return Err(GoalError::NeedsValue);
        },
    };
    if eq == 0 {
        return Err(GoalError::NeedsValue);
    }
    let len = crate::text::char_len(s);
    Ok((substring(s, 0, eq), substring(s, eq + 1, len)))
}

/// What is wrong with a goal's "metric@conc" text.
pub enum GoalFault {
    NotMetricAtConcurrency,
    BadMetric,
    BadConcurrency,
}

/// The metric and concurrency of "metric@conc": a metric of total or
/// per-stream, a concurrency of at least 1.
pub open spec fn goal_body(body: Seq<char>) -> Result<(Seq<char>, int), GoalFault> {
    let at = index_char(body, '@');
    if at <= 0 {
        Err(GoalFault::NotMetricAtConcurrency)
    } else {
        let metric = body.take(at);
        if metric != "total"@ && metric != "per-stream"@ {
            Err(GoalFault::BadMetric)
        } else {
            match parse_int(body.skip(at + 1)) {
                Some(c) => if c >= 1 { Ok((metric, c)) } else { Err(GoalFault::BadConcurrency) },
                None => Err(GoalFault::BadConcurrency),
            }
        }
    }
}

/// Parses the "metric@conc" part of a goal.
pub fn parseGoalBody(body: &str) -> (r: Result<(String, i64), GoalError>)
    ensures
        match (r, goal_body(body@)) {
            (Ok(p), Ok(q)) => p.0@ == q.0 && p.1 == q.1,
            (Err(GoalError::NotMetricAtConcurrency), Err(GoalFault::NotMetricAtConcurrency)) => true,
            (Err(GoalError::BadMetric(m)), Err(GoalFault::BadMetric)) => m@ == body@.take(index_char(body@, '@')),
            (Err(GoalError::BadConcurrency), Err(GoalFault::BadConcurrency)) => true,
            _ => false,
        },
{
    proof {
        lemma_index_char(body@, '@');
    }
    let at = match index_char_exec(body, '@') {
        Some(a) => a,
        None => {
            return Err(GoalError::NotMetricAtConcurrency);
        },
    };
    if at == 0 {
        return Err(GoalError::NotMetricAtConcurrency);
    }
    let metric = substring(body, 0, at);
    if !str_eq(metric.as_str(), "total") && !str_eq(metric.as_str(), "per-stream") {
        return Err(GoalError::BadMetric(metric));
    }
    let len = crate::text::char_len(body);
    let rest = substring(body, at + 1, len);
    match parse_int_exec(rest.as_str()) {
        Some(c) => if c >= 1 {
            Ok((metric, c))
        } else {
            Err(GoalError::BadConcurrency)
        },
        None => Err(GoalError::BadConcurrency),
    }
}

/// "total@32": a goal as typed.
pub fn goalString(metric: &str, conc: i64) -> (r: String)
    ensures
        r@ == metric@ + "@"@ + decimal(conc as int),
{
    let mut s = owned(metric);
    push_str(&mut s, "@");
    let c = int_to_string(conc);
    push_str(&mut s, c.as_str());
    s
}

/// A goal written by `goalString` reads back as the same goal: for a
/// metric of total or per-stream and a concurrency of at least one, the
/// text "metric@conc" parses to that metric and concurrency.
pub proof fn lemma_goal_round_trip(metric: Seq<char>, conc: int)
    requires
        metric == "total"@ || metric == "per-stream"@,
        1 <= conc <= i64::MAX,
    ensures
        goal_body(metric + "@"@ + decimal(conc)) == Ok::<(Seq<char>, int), GoalFault>((metric, conc)),
{
    reveal_strlit("total");
    reveal_strlit("per-stream");
    reveal_strlit("@");
    let s = metric + "@"@ + decimal(conc);
    let k = metric.len() as int;
    assert(s[k] == '@');
    assert forall|j: int| 0 <= j < k implies s[j] != '@' by {
        assert(s[j] == metric[j]);
    }
    crate::text::lemma_index_char_at(s, '@', k);
    assert(s.take(k) =~= metric);
    assert(s.skip(k + 1) =~= decimal(conc));
    crate::text::lemma_parse_decimal(conc);
}

// ---------------------------------------------------------------------
// Text helpers
// ---------------------------------------------------------------------

/// A pod's uptime: "3d4h", "2h15m", "7m", "42s", or "-" when unknown.
pub open spec fn uptime_text(secs: int) -> Seq<char> {
    let d = secs / 86400;
    let h = (secs % 86400) / 3600;
    let m = (secs % 3600) / 60;
    if secs <= 0 {
        "-"@
    } else if d > 0 {
        decimal(d) + "d"@ + decimal(h) + "h"@
    } else if h > 0 {
        decimal(h) + "h"@ + decimal(m) + "m"@
    } else if m > 0 {
        decimal(m) + "m"@
    } else {
        decimal(secs) + "s"@
    }
}

pub fn fmtUptime(secs: i64) -> (r: String)
    ensures
        r@ == uptime_text(secs as int),
{
    if secs <= 0 {
        return owned("-");
    }
    let d = secs / 86400;
    let h = (secs % 86400) / 3600;
    let m = (secs % 3600) / 60;
    let mut s = String::new();
    if d > 0 {
        let a = int_to_string(d);
        push_str(&mut s, a.as_str());
        push_str(&mut s, "d");
        let b = int_to_string(h);
        push_str(&mut s, b.as_str());
        push_str(&mut s, "h");
    } else if h > 0 {
        let a = int_to_string(h);
        push_str(&mut s, a.as_str());
        push_str(&mut s, "h");
        let b = int_to_string(m);
        push_str(&mut s, b.as_str());
        push_str(&mut s, "m");
    } else if m > 0 {
        let a = int_to_string(m);
        push_str(&mut s, a.as_str());
        push_str(&mut s, "m");
    } else {
        let a = int_to_string(secs);
        push_str(&mut s, a.as_str());
        push_str(&mut s, "s");
    }
    s
}

/// The base64 body of an ssh public key line ("ssh-ed25519 AAAA...
/// user"): its second field, or the whole text with fewer fields.
pub open spec fn key_part(pubkey: Seq<char>) -> Seq<char> {
    let f = fields(pubkey);
    if f.len() >= 2 { f[1] } else { pubkey }
}

pub fn keyPart(pubkey: &str) -> (r: String)
    ensures
        r@ == key_part(pubkey@),
{
    let f = fields_exec(pubkey);
    if f.len() >= 2 {
        assert(f.deep_view()[1] == f[1]@);
        return crate::text::copy(&f[1]);
    }
    owned(pubkey)
}

/// The vLLM config key a proposal's parameter ("--max-num-seqs 64",
/// "-tp 2") changes, in underscore form; "" for anything else.
pub open spec fn lever_key(param: Seq<char>) -> Seq<char> {
    let tok = splitn_char(param, ' ', 2)[0];
    if tok == "-tp"@ {
        "tensor_parallel_size"@
    } else if !has_prefix(tok, "--"@) {
        seq![]
    } else {
        replace_char(trim_prefix(tok, "--"@), '-', "_"@)
    }
}

pub fn leverKey(param: &str) -> (r: String)
    ensures
        r@ == lever_key(param@),
{
    let parts = splitn_char_exec(param, ' ', 2);
    proof {
        crate::text::lemma_splitn_len(param@, ' ', 2);
    }
    let tok = &parts[0];
    assert(tok@ == splitn_char(param@, ' ', 2)[0]);
    if str_eq(tok.as_str(), "-tp") {
        return owned("tensor_parallel_size");
    }
    if !has_prefix_exec(tok.as_str(), "--") {
        return String::new();
    }
    let t = trim_prefix_exec(tok.as_str(), "--");
    replace_char_exec(t.as_str(), '-', "_")
}

/// The content type an artifact is served with, by its extension.
pub open spec fn content_type(name: Seq<char>) -> Seq<char> {
    if has_suffix(name, ".svg"@) {
        "image/svg+xml"@
    } else if has_suffix(name, ".md"@) || has_suffix(name, ".txt"@) || has_suffix(name, ".csv"@)
        || has_suffix(name, ".log"@) {
        "text/plain; charset=utf-8"@
    } else if has_suffix(name, ".json"@) {
        "application/json"@
    } else if has_suffix(name, ".kvlm"@) {
        "application/gzip"@
    } else {
        "application/octet-stream"@
    }
}

pub fn artifactContentType(name: &str) -> (r: String)
    ensures
        r@ == content_type(name@),
{
    if has_suffix_exec(name, ".svg") {
        owned("image/svg+xml")
    } else if has_suffix_exec(name, ".md") || has_suffix_exec(name, ".txt") || has_suffix_exec(name, ".csv")
        || has_suffix_exec(name, ".log") {
        owned("text/plain; charset=utf-8")
    } else if has_suffix_exec(name, ".json") {
        owned("application/json")
    } else if has_suffix_exec(name, ".kvlm") {
        owned("application/gzip")
    } else {
        owned("application/octet-stream")
    }
}

/// Text escaped for a JSON string: backslash and double quote escaped,
/// newlines turned into spaces.
pub open spec fn json_esc(s: Seq<char>) -> Seq<char> {
    replace_char(replace_char(replace_char(s, '\\', "\\\\"@), '"', "\\\""@), '\n', " "@)
}

/// A JSON string body read back: a backslash takes the next character
/// literally; a lone trailing backslash reads as nothing.
pub open spec fn json_unescape(t: Seq<char>) -> Seq<char>
    decreases t.len(),
{
    if t.len() == 0 {
        seq![]
    } else if t[0] == '\\' {
        if t.len() >= 2 { seq![t[1]] + json_unescape(t.skip(2)) } else { seq![] }
    } else {
        seq![t[0]] + json_unescape(t.drop_first())
    }
}

proof fn lemma_replace_char_concat(a: Seq<char>, b: Seq<char>, c: char, w: Seq<char>)
    ensures
        replace_char(a + b, c, w) == replace_char(a, c, w) + replace_char(b, c, w),
    decreases a.len(),
{
    if a.len() == 0 {
        assert(a + b =~= b);
        assert(replace_char(a, c, w) =~= Seq::<char>::empty());
        assert(Seq::<char>::empty() + replace_char(b, c, w) =~= replace_char(b, c, w));
    } else {
        lemma_replace_char_concat(a.drop_first(), b, c, w);
        assert((a + b)[0] == a[0]);
        assert((a + b).drop_first() =~= a.drop_first() + b);
        let h: Seq<char> = if a[0] == c { w } else { seq![a[0]] };
        assert(replace_char(a + b, c, w) == h + replace_char(a.drop_first() + b, c, w));
        assert(replace_char(a, c, w) == h + replace_char(a.drop_first(), c, w));
        assert(h + (replace_char(a.drop_first(), c, w) + replace_char(b, c, w)) =~= (h + replace_char(
            a.drop_first(),
            c,
            w,
        )) + replace_char(b, c, w));
    }
}

proof fn lemma_replace_single(x: char, c: char, w: Seq<char>)
    ensures
        replace_char(seq![x], c, w) == if x == c { w } else { seq![x] },
{
    assert(seq![x].drop_first() =~= Seq::<char>::empty());
    assert(replace_char(Seq::<char>::empty(), c, w) =~= Seq::<char>::empty());
    assert(w + Seq::<char>::empty() =~= w);
    assert(seq![x] + Seq::<char>::empty() =~= seq![x]);
}

/// One character escaped as `jsonEsc` does.
spec fn esc_char(x: char) -> Seq<char> {
    if x == '\\' {
        seq!['\\', '\\']
    } else if x == '"' {
        seq!['\\', '"']
    } else if x == '\n' {
        seq![' ']
    } else {
        seq![x]
    }
}

proof fn lemma_json_esc_cons(x: char, rest: Seq<char>)
    ensures
        json_esc(seq![x] + rest) == esc_char(x) + json_esc(rest),
{
    reveal_strlit("\\\\");
    reveal_strlit("\\\"");
    reveal_strlit(" ");
    let one = seq![x];
    lemma_replace_char_concat(one, rest, '\\', "\\\\"@);
    let a1 = replace_char(one, '\\', "\\\\"@);
    let b1 = replace_char(rest, '\\', "\\\\"@);
    lemma_replace_char_concat(a1, b1, '"', "\\\""@);
    let a2 = replace_char(a1, '"', "\\\""@);
    let b2 = replace_char(b1, '"', "\\\""@);
    lemma_replace_char_concat(a2, b2, '\n', " "@);
    lemma_replace_single(x, '\\', "\\\\"@);
    if x == '\\' {
        assert(a1 =~= seq!['\\', '\\']);
        lemma_replace_char_concat(seq!['\\'], seq!['\\'], '"', "\\\""@);
        lemma_replace_single('\\', '"', "\\\""@);
        assert(seq!['\\'] + seq!['\\'] =~= seq!['\\', '\\']);
        assert(a2 =~= seq!['\\', '\\']);
        lemma_replace_char_concat(seq!['\\'], seq!['\\'], '\n', " "@);
        lemma_replace_single('\\', '\n', " "@);
        assert(replace_char(a2, '\n', " "@) =~= seq!['\\', '\\']);
    } else if x == '"' {
        assert(a1 =~= seq!['"']);
        lemma_replace_single('"', '"', "\\\""@);
        assert(a2 =~= seq!['\\', '"']);
        lemma_replace_char_concat(seq!['\\'], seq!['"'], '\n', " "@);
        lemma_replace_single('\\', '\n', " "@);
        lemma_replace_single('"', '\n', " "@);
        assert(seq!['\\'] + seq!['"'] =~= seq!['\\', '"']);
        assert(replace_char(a2, '\n', " "@) =~= seq!['\\', '"']);
    } else {
        assert(a1 =~= seq![x]);
        lemma_replace_single(x, '"', "\\\""@);
        assert(a2 =~= seq![x]);
        lemma_replace_single(x, '\n', " "@);
        assert(replace_char(a2, '\n', " "@) =~= esc_char(x));
    }
}

/// Escaping for JSON reads back: decoding the escaped text gives the
/// original with each newline turned into a space, and the escaped text
/// holds no raw newline.
pub proof fn lemma_json_esc_reads_back(s: Seq<char>)
    ensures
        json_unescape(json_esc(s)) == replace_char(s, '\n', " "@),
        !json_esc(s).contains('\n'),
    decreases s.len(),
{
    reveal_strlit(" ");
    if s.len() == 0 {
        assert(json_esc(s) =~= Seq::<char>::empty()) by {
            reveal_strlit("\\\\");
            reveal_strlit("\\\"");
        }
    } else {
        let x = s[0];
        let rest = s.drop_first();
        lemma_json_esc_reads_back(rest);
        assert(s =~= seq![x] + rest);
        lemma_json_esc_cons(x, rest);
        let e = esc_char(x) + json_esc(rest);
        if x == '\\' || x == '"' {
            assert(e[0] == '\\');
            assert(e.len() >= 2);
            assert(e[1] == x);
            assert(e.skip(2) =~= json_esc(rest));
        } else {
            assert(e[0] == esc_char(x)[0]);
            assert(e.drop_first() =~= json_esc(rest));
        }
        assert(replace_char(s, '\n', " "@) == (if x == '\n' { " "@ } else { seq![x] }) + replace_char(rest, '\n', " "@));
        assert(!e.contains('\n')) by {
            if e.contains('\n') {
                let j = choose|j: int| 0 <= j < e.len() && e[j] == '\n';
                if j >= esc_char(x).len() {
                    assert(json_esc(rest)[j - esc_char(x).len()] == '\n');
                }
            }
        }
    }
}

pub fn jsonEsc(s: &str) -> (r: String)
    ensures
        r@ == json_esc(s@),
{
    let a = replace_char_exec(s, '\\', "\\\\");
    let b = replace_char_exec(a.as_str(), '"', "\\\"");
    replace_char_exec(b.as_str(), '\n', " ")
}


/// `s` right-aligned to `w` bytes with leading spaces (unchanged when
/// it is already that long).
pub open spec fn pad_left(s: &str, w: int) -> Seq<char> {
    let n = s.spec_bytes().len();
    if n >= w { s@ } else { Seq::new((w - n) as nat, |i: int| ' ') + s@ }
}

/// Padding right-aligns: the text ends with `s` unchanged, everything
/// before it is spaces, and the width grows to `w` bytes only when `s`
/// is narrower.
pub proof fn lemma_pad_left_aligns(s: &str, w: int)
    ensures
        ({
            let r = pad_left(s, w);
            let n = s.spec_bytes().len();
            &&& r.len() >= s@.len()
            &&& r.skip(r.len() - s@.len()) == s@
            &&& forall|i: int| 0 <= i < r.len() - s@.len() ==> r[i] == ' '
            &&& n >= w ==> r == s@
            &&& n < w ==> r.len() == s@.len() + (w - n)
        }),
{
    let r = pad_left(s, w);
    let n = s.spec_bytes().len();
    if n < w {
        let pad = Seq::new((w - n) as nat, |i: int| ' ');
        assert(r == pad + s@);
        assert(r.skip(r.len() - s@.len()) =~= s@);
    } else {
        assert(r.skip(r.len() - s@.len()) =~= s@);
    }
}

pub fn padLeft(s: &str, w: i64) -> (r: String)
    requires
        w - s.spec_bytes().len() <= usize::MAX,
    ensures
        r@ == pad_left(s, w as int),
{
    let n = s.as_bytes().len();
    if (n as i128) >= (w as i128) {
        return owned(s);
    }
    assert(n == s.spec_bytes().len());
    let pad: usize = (w as i128 - n as i128) as usize;
    let mut r = String::new();
    let mut i: usize = 0;
    while i < pad
        invariant
            i <= pad,
            r@ == Seq::new(i as nat, |k: int| ' '),
        decreases pad - i,
    {
        push_char(&mut r, ' ');
        i += 1;
        assert(r@ =~= Seq::new(i as nat, |k: int| ' '));
    }
    push_str(&mut r, s);
    r
}

/// Why `apply` refuses to restart the target's server.
#[derive(PartialEq, Eq, Structural, Clone, Copy)]
pub enum ApplyRefusal {
    /// No target is recorded.
    NoTarget,
    /// The target was not launched by kvlm over ssh in profile mode.
    NotLaunchedForProfiling,
    /// `--reset` came with flag=value arguments.
    ResetWithArgs,
}

/// The guard of `apply`: only a recorded target that kvlm launched in
/// profile mode over ssh is ever restarted, and `--reset` takes no
/// arguments.
pub fn applyGuard(hasTarget: bool, mode: &str, ssh: &str, reset: bool, nargs: usize) -> (r: Result<(), ApplyRefusal>)
    ensures
        r == (if !hasTarget {
            Err::<(), ApplyRefusal>(ApplyRefusal::NoTarget)
        } else if mode@ != "profile"@ || ssh@.len() == 0 {
            Err(ApplyRefusal::NotLaunchedForProfiling)
        } else if reset && nargs > 0 {
            Err(ApplyRefusal::ResetWithArgs)
        } else {
            Ok(())
        }),
{
    if !hasTarget {
        return Err(ApplyRefusal::NoTarget);
    }
    if !str_eq(mode, "profile") || ssh.is_empty() {
        return Err(ApplyRefusal::NotLaunchedForProfiling);
    }
    if reset && nargs > 0 {
        return Err(ApplyRefusal::ResetWithArgs);
    }
    Ok(())
}

} // verus!
