//! Reading a collected capture: the regime a pressure run names, the
//! CUDA graphs of an Nsight Systems export, and GPU kernel time folded
//! into flame-graph stacks.
use vstd::prelude::*;
use crate::arith::{fits, tdiv, trunc_div};
use crate::text::{
    all_digits, char_len, chars_of, contains, contains_exec, decimal, has_suffix, has_suffix_exec,
    int_to_string, is_digit, owned, parse_int, parse_int_exec, push_str, splitn_char, splitn_char_exec,
    str_eq, substring,
};

verus! {

// ---------------------------------------------------------------------
// Pressure regime
// ---------------------------------------------------------------------

/// What bounds a server under pressure.
#[derive(PartialEq, Eq, Structural, Clone, Copy)]
pub enum Regime {
    /// Running sequences pinned at the --max-num-seqs cap.
    MaxNumSeqs,
    /// KV space: preemptions, or the cache at 90% or more.
    Kv,
    /// Neither: the offered load is the limit.
    Neither,
}

/// The regime of a pressure run from its peaks: running sequences
/// (whole), the scheduler cap when the server's config shows one,
/// preemptions in the window, and peak KV usage in thousandths. The
/// cap is checked first. With the measured peak of running sequences
/// rounded half up and the peak usage fraction times 1000 rounded down,
/// "at the cap" is a peak of at least the cap less one half, and the KV
/// bound a usage of at least 0.9.
pub open spec fn regime(peak_running: int, max_seqs: Option<int>, preemptions: int, kv_permille: int) -> Regime {
    if max_seqs is Some && peak_running >= max_seqs.unwrap() {
        Regime::MaxNumSeqs
    } else if preemptions > 0 || kv_permille >= 900 {
        Regime::Kv
    } else {
        Regime::Neither
    }
}

/// The regime's rule: a run at the scheduler cap is bound by the cap
/// whatever else happened; below it, any preemption or a KV cache at
/// 90% or more means KV bound; otherwise neither.
pub proof fn lemma_regime_rule(peak_running: int, max_seqs: Option<int>, preemptions: int, kv_permille: int)
    ensures
        (max_seqs matches Some(m) && peak_running >= m) ==> regime(peak_running, max_seqs, preemptions, kv_permille)
            == Regime::MaxNumSeqs,
        !(max_seqs matches Some(m) && peak_running >= m) && (preemptions > 0 || kv_permille >= 900) ==> regime(
            peak_running,
            max_seqs,
            preemptions,
            kv_permille,
        ) == Regime::Kv,
        !(max_seqs matches Some(m) && peak_running >= m) && preemptions <= 0 && kv_permille < 900 ==> regime(
            peak_running,
            max_seqs,
            preemptions,
            kv_permille,
        ) == Regime::Neither,
{
}

pub fn boundBy(peakRunning: i64, maxSeqs: Option<i64>, preemptions: i64, kvPermille: i64) -> (r: Regime)
    ensures
        r == regime(
            peakRunning as int,
            match maxSeqs {
                Some(m) => Some(m as int),
                None => None,
            },
            preemptions as int,
            kvPermille as int,
        ),
{
    match maxSeqs {
        Some(m) => if peakRunning >= m {
            return Regime::MaxNumSeqs;
        },
        None => {},
    }
    if preemptions > 0 || kvPermille >= 900 {
        Regime::Kv
    } else {
        Regime::Neither
    }
}

/// The regime's name as the sweep records it.
pub open spec fn regime_name(r: Regime) -> Seq<char> {
    match r {
        Regime::MaxNumSeqs => "max-num-seqs"@,
        Regime::Kv => "kv"@,
        Regime::Neither => "none"@,
    }
}

pub fn regimeName(r: Regime) -> (s: String)
    ensures
        s@ == regime_name(r),
{
    match r {
        Regime::MaxNumSeqs => owned("max-num-seqs"),
        Regime::Kv => owned("kv"),
        Regime::Neither => owned("none"),
    }
}

// ---------------------------------------------------------------------
// CUDA graphs
// ---------------------------------------------------------------------

/// One executable CUDA graph of a capture: its id, its node count, how
/// often it was replayed, and the kernel time it accounts for.
#[derive(PartialEq, Eq, Structural, Clone, Copy)]
pub struct GraphRow {
    pub ID: i64,
    pub Nodes: i64,
    pub Replays: i64,
    pub TotalNs: i64,
}

/// A whole number of a query column as `strconv::Atoi` reads it with its
/// error ignored: the value; for digits past the `i64` range, the bound
/// on their side; 0 for text that is not a number.
pub open spec fn num(s: Seq<char>) -> int {
    match parse_int(s) {
        Some(n) => n,
        None => {
            let neg = s.len() > 0 && s[0] == '-';
            let signed = s.len() > 0 && (s[0] == '-' || s[0] == '+');
            let body = if signed {
                s.drop_first()
            } else {
                s
            };
            if body.len() > 0 && all_digits(body) {
                if neg {
                    i64::MIN as int
                } else {
                    i64::MAX as int
                }
            } else {
                0
            }
        },
    }
}

fn num_exec(s: &str) -> (r: i64)
    ensures
        r == num(s@),
{
    match parse_int_exec(s) {
        Some(n) => n,
        None => {
            let v = chars_of(s);
            let neg = v.len() > 0 && v[0] == '-';
            let start: usize = if v.len() > 0 && (v[0] == '-' || v[0] == '+') {
                1
            } else {
                0
            };
            let ghost body = if start == 1 {
                s@.drop_first()
            } else {
                s@
            };
            assert(body =~= v@.skip(start as int));
            assert((start == 1) == (s@.len() > 0 && (s@[0] == '-' || s@[0] == '+')));
            assert(parse_int(s@) is None);
            if start >= v.len() {
                return 0;
            }
            let mut i: usize = start;
            while i < v.len()
                invariant
                    start <= i <= v.len(),
                    v@ == s@,
                    body == v@.skip(start as int),
                    body == (if start == 1 { s@.drop_first() } else { s@ }),
                    (start == 1) == (s@.len() > 0 && (s@[0] == '-' || s@[0] == '+')),
                    parse_int(s@) is None,
                    forall|j: int| start <= j < i ==> is_digit(#[trigger] v@[j]),
                decreases v.len() - i,
            {
                if !('0' <= v[i] && v[i] <= '9') {
                    assert(body[i - start] == v@[i as int]);
                    assert(!is_digit(body[i - start]));
                    assert(!all_digits(body));
                    return 0;
                }
                i += 1;
            }
            assert forall|j: int| 0 <= j < body.len() implies is_digit(#[trigger] body[j]) by {
                assert(body[j] == v@[j + start]);
            }
            if neg {
                i64::MIN
            } else {
                i64::MAX
            }
        },
    }
}

/// The graph a query row "id\tnodes\tkernels\tns" describes; none for a
/// short row or a graph without nodes. Replays are kernels per node.
pub open spec fn graph_row(row: Seq<char>) -> Option<GraphRow> {
    let p = splitn_char(row, '\t', 4);
    if p.len() < 4 || num(p[1]) == 0 {
        None
    } else {
        Some(
            GraphRow {
                ID: num(p[0]) as i64,
                Nodes: num(p[1]) as i64,
                Replays: tdiv(num(p[2]), num(p[1])) as i64,
                TotalNs: num(p[3]) as i64,
            },
        )
    }
}

/// A row whose kernels-per-node division is defined.
pub open spec fn graph_row_ok(row: Seq<char>) -> bool {
    let p = splitn_char(row, '\t', 4);
    p.len() >= 4 ==> !(num(p[2]) == i64::MIN && num(p[1]) == -1)
}

pub open spec fn graph_rows(rows: Seq<Seq<char>>) -> Seq<GraphRow>
    decreases rows.len(),
{
    if rows.len() == 0 {
        seq![]
    } else {
        graph_rows(rows.drop_last()) + match graph_row(rows.last()) {
            Some(g) => seq![g],
            None => seq![],
        }
    }
}

/// The graphs of the inventory query's rows, in row order.
pub fn parseGraphRows(rows: &Vec<String>) -> (r: Vec<GraphRow>)
    requires
        forall|i: int| 0 <= i < rows.len() ==> graph_row_ok(#[trigger] rows.deep_view()[i]),
    ensures
        r@ == graph_rows(rows.deep_view()),
{
    let ghost rv = rows.deep_view();
    let mut out: Vec<GraphRow> = Vec::new();
    let mut i: usize = 0;
    assert(rv.take(0) =~= Seq::<Seq<char>>::empty());
    while i < rows.len()
        invariant
            i <= rows.len(),
            rv == rows.deep_view(),
            forall|k: int| 0 <= k < rows.len() ==> graph_row_ok(#[trigger] rv[k]),
            out@ == graph_rows(rv.take(i as int)),
        decreases rows.len() - i,
    {
        proof {
            let t = rv.take(i + 1);
            assert(t.drop_last() =~= rv.take(i as int));
            assert(t.last() == rows[i as int]@);
            assert(graph_row_ok(rv[i as int]));
        }
        let p = splitn_char_exec(rows[i].as_str(), '\t', 4);
        if p.len() >= 4 {
            proof {
                assert(p.deep_view()[0] == p[0]@);
                assert(p.deep_view()[1] == p[1]@);
                assert(p.deep_view()[2] == p[2]@);
                assert(p.deep_view()[3] == p[3]@);
            }
            let id = num_exec(p[0].as_str());
            let nodes = num_exec(p[1].as_str());
            let execs = num_exec(p[2].as_str());
            let total = num_exec(p[3].as_str());
            if nodes != 0 {
                let replays = trunc_div(execs, nodes);
                out.push(GraphRow { ID: id, Nodes: nodes, Replays: replays, TotalNs: total });
            }
        }
        i += 1;
        assert(out@ =~= graph_rows(rv.take(i as int)));
    }
    assert(rv.take(rows.len() as int) =~= rv);
    out
}

/// Graphs heaviest first by kernel time; equal times keep their order.
pub open spec fn heaviest_graphs_first(input: Seq<GraphRow>, out: Seq<GraphRow>) -> bool {
    &&& out.to_multiset() == input.to_multiset()
    &&& forall|i: int, j: int| 0 <= i < j < out.len() ==> out[i].TotalNs >= out[j].TotalNs
}

/// `out` takes the graphs of `input` in the order `o` (each input index
/// once): heavier first, graphs of equal time in input order.
pub open spec fn stable_by_time(input: Seq<GraphRow>, out: Seq<GraphRow>, o: Seq<int>) -> bool {
    &&& o.len() == out.len()
    &&& forall|k: int| 0 <= k < o.len() ==> 0 <= #[trigger] o[k] < input.len() && out[k] == input[o[k]]
    &&& forall|a: int, b: int| 0 <= a < b < o.len() ==> o[a] != o[b]
    &&& forall|a: int, b: int|
        0 <= a < b < o.len() ==> input[o[a]].TotalNs > input[o[b]].TotalNs || (input[o[a]].TotalNs
            == input[o[b]].TotalNs && o[a] < o[b])
}

/// Sorts graphs by kernel time, heaviest first (a stable insertion
/// sort: a graph moves up only past strictly lighter ones).
pub fn sortGraphs(gs: Vec<GraphRow>) -> (r: Vec<GraphRow>)
    ensures
        heaviest_graphs_first(gs@, r@),
        exists|o: Seq<int>| stable_by_time(gs@, r@, o),
{
    let ghost mut o: Seq<int> = seq![];
    let mut r: Vec<GraphRow> = Vec::new();
    let mut i: usize = 0;
    assert(gs@.take(0) =~= Seq::<GraphRow>::empty());
    while i < gs.len()
        invariant
            i <= gs.len(),
            r@.to_multiset() == gs@.take(i as int).to_multiset(),
            forall|a: int, b: int| 0 <= a < b < r@.len() ==> r@[a].TotalNs >= r@[b].TotalNs,
            r@.len() == i,
            stable_by_time(gs@, r@, o),
            forall|k: int| 0 <= k < o.len() ==> #[trigger] o[k] < i,
        decreases gs.len() - i,
    {
        let g = gs[i];
        let mut p: usize = r.len();
        while p > 0 && r[p - 1].TotalNs < g.TotalNs
            invariant
                p <= r.len(),
                forall|a: int, b: int| 0 <= a < b < r@.len() ==> r@[a].TotalNs >= r@[b].TotalNs,
                forall|k: int| p <= k < r@.len() ==> r@[k].TotalNs < g.TotalNs,
            decreases p,
        {
            p -= 1;
        }
        let ghost before = r@;
        let ghost ob = o;
        proof {
            assert forall|k: int| 0 <= k < p implies before[k].TotalNs >= g.TotalNs by {
                if k < p - 1 {
                    assert(before[k].TotalNs >= before[p - 1].TotalNs);
                }
            }
        }
        r.insert(p, g);
        proof {
            o = ob.insert(p as int, i as int);
            assert forall|k: int| 0 <= k < o.len() implies 0 <= #[trigger] o[k] < gs@.len() && r@[k] == gs@[o[k]] && o[k] < i + 1 by {
                if k < p {
                    assert(o[k] == ob[k]);
                } else if k > p {
                    assert(o[k] == ob[k - 1]);
                }
            }
            assert forall|a: int, b: int| 0 <= a < b < o.len() implies o[a] != o[b] by {
                if a < p && b < p {
                    assert(o[a] == ob[a] && o[b] == ob[b]);
                } else if a < p && b == p {
                    assert(o[a] == ob[a]);
                } else if a < p && b > p {
                    assert(o[a] == ob[a] && o[b] == ob[b - 1]);
                } else if a == p {
                    assert(o[b] == ob[b - 1]);
                } else {
                    assert(o[a] == ob[a - 1] && o[b] == ob[b - 1]);
                }
            }
            assert forall|a: int, b: int| 0 <= a < b < o.len() implies gs@[o[a]].TotalNs > gs@[o[b]].TotalNs
                || (gs@[o[a]].TotalNs == gs@[o[b]].TotalNs && o[a] < o[b]) by {
                if a < p && b < p {
                    assert(o[a] == ob[a] && o[b] == ob[b]);
                } else if a < p && b == p {
                    assert(o[a] == ob[a]);
                    assert(gs@[o[a]] == before[a]);
                } else if a < p && b > p {
                    assert(o[a] == ob[a] && o[b] == ob[b - 1]);
                } else if a == p {
                    assert(o[b] == ob[b - 1]);
                    assert(gs@[o[b]] == before[b - 1]);
                } else {
                    assert(o[a] == ob[a - 1] && o[b] == ob[b - 1]);
                }
            }
            assert forall|a: int, b: int| 0 <= a < b < r@.len() implies r@[a].TotalNs >= r@[b].TotalNs by {
                if a < p && b < p {
                    assert(r@[a] == before[a] && r@[b] == before[b]);
                } else if a < p && b == p {
                    assert(r@[a] == before[a]);
                } else if a < p && b > p {
                    assert(r@[a] == before[a] && r@[b] == before[b - 1]);
                } else if a == p {
                    assert(r@[b] == before[b - 1]);
                } else {
                    assert(r@[a] == before[a - 1] && r@[b] == before[b - 1]);
                }
            }
            vstd::seq_lib::to_multiset_insert(before, p as int, g);
            assert(gs@.take(i + 1) =~= gs@.take(i as int).push(g));
            vstd::seq_lib::to_multiset_build(gs@.take(i as int), g);
        }
        i += 1;
    }
    assert(gs@.take(gs.len() as int) =~= gs@);
    assert(stable_by_time(gs@, r@, o));
    r
}

/// A graph with the primary's node roster under another id.
pub open spec fn same_roster(g: GraphRow, p: GraphRow) -> bool {
    g.ID != p.ID && g.Nodes == p.Nodes
}

/// Index of the first graph with the roster of `p`, or -1.
pub open spec fn first_same_roster(gs: Seq<GraphRow>, p: GraphRow) -> int
    decreases gs.len(),
{
    if gs.len() == 0 {
        -1
    } else if same_roster(gs[0], p) {
        0
    } else {
        let k = first_same_roster(gs.drop_first(), p);
        if k < 0 { -1 } else { k + 1 }
    }
}

proof fn lemma_first_same_roster(gs: Seq<GraphRow>, p: GraphRow, k: int)
    requires
        -1 <= k < gs.len(),
        k >= 0 ==> same_roster(gs[k], p),
        forall|j: int| 0 <= j < gs.len() && (k < 0 || j < k) ==> !same_roster(gs[j], p),
    ensures
        first_same_roster(gs, p) == k,
    decreases gs.len(),
{
    if gs.len() > 0 && k != 0 {
        assert forall|j: int|
            0 <= j < gs.drop_first().len() && (k - 1 < 0 || j < k - 1) implies !same_roster(gs.drop_first()[j], p) by {
            assert(gs.drop_first()[j] == gs[j + 1]);
        }
        if k > 0 {
            assert(gs.drop_first()[k - 1] == gs[k]);
            lemma_first_same_roster(gs.drop_first(), p, k - 1);
        } else {
            lemma_first_same_roster(gs.drop_first(), p, -1);
        }
    }
}

/// The graph compared against the primary (the first): the first graph
/// with the same node count under another id, the same roster at
/// another batch size; 0 for none.
pub open spec fn comparison_id(gs: Seq<GraphRow>) -> int {
    let k = first_same_roster(gs, gs[0]);
    if k >= 0 { gs[k].ID as int } else { 0 }
}

/// Why a capture yields no graph to analyse.
#[derive(PartialEq, Eq, Structural, Clone, Copy)]
pub enum GraphError {
    /// No kernel ran inside a CUDA graph: the capture was not recorded
    /// with node-level graph tracing.
    NoGraphNodes,
}

/// The graphs of a capture, heaviest first (ties in capture order), or
/// the error when it holds none.
pub fn rankGraphs(gs: Vec<GraphRow>) -> (r: Result<Vec<GraphRow>, GraphError>)
    ensures
        r is Err <==> gs@.len() == 0,
        r matches Err(e) ==> e == GraphError::NoGraphNodes,
        r matches Ok(v) ==> heaviest_graphs_first(gs@, v@) && exists|o: Seq<int>| stable_by_time(gs@, v@, o),
{
    if gs.len() == 0 {
        return Err(GraphError::NoGraphNodes);
    }
    Ok(sortGraphs(gs))
}

/// The graphs the summary lists: the first eight.
pub fn listedGraphs(gs: &Vec<GraphRow>) -> (r: Vec<GraphRow>)
    ensures
        r@ == gs@.take(if gs@.len() < 8 { gs@.len() as int } else { 8 }),
{
    let n: usize = if gs.len() < 8 { gs.len() } else { 8 };
    let mut r: Vec<GraphRow> = Vec::new();
    let mut i: usize = 0;
    while i < n
        invariant
            i <= n,
            n <= gs.len(),
            r@ == gs@.take(i as int),
        decreases n - i,
    {
        r.push(gs[i]);
        i += 1;
        assert(r@ =~= gs@.take(i as int));
    }
    r
}

pub fn comparisonGraph(gs: &Vec<GraphRow>) -> (r: i64)
    requires
        gs.len() > 0,
    ensures
        r == comparison_id(gs@),
{
    let primary = gs[0];
    let mut i: usize = 0;
    while i < gs.len()
        invariant
            gs.len() > 0,
            primary == gs@[0],
            i <= gs.len(),
            forall|j: int| 0 <= j < i ==> !same_roster(gs@[j], primary),
        decreases gs.len() - i,
    {
        let g = gs[i];
        if g.ID != primary.ID && g.Nodes == primary.Nodes {
            proof {
                lemma_first_same_roster(gs@, primary, i as int);
            }
            return g.ID;
        }
        i += 1;
    }
    proof {
        lemma_first_same_roster(gs@, primary, -1);
    }
    0
}

// ---------------------------------------------------------------------
// GPU time folded by kernel
// ---------------------------------------------------------------------

/// Kernel time under one scope ("eager" or "in cuda graph"), kernel
/// name and launch grid.
pub struct KernelTime {
    pub Scope: String,
    pub Name: String,
    pub Grid: String,
    pub Ns: i64,
}

pub type KernelKey = (Seq<char>, Seq<char>, Seq<char>);

pub open spec fn kt_key(k: KernelTime) -> KernelKey {
    (k.Scope@, k.Name@, k.Grid@)
}

/// Index of the first entry with key `key`, or -1.
pub open spec fn agg_index(agg: Seq<(KernelKey, int)>, key: KernelKey) -> int
    decreases agg.len(),
{
    if agg.len() == 0 {
        -1
    } else if agg[0].0 == key {
        0
    } else {
        let k = agg_index(agg.drop_first(), key);
        if k < 0 { -1 } else { k + 1 }
    }
}

proof fn lemma_agg_index(agg: Seq<(KernelKey, int)>, key: KernelKey, k: int)
    requires
        -1 <= k < agg.len(),
        k >= 0 ==> agg[k].0 == key,
        forall|j: int| 0 <= j < agg.len() && (k < 0 || j < k) ==> agg[j].0 != key,
    ensures
        agg_index(agg, key) == k,
    decreases agg.len(),
{
    if agg.len() > 0 && k != 0 {
        assert forall|j: int|
            0 <= j < agg.drop_first().len() && (k - 1 < 0 || j < k - 1) implies agg.drop_first()[j].0 != key by {
            assert(agg.drop_first()[j] == agg[j + 1]);
        }
        if k > 0 {
            assert(agg.drop_first()[k - 1] == agg[k]);
            lemma_agg_index(agg.drop_first(), key, k - 1);
        } else {
            lemma_agg_index(agg.drop_first(), key, -1);
        }
    }
}

/// Kernel times summed per (scope, name, grid), keys in first-seen
/// order.
pub open spec fn aggregate(rows: Seq<KernelTime>) -> Seq<(KernelKey, int)>
    decreases rows.len(),
{
    if rows.len() == 0 {
        seq![]
    } else {
        let a = aggregate(rows.drop_last());
        let r = rows.last();
        let k = agg_index(a, kt_key(r));
        if k >= 0 {
            a.update(k, (a[k].0, a[k].1 + r.Ns))
        } else {
            a.push((kt_key(r), r.Ns as int))
        }
    }
}

/// Every running sum of the aggregation fits an `i64`.
pub open spec fn aggregate_ok(rows: Seq<KernelTime>) -> bool
    decreases rows.len(),
{
    if rows.len() == 0 {
        true
    } else {
        let a = aggregate(rows.drop_last());
        let k = agg_index(a, kt_key(rows.last()));
        aggregate_ok(rows.drop_last()) && (k >= 0 ==> fits(a[k].1 + rows.last().Ns))
    }
}

/// Whether another entry shares the scope and kernel name of entry `i`
/// (the kernel ran with several grids).
pub open spec fn several_grids(agg: Seq<(KernelKey, int)>, i: int) -> bool {
    exists|j: int| 0 <= j < agg.len() && j != i && (#[trigger] agg[j]).0.0 == agg[i].0.0 && agg[j].0.1 == agg[i].0.1
}

/// One folded line: "scope;name ns", with a "grid_<grid>" frame when
/// the kernel ran with several grids.
pub open spec fn folded_line(agg: Seq<(KernelKey, int)>, i: int) -> Seq<char> {
    let e = agg[i];
    e.0.0 + ";"@ + e.0.1 + (if several_grids(agg, i) { ";grid_"@ + e.0.2 } else { seq![] }) + " "@
        + decimal(e.1) + "\n"@
}

pub open spec fn folded_lines(agg: Seq<(KernelKey, int)>, n: int) -> Seq<char>
    decreases n,
{
    if n <= 0 {
        seq![]
    } else {
        folded_lines(agg, n - 1) + folded_line(agg, n - 1)
    }
}

/// The folded stacks of GPU kernel time: one line per (scope, kernel,
/// grid) with its summed nanoseconds.
pub open spec fn folded_kernels(rows: Seq<KernelTime>) -> Seq<char> {
    folded_lines(aggregate(rows), aggregate(rows).len() as int)
}

pub open spec fn entry_view(e: (String, String, String, i64)) -> (KernelKey, int) {
    ((e.0@, e.1@, e.2@), e.3 as int)
}

/// Folds kernel times into flame-graph stacks of GPU time.
pub fn foldKernels(rows: &Vec<KernelTime>) -> (r: String)
    requires
        aggregate_ok(rows@),
    ensures
        r@ == folded_kernels(rows@),
{
    let mut agg: Vec<(String, String, String, i64)> = Vec::new();
    let mut i: usize = 0;
    assert(rows@.take(0) =~= Seq::<KernelTime>::empty());
    while i < rows.len()
        invariant
            i <= rows.len(),
            aggregate_ok(rows@),
            agg@.map_values(|e: (String, String, String, i64)| entry_view(e)) == aggregate(rows@.take(i as int)),
        decreases rows.len() - i,
    {
        let r = &rows[i];
        let ghost av = agg@.map_values(|e: (String, String, String, i64)| entry_view(e));
        proof {
            let t = rows@.take(i + 1);
            assert(t.drop_last() =~= rows@.take(i as int));
            assert(t.last() == *r);
            lemma_aggregate_ok_prefix(rows@, i + 1);
        }
        let mut k: usize = 0;
        let mut found = false;
        while !found && k < agg.len()
            invariant
                k <= agg.len(),
                av == agg@.map_values(|e: (String, String, String, i64)| entry_view(e)),
                forall|j: int| 0 <= j < k ==> av[j].0 != kt_key(*r),
                found ==> k < agg.len() && av[k as int].0 == kt_key(*r),
            decreases agg.len() - k + if found { 0int } else { 1int },
        {
            assert(av[k as int] == entry_view(agg@[k as int]));
            if str_eq(agg[k].0.as_str(), r.Scope.as_str()) && str_eq(agg[k].1.as_str(), r.Name.as_str())
                && str_eq(agg[k].2.as_str(), r.Grid.as_str()) {
                found = true;
            } else {
                k += 1;
            }
        }
        if found {
            proof {
                lemma_agg_index(av, kt_key(*r), k as int);
            }
            let e = &agg[k];
            let updated = (crate::text::copy(&e.0), crate::text::copy(&e.1), crate::text::copy(&e.2), e.3 + r.Ns);
            agg.set(k, updated);
            assert(agg@.map_values(|e: (String, String, String, i64)| entry_view(e)) =~= av.update(
                k as int,
                (av[k as int].0, av[k as int].1 + r.Ns),
            ));
        } else {
            proof {
                lemma_agg_index(av, kt_key(*r), -1);
            }
            agg.push((crate::text::copy(&r.Scope), crate::text::copy(&r.Name), crate::text::copy(&r.Grid), r.Ns));
            assert(agg@.map_values(|e: (String, String, String, i64)| entry_view(e)) =~= av.push(
                (kt_key(*r), r.Ns as int),
            ));
        }
        i += 1;
    }
    assert(rows@.take(rows.len() as int) =~= rows@);
    let ghost av = agg@.map_values(|e: (String, String, String, i64)| entry_view(e));
    let mut out = String::new();
    let mut a: usize = 0;
    while a < agg.len()
        invariant
            a <= agg.len(),
            av == agg@.map_values(|e: (String, String, String, i64)| entry_view(e)),
            out@ == folded_lines(av, a as int),
        decreases agg.len() - a,
    {
        let mut multi = false;
        let mut j: usize = 0;
        while j < agg.len()
            invariant
                a < agg.len(),
                j <= agg.len(),
                av == agg@.map_values(|e: (String, String, String, i64)| entry_view(e)),
                multi == exists|w: int|
                    0 <= w < j && w != a && (#[trigger] av[w]).0.0 == av[a as int].0.0 && av[w].0.1 == av[a as int].0.1,
            decreases agg.len() - j,
        {
            assert(av[j as int] == entry_view(agg@[j as int]));
            assert(av[a as int] == entry_view(agg@[a as int]));
            if j != a && str_eq(agg[j].0.as_str(), agg[a].0.as_str()) && str_eq(agg[j].1.as_str(), agg[a].1.as_str()) {
                multi = true;
            }
            j += 1;
        }
        assert(av[a as int] == entry_view(agg@[a as int]));
        let e = &agg[a];
        push_str(&mut out, e.0.as_str());
        push_str(&mut out, ";");
        push_str(&mut out, e.1.as_str());
        if multi {
            push_str(&mut out, ";grid_");
            push_str(&mut out, e.2.as_str());
        }
        push_str(&mut out, " ");
        let n = int_to_string(e.3);
        push_str(&mut out, n.as_str());
        push_str(&mut out, "\n");
        a += 1;
    }
    out
}

proof fn lemma_aggregate_ok_prefix(rows: Seq<KernelTime>, k: int)
    requires
        aggregate_ok(rows),
        0 < k <= rows.len(),
    ensures
        aggregate_ok(rows.take(k)),
    decreases rows.len() - k,
{
    if k < rows.len() {
        assert(rows.drop_last().take(k) =~= rows.take(k));
        lemma_aggregate_ok_prefix(rows.drop_last(), k);
    } else {
        assert(rows.take(k) =~= rows);
    }
}

// ---------------------------------------------------------------------
// The effective vLLM config of a capture
// ---------------------------------------------------------------------

/// The first non-empty value of `key` in `kvs`, or "" when there is none.
pub open spec fn first_set(kvs: Seq<(Seq<char>, Seq<char>)>, key: Seq<char>) -> Seq<char>
    decreases kvs.len(),
{
    if kvs.len() == 0 {
        seq![]
    } else if kvs[0].0 == key && kvs[0].1.len() > 0 {
        kvs[0].1
    } else {
        first_set(kvs.drop_first(), key)
    }
}

/// Each relevant key with its effective value: the resolved config's,
/// else the explicit flag's, else the flag catalog's default; keys with
/// no value anywhere are left out.
pub open spec fn effective_config(
    keys: Seq<Seq<char>>,
    resolved: Seq<(Seq<char>, Seq<char>)>,
    explicit: Seq<(Seq<char>, Seq<char>)>,
    catalog: Seq<(Seq<char>, Seq<char>)>,
) -> Seq<(Seq<char>, Seq<char>)>
    decreases keys.len(),
{
    if keys.len() == 0 {
        seq![]
    } else {
        let prev = effective_config(keys.drop_last(), resolved, explicit, catalog);
        let k = keys.last();
        let v = first_set(resolved + explicit + catalog, k);
        if v.len() > 0 {
            prev.push((k, v))
        } else {
            prev
        }
    }
}

proof fn lemma_first_set_concat(a: Seq<(Seq<char>, Seq<char>)>, b: Seq<(Seq<char>, Seq<char>)>, key: Seq<char>)
    ensures
        first_set(a + b, key) == if first_set(a, key).len() > 0 {
            first_set(a, key)
        } else {
            first_set(b, key)
        },
    decreases a.len(),
{
    if a.len() > 0 {
        assert((a + b).drop_first() =~= a.drop_first() + b);
        assert((a + b)[0] == a[0]);
        lemma_first_set_concat(a.drop_first(), b, key);
    } else {
        assert(a + b =~= b);
    }
}

fn first_set_exec(kvs: &Vec<(String, String)>, key: &str) -> (r: String)
    ensures
        r@ == first_set(crate::runs::kv_view(kvs@), key@),
{
    let ghost kv = crate::runs::kv_view(kvs@);
    let mut i: usize = 0;
    assert(kv.skip(0) =~= kv);
    while i < kvs.len()
        invariant
            i <= kvs.len(),
            kv == crate::runs::kv_view(kvs@),
            first_set(kv, key@) == first_set(kv.skip(i as int), key@),
        decreases kvs.len() - i,
    {
        proof {
            let t = kv.skip(i as int);
            assert(t[0] == (kvs@[i as int].0@, kvs@[i as int].1@));
            assert(t.drop_first() =~= kv.skip(i + 1));
        }
        if str_eq(kvs[i].0.as_str(), key) && !kvs[i].1.as_str().is_empty() {
            return crate::text::copy(&kvs[i].1);
        }
        i += 1;
    }
    String::new()
}

/// The value a key takes by precedence: the resolved config's, else the
/// explicit flag's, else the flag catalog's default ("" when none sets
/// it).
pub open spec fn by_precedence(
    resolved: Seq<(Seq<char>, Seq<char>)>,
    explicit: Seq<(Seq<char>, Seq<char>)>,
    catalog: Seq<(Seq<char>, Seq<char>)>,
    k: Seq<char>,
) -> Seq<char> {
    if first_set(resolved, k).len() > 0 {
        first_set(resolved, k)
    } else if first_set(explicit, k).len() > 0 {
        first_set(explicit, k)
    } else {
        first_set(catalog, k)
    }
}

/// An entry of the effective config: a relevant key, set, with its value
/// by precedence.
pub open spec fn effective_is_by_precedence(
    keys: Seq<Seq<char>>,
    resolved: Seq<(Seq<char>, Seq<char>)>,
    explicit: Seq<(Seq<char>, Seq<char>)>,
    catalog: Seq<(Seq<char>, Seq<char>)>,
    e: (Seq<char>, Seq<char>),
) -> bool {
    keys.contains(e.0) && e.1.len() > 0 && e.1 == by_precedence(resolved, explicit, catalog, e.0)
}

/// The effective config is the relevant keys with their values by
/// precedence (resolved, then explicit, then the catalog default): every
/// key that some source sets appears with that value, and nothing else
/// appears.
pub proof fn lemma_effective_config_precedence(
    keys: Seq<Seq<char>>,
    resolved: Seq<(Seq<char>, Seq<char>)>,
    explicit: Seq<(Seq<char>, Seq<char>)>,
    catalog: Seq<(Seq<char>, Seq<char>)>,
)
    ensures
        forall|j: int|
            0 <= j < effective_config(keys, resolved, explicit, catalog).len() ==> effective_is_by_precedence(
                keys,
                resolved,
                explicit,
                catalog,
                #[trigger] effective_config(keys, resolved, explicit, catalog)[j],
            ),
        forall|i: int|
            0 <= i < keys.len() && by_precedence(resolved, explicit, catalog, #[trigger] keys[i]).len() > 0
                ==> effective_config(keys, resolved, explicit, catalog).contains(
                (keys[i], by_precedence(resolved, explicit, catalog, keys[i])),
            ),
    decreases keys.len(),
{
    if keys.len() > 0 {
        let pre = keys.drop_last();
        lemma_effective_config_precedence(pre, resolved, explicit, catalog);
        let k = keys.last();
        lemma_first_set_concat(resolved, explicit + catalog, k);
        lemma_first_set_concat(explicit, catalog, k);
        assert(resolved + explicit + catalog =~= resolved + (explicit + catalog));
        let v = first_set(resolved + explicit + catalog, k);
        assert(v == by_precedence(resolved, explicit, catalog, k));
        let prev = effective_config(pre, resolved, explicit, catalog);
        let eff = effective_config(keys, resolved, explicit, catalog);
        assert(eff == if v.len() > 0 { prev.push((k, v)) } else { prev });
        assert forall|j: int| 0 <= j < eff.len() implies effective_is_by_precedence(
            keys,
            resolved,
            explicit,
            catalog,
            #[trigger] eff[j],
        ) by {
            if j < prev.len() {
                assert(eff[j] == prev[j]);
                assert(effective_is_by_precedence(pre, resolved, explicit, catalog, prev[j]));
                let i = choose|i: int| 0 <= i < pre.len() && pre[i] == prev[j].0;
                assert(keys[i] == pre[i]);
            } else {
                assert(keys[keys.len() - 1] == k);
            }
        }
        assert forall|i: int|
            0 <= i < keys.len() && by_precedence(resolved, explicit, catalog, #[trigger] keys[i]).len() > 0 implies eff.contains(
            (keys[i], by_precedence(resolved, explicit, catalog, keys[i])),
        ) by {
            if i < pre.len() {
                assert(keys[i] == pre[i]);
                let e = (pre[i], by_precedence(resolved, explicit, catalog, pre[i]));
                let j = choose|j: int| 0 <= j < prev.len() && prev[j] == e;
                assert(eff[j] == prev[j]);
            } else {
                assert(eff[prev.len() as int] == (k, v));
            }
        }
    }
}

/// The effective value of each relevant key: resolved config first, then
/// the explicit flags, then the catalog's defaults.
pub fn effectiveConfig(
    keys: &Vec<String>,
    resolved: &Vec<(String, String)>,
    explicit: &Vec<(String, String)>,
    catalog: &Vec<(String, String)>,
) -> (r: Vec<(String, String)>)
    ensures
        crate::runs::kv_view(r@) == effective_config(
            keys.deep_view(),
            crate::runs::kv_view(resolved@),
            crate::runs::kv_view(explicit@),
            crate::runs::kv_view(catalog@),
        ),
{
    let ghost rv = crate::runs::kv_view(resolved@);
    let ghost ev = crate::runs::kv_view(explicit@);
    let ghost cv = crate::runs::kv_view(catalog@);
    let mut out: Vec<(String, String)> = Vec::new();
    let mut i: usize = 0;
    assert(keys.deep_view().take(0) =~= Seq::<Seq<char>>::empty());
    while i < keys.len()
        invariant
            i <= keys.len(),
            rv == crate::runs::kv_view(resolved@),
            ev == crate::runs::kv_view(explicit@),
            cv == crate::runs::kv_view(catalog@),
            crate::runs::kv_view(out@) == effective_config(keys.deep_view().take(i as int), rv, ev, cv),
        decreases keys.len() - i,
    {
        let k = keys[i].as_str();
        let mut v = first_set_exec(resolved, k);
        if v.as_str().is_empty() {
            v = first_set_exec(explicit, k);
        }
        if v.as_str().is_empty() {
            v = first_set_exec(catalog, k);
        }
        proof {
            lemma_first_set_concat(rv, ev, k@);
            lemma_first_set_concat(rv + ev, cv, k@);
            let t = keys.deep_view().take(i + 1);
            assert(t.drop_last() =~= keys.deep_view().take(i as int));
            assert(t.last() == k@);
        }
        let ghost before = crate::runs::kv_view(out@);
        if !v.as_str().is_empty() {
            let ghost vv = v@;
            out.push((crate::text::copy(&keys[i]), v));
            assert(crate::runs::kv_view(out@) =~= before.push((k@, vv)));
        }
        i += 1;
    }
    assert(keys.deep_view().take(keys.len() as int) =~= keys.deep_view());
    out
}

// ---------------------------------------------------------------------
// The GPU-busy timeline of a capture
// ---------------------------------------------------------------------

/// The zero entries of bins `from` up to `to`, comma-separated after the
/// first bin of a series.
pub open spec fn zero_fill(from: int, to: int) -> Seq<char>
    decreases to - from,
{
    if to <= from {
        seq![]
    } else {
        zero_fill(from, to - 1) + (if to - 1 > 0 { ","@ } else { seq![] }) + "0"@
    }
}

/// A bin's busy percentage: busy time over bin time, truncated, at most
/// 100 (a kernel counts in the bin it starts in, so a bin can overflow).
pub open spec fn busy_pct(busy: int, bin_ns: int) -> int {
    let p = tdiv(100 * busy, bin_ns);
    if p > 100 { 100 } else { p }
}

/// The timeline after one query row "device\tbin\tbusyNs": (current
/// device, next bin to write, text so far). A new device closes the open
/// series and starts its own; bins missing before the row's bin are
/// written as zeros; rows past the last bin are dropped.
pub open spec fn timeline_row(st: (int, int, Seq<char>), row: Seq<char>, bin_ns: int, bins: int) -> (int, int, Seq<char>) {
    let p = splitn_char(row, '\t', 3);
    if p.len() < 3 {
        st
    } else {
        let dev = num(p[0]);
        let bin = num(p[1]);
        let busy = num(p[2]);
        let (cur, next, out) = if dev != st.0 {
            (
                dev,
                0int,
                st.2 + (if st.0 >= 0 { "]}, "@ } else { seq![] }) + "{\"device\": "@ + decimal(dev)
                    + ", \"busy\": ["@,
            )
        } else {
            st
        };
        if bin >= bins {
            (cur, next, out)
        } else {
            let at = if next < bin { bin } else { next };
            (
                cur,
                at + 1,
                out + zero_fill(next, bin) + (if at > 0 { ","@ } else { seq![] }) + decimal(
                    busy_pct(busy, bin_ns),
                ),
            )
        }
    }
}

pub open spec fn timeline_rows(rows: Seq<Seq<char>>, bin_ns: int, bins: int) -> (int, int, Seq<char>)
    decreases rows.len(),
{
    if rows.len() == 0 {
        (-1, 0, seq![])
    } else {
        timeline_row(timeline_rows(rows.drop_last(), bin_ns, bins), rows.last(), bin_ns, bins)
    }
}

/// The per-device busy series of the timeline, from rows ordered by
/// device and bin.
pub open spec fn timeline_text(rows: Seq<Seq<char>>, bin_ns: int, bins: int) -> Seq<char> {
    let st = timeline_rows(rows, bin_ns, bins);
    st.2 + if st.0 >= 0 { "]}"@ } else { seq![] }
}

/// A row's busy time times 100 stays in range.
pub open spec fn timeline_row_ok(row: Seq<char>) -> bool {
    let p = splitn_char(row, '\t', 3);
    p.len() >= 3 ==> fits(100 * num(p[2]))
}

/// Appends the zero entries of bins `from` up to `to`.
fn push_zeros(out: &mut String, from: i128, to: i64)
    ensures
        final(out)@ == old(out)@ + zero_fill(from as int, to as int),
{
    let ghost start = out@;
    let mut k: i128 = from;
    if (to as i128) <= from {
        assert(zero_fill(from as int, to as int) =~= Seq::<char>::empty());
        return;
    }
    assert(zero_fill(from as int, from as int) =~= Seq::<char>::empty());
    while k < to as i128
        invariant
            from <= k <= to,
            out@ == start + zero_fill(from as int, k as int),
        decreases to - k,
    {
        if k > 0 {
            push_str(out, ",");
        }
        push_str(out, "0");
        k = k + 1;
        assert(out@ =~= start + zero_fill(from as int, k as int));
    }
}

/// The GPU-busy series of a capture's timeline query: per device, the
/// busy percentage of each of `bins` bins of `binNs` nanoseconds, zeros
/// where a bin had no kernel time.
pub fn timelineSeries(rows: &Vec<String>, binNs: i64, bins: i64) -> (r: String)
    requires
        binNs > 0,
        forall|i: int| 0 <= i < rows.len() ==> timeline_row_ok(#[trigger] rows[i]@),
    ensures
        r@ == timeline_text(rows.deep_view(), binNs as int, bins as int),
{
    let ghost rv = rows.deep_view();
    let mut out = String::new();
    let mut cur: i64 = -1;
    let mut next: i128 = 0;
    let mut i: usize = 0;
    assert(rv.take(0) =~= Seq::<Seq<char>>::empty());
    while i < rows.len()
        invariant
            i <= rows.len(),
            rv == rows.deep_view(),
            binNs > 0,
            forall|j: int| 0 <= j < rows.len() ==> timeline_row_ok(#[trigger] rows[j]@),
            0 <= next <= (if bins > 0 { bins as int } else { 0 }) + i,
            (cur as int, next as int, out@) == timeline_rows(rv.take(i as int), binNs as int, bins as int),
        decreases rows.len() - i,
    {
        proof {
            let t = rv.take(i + 1);
            assert(t.drop_last() =~= rv.take(i as int));
            assert(t.last() == rows[i as int]@);
        }
        let p = splitn_char_exec(rows[i].as_str(), '\t', 3);
        if p.len() >= 3 {
            let dev = num_exec(p[0].as_str());
            let bin = num_exec(p[1].as_str());
            let busy = num_exec(p[2].as_str());
            assert(timeline_row_ok(rows[i as int]@));
            if dev != cur {
                if cur >= 0 {
                    push_str(&mut out, "]}, ");
                }
                push_str(&mut out, "{\"device\": ");
                let d = int_to_string(dev);
                push_str(&mut out, d.as_str());
                push_str(&mut out, ", \"busy\": [");
                cur = dev;
                next = 0;
            }
            if bin < bins {
                push_zeros(&mut out, next, bin);
                if next < bin as i128 {
                    next = bin as i128;
                }
                let mut pct = trunc_div(100 * busy, binNs);
                if pct > 100 {
                    pct = 100;
                }
                if next > 0 {
                    push_str(&mut out, ",");
                }
                let t = int_to_string(pct);
                push_str(&mut out, t.as_str());
                next = next + 1;
            }
        }
        i += 1;
    }
    assert(rv.take(rows.len() as int) =~= rv);
    if cur >= 0 {
        push_str(&mut out, "]}");
    }
    out
}

// ---------------------------------------------------------------------
// The concurrency sweep and pressure probe of a run
// ---------------------------------------------------------------------

/// Where the sweep stands; `Before`, `Probing` and `After` carry the
/// index of the concurrency level.
#[derive(PartialEq, Eq, Structural, Clone, Copy)]
pub enum SweepState {
    Idle,
    Uploading,
    Before(u8),
    Probing(u8),
    After(u8),
    PressureBase,
    StartingPressure,
    Pressure,
    PressureAfter,
    Writing,
    Finished,
}

/// What happened since the last step.
#[derive(PartialEq, Eq, Structural, Clone, Copy)]
pub enum SweepEvent {
    /// The sweep starts, or the last action succeeded.
    Succeeded,
    /// The last action failed.
    Failed,
    /// One pressure sample was taken (or failed, which the sweep
    /// tolerates); seconds since the pressure load started.
    Sampled { elapsed_s: i64 },
}

/// What the collector does next.
#[derive(PartialEq, Eq, Structural, Clone, Copy)]
pub enum SweepAction {
    UploadProbe,
    FetchSnapshot,
    /// Run the probe at `conc` streams for `secs` seconds, up to
    /// `max_tokens` each.
    RunProbe { conc: i64, secs: i64, max_tokens: i64 },
    /// Start the background pressure load.
    StartPressure { streams: i64, secs: i64, max_tokens: i64 },
    /// Sleep `wait_s` seconds, then sample the scheduler gauges.
    Sample { wait_s: i64 },
    /// Name the regime and write sweep.json.
    WriteSweep,
    Fail,
    Finish,
    Ignore,
}

/// The concurrency levels of the sweep, in order.
pub open spec fn sweep_level(l: int) -> int {
    if l == 0 { 1 } else if l == 1 { 8 } else { 32 }
}

/// One step of the sweep: upload the probe; at 1, 8 and 32 streams a
/// snapshot, an 18 s probe of 256-token answers and a snapshot; then a
/// baseline snapshot, a 45 s pressure load of 48 streams of up to 2048
/// tokens sampled every 5 s until 48 s have passed, a last snapshot and
/// the written verdict. Any failure but a sample's ends the sweep.
pub open spec fn sweep_step(s: SweepState, e: SweepEvent) -> (SweepState, SweepAction) {
    match (s, e) {
        (SweepState::Idle, SweepEvent::Succeeded) => (SweepState::Uploading, SweepAction::UploadProbe),
        (SweepState::Uploading, SweepEvent::Succeeded) => (SweepState::Before(0), SweepAction::FetchSnapshot),
        (SweepState::Before(l), SweepEvent::Succeeded) => (
            SweepState::Probing(l),
            SweepAction::RunProbe { conc: sweep_level(l as int) as i64, secs: 18, max_tokens: 256 },
        ),
        (SweepState::Probing(l), SweepEvent::Succeeded) => (SweepState::After(l), SweepAction::FetchSnapshot),
        (SweepState::After(l), SweepEvent::Succeeded) => if l < 2 {
            (SweepState::Before((l + 1) as u8), SweepAction::FetchSnapshot)
        } else {
            (SweepState::PressureBase, SweepAction::FetchSnapshot)
        },
        (SweepState::PressureBase, SweepEvent::Succeeded) => (
            SweepState::StartingPressure,
            SweepAction::StartPressure { streams: 48, secs: 45, max_tokens: 2048 },
        ),
        (SweepState::StartingPressure, SweepEvent::Succeeded) => (SweepState::Pressure, SweepAction::Sample { wait_s: 5 }),
        (SweepState::Pressure, SweepEvent::Sampled { elapsed_s }) => if elapsed_s < 48 {
            (SweepState::Pressure, SweepAction::Sample { wait_s: 5 })
        } else {
            (SweepState::PressureAfter, SweepAction::FetchSnapshot)
        },
        (SweepState::PressureAfter, SweepEvent::Succeeded) => (SweepState::Writing, SweepAction::WriteSweep),
        (SweepState::Writing, SweepEvent::Succeeded) => (SweepState::Finished, SweepAction::Finish),
        (SweepState::Idle, _) => (s, SweepAction::Ignore),
        (SweepState::Finished, _) => (s, SweepAction::Ignore),
        (SweepState::Pressure, _) => (s, SweepAction::Ignore),
        (_, SweepEvent::Failed) => (SweepState::Finished, SweepAction::Fail),
        _ => (s, SweepAction::Ignore),
    }
}

pub fn sweepStep(s: &SweepState, e: SweepEvent) -> (r: (SweepState, SweepAction))
    ensures
        r == sweep_step(*s, e),
{
    match (*s, e) {
        (SweepState::Idle, SweepEvent::Succeeded) => (SweepState::Uploading, SweepAction::UploadProbe),
        (SweepState::Uploading, SweepEvent::Succeeded) => (SweepState::Before(0), SweepAction::FetchSnapshot),
        (SweepState::Before(l), SweepEvent::Succeeded) => {
            let conc: i64 = if l == 0 { 1 } else if l == 1 { 8 } else { 32 };
            (SweepState::Probing(l), SweepAction::RunProbe { conc, secs: 18, max_tokens: 256 })
        },
        (SweepState::Probing(l), SweepEvent::Succeeded) => (SweepState::After(l), SweepAction::FetchSnapshot),
        (SweepState::After(l), SweepEvent::Succeeded) => if l < 2 {
            (SweepState::Before(l + 1), SweepAction::FetchSnapshot)
        } else {
            (SweepState::PressureBase, SweepAction::FetchSnapshot)
        },
        (SweepState::PressureBase, SweepEvent::Succeeded) => (
            SweepState::StartingPressure,
            SweepAction::StartPressure { streams: 48, secs: 45, max_tokens: 2048 },
        ),
        (SweepState::StartingPressure, SweepEvent::Succeeded) => (SweepState::Pressure, SweepAction::Sample { wait_s: 5 }),
        (SweepState::Pressure, SweepEvent::Sampled { elapsed_s }) => if elapsed_s < 48 {
            (SweepState::Pressure, SweepAction::Sample { wait_s: 5 })
        } else {
            (SweepState::PressureAfter, SweepAction::FetchSnapshot)
        },
        (SweepState::PressureAfter, SweepEvent::Succeeded) => (SweepState::Writing, SweepAction::WriteSweep),
        (SweepState::Writing, SweepEvent::Succeeded) => (SweepState::Finished, SweepAction::Finish),
        (SweepState::Idle, _) => (*s, SweepAction::Ignore),
        (SweepState::Finished, _) => (*s, SweepAction::Ignore),
        (SweepState::Pressure, _) => (*s, SweepAction::Ignore),
        (_, SweepEvent::Failed) => (SweepState::Finished, SweepAction::Fail),
        _ => (*s, SweepAction::Ignore),
    }
}

/// What the graph command reads its capture from.
#[derive(PartialEq, Eq, Structural, Clone, Copy)]
pub enum GraphInputError {
    /// `--input` was not given.
    MissingInput,
}

/// The sqlite database the graph command queries for `--input`: the file
/// itself, or for a `.nsys-rep` report the `.sqlite` export beside it,
/// which must be made first (`true`).
pub open spec fn graph_db(input: Seq<char>) -> (Seq<char>, bool) {
    if has_suffix(input, ".nsys-rep"@) {
        (input.subrange(0, input.len() - 9) + ".sqlite"@, true)
    } else {
        (input, false)
    }
}

pub fn graphInput(input: &str) -> (r: Result<(String, bool), GraphInputError>)
    ensures
        input@.len() == 0 <==> r is Err,
        r matches Ok(p) ==> (p.0@, p.1) == graph_db(input@),
{
    if input.is_empty() {
        return Err(GraphInputError::MissingInput);
    }
    if has_suffix_exec(input, ".nsys-rep") {
        proof {
            reveal_strlit(".nsys-rep");
        }
        let n = char_len(input);
        let mut db = substring(input, 0, n - 9);
        push_str(&mut db, ".sqlite");
        Ok((db, true))
    } else {
        Ok((owned(input), false))
    }
}

/// A run name that the baseline endpoint may read: not empty, and with no
/// "/" or ".." that could leave the output directory.
pub open spec fn safe_run_name(run: Seq<char>) -> bool {
    run.len() > 0 && !contains(run, "/"@) && !contains(run, ".."@)
}

/// The directory the baseline endpoint reads a run from, or `None` for a
/// name that could leave the output directory.
pub fn baselineDir(run: &str) -> (r: Option<String>)
    ensures
        r is Some <==> safe_run_name(run@),
        r matches Some(d) ==> d@ == "profile-output/"@ + run@,
{
    if contains_exec(run, "/") || contains_exec(run, "..") || run.is_empty() {
        return None;
    }
    let mut d = owned("profile-output/");
    push_str(&mut d, run);
    Some(d)
}

} // verus!
