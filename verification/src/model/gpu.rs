//! The GPU types the catalog budgets against, and the parsers of the
//! catalog's "2xH100" GPU references.
use vstd::prelude::*;
use crate::model::GPUSpec;
use crate::text::{
    contains, contains_exec, copy, index_char, owned, parse_int, parse_int_exec, splitn_char,
    splitn_char_exec, substring, to_upper, trim_space, trim_space_exec, upper, index_char_exec,
};

verus! {

/// (name, VRAM GB, bandwidth GB/s, class, SMs)
pub type GpuRow = (Seq<char>, int, int, Seq<char>, int);

impl View for GPUSpec {
    type V = GpuRow;

    open spec fn view(&self) -> GpuRow {
        (self.Name@, self.VRAMGB as int, self.BWGBs as int, self.Class@, self.SMs as int)
    }
}

/// The GPU table. Order matters for substring matching: a name that
/// contains a shorter one ("L40S" and "L4") comes first.
pub open spec fn gpu_table() -> Seq<GpuRow> {
    seq![
        ("RTX Pro 6000"@, 96, 1792, "blackwell"@, 188),
        ("RTX 4090"@, 24, 1008, "cuda"@, 128),
        ("MI300X"@, 192, 5300, "rocm"@, 304),
        ("L40S"@, 48, 864, "cuda"@, 142),
        ("A100"@, 80, 2039, "cuda"@, 108),
        ("A10G"@, 24, 600, "cuda"@, 80),
        ("B200"@, 192, 8000, "blackwell"@, 148),
        ("H100"@, 80, 3350, "cuda"@, 132),
        ("H200"@, 141, 4800, "cuda"@, 132),
        ("L4"@, 24, 300, "cuda"@, 58),
        ("T4"@, 16, 320, "cuda"@, 40),
    ]
}

/// The empty spec returned when nothing matches.
pub open spec fn no_gpu() -> GpuRow {
    (seq![], 0, 0, seq![], 0)
}

fn spec_row(name: &str, vram: i64, bw: i64, class: &str, sms: i64) -> (g: GPUSpec)
    ensures
        g@ == (name@, vram as int, bw as int, class@, sms as int),
{
    GPUSpec { Name: owned(name), VRAMGB: vram, BWGBs: bw, Class: owned(class), SMs: sms }
}

fn empty_gpu() -> (g: GPUSpec)
    ensures
        g@ == no_gpu(),
{
    GPUSpec { Name: String::new(), VRAMGB: 0, BWGBs: 0, Class: String::new(), SMs: 0 }
}

fn copy_gpu(g: &GPUSpec) -> (r: GPUSpec)
    ensures
        r@ == g@,
{
    GPUSpec { Name: copy(&g.Name), VRAMGB: g.VRAMGB, BWGBs: g.BWGBs, Class: copy(&g.Class), SMs: g.SMs }
}

/// The GPU table, in matching order.
pub fn gpuSpecs() -> (v: Vec<GPUSpec>)
    ensures
        v@.map_values(|g: GPUSpec| g@) == gpu_table(),
{
    let mut v: Vec<GPUSpec> = Vec::new();
    v.push(spec_row("RTX Pro 6000", 96, 1792, "blackwell", 188));
    v.push(spec_row("RTX 4090", 24, 1008, "cuda", 128));
    v.push(spec_row("MI300X", 192, 5300, "rocm", 304));
    v.push(spec_row("L40S", 48, 864, "cuda", 142));
    v.push(spec_row("A100", 80, 2039, "cuda", 108));
    v.push(spec_row("A10G", 24, 600, "cuda", 80));
    v.push(spec_row("B200", 192, 8000, "blackwell", 148));
    v.push(spec_row("H100", 80, 3350, "cuda", 132));
    v.push(spec_row("H200", 141, 4800, "cuda", 132));
    v.push(spec_row("L4", 24, 300, "cuda", 58));
    v.push(spec_row("T4", 16, 320, "cuda", 40));
    assert(v@.map_values(|g: GPUSpec| g@) =~= gpu_table());
    v
}

/// Index of the first table row whose name satisfies `p`, or -1.
pub open spec fn first_row(p: spec_fn(Seq<char>) -> bool) -> int {
    if exists|i: int| 0 <= i < gpu_table().len() && #[trigger] p(gpu_table()[i].0) {
        choose|i: int|
            0 <= i < gpu_table().len() && #[trigger] p(gpu_table()[i].0) && forall|j: int|
                0 <= j < i ==> !p(gpu_table()[j].0)
    } else {
        -1
    }
}

proof fn lemma_first_row(p: spec_fn(Seq<char>) -> bool, k: int)
    requires
        -1 <= k < gpu_table().len(),
        k >= 0 ==> p(gpu_table()[k].0),
        forall|j: int| 0 <= j < k || (k < 0 && 0 <= j < gpu_table().len()) ==> !p(gpu_table()[j].0),
    ensures
        first_row(p) == k,
{
    if k >= 0 {
        assert(exists|i: int| 0 <= i < gpu_table().len() && #[trigger] p(gpu_table()[i].0));
        let c = choose|i: int|
            0 <= i < gpu_table().len() && #[trigger] p(gpu_table()[i].0) && forall|j: int|
                0 <= j < i ==> !p(gpu_table()[j].0);
        assert(0 <= k < gpu_table().len() && p(gpu_table()[k].0) && forall|j: int|
            0 <= j < k ==> !p(gpu_table()[j].0));
        if c < k {
        } else if c > k {
        }
    } else {
        assert(!exists|i: int| 0 <= i < gpu_table().len() && #[trigger] p(gpu_table()[i].0));
    }
}

/// The row a bare GPU name resolves to: the first whose upper-cased name
/// occurs in the upper-cased query, so "h100 80GB" finds H100.
pub open spec fn lookup_row(name: Seq<char>) -> int {
    first_row(|n: Seq<char>| contains(upper(name), upper(n)))
}

pub open spec fn row_or_none(i: int) -> GpuRow {
    if i >= 0 { gpu_table()[i] } else { no_gpu() }
}

/// Index of the first of `names` that occurs in `query`, or -1.
pub open spec fn first_contained(query: Seq<char>, names: Seq<Seq<char>>) -> int
    decreases names.len(),
{
    if names.len() == 0 {
        -1
    } else if contains(query, names[0]) {
        0
    } else {
        let k = first_contained(query, names.drop_first());
        if k < 0 { -1 } else { k + 1 }
    }
}

proof fn lemma_first_contained(query: Seq<char>, names: Seq<Seq<char>>)
    ensures
        -1 <= first_contained(query, names) < names.len(),
        first_contained(query, names) >= 0 ==> contains(query, names[first_contained(query, names)]),
        forall|j: int|
            0 <= j < names.len() && (first_contained(query, names) < 0 || j < first_contained(query, names))
                ==> !contains(query, #[trigger] names[j]),
    decreases names.len(),
{
    if names.len() > 0 && !contains(query, names[0]) {
        lemma_first_contained(query, names.drop_first());
        assert forall|j: int|
            0 <= j < names.len() && (first_contained(query, names) < 0 || j < first_contained(query, names))
                implies !contains(query, #[trigger] names[j]) by {
            if j > 0 {
                assert(names[j] == names.drop_first()[j - 1]);
            }
        }
    }
}

/// The first of `names` that occurs in `query`: the matching step of
/// `LookupGPU`, given the upper-cased query and table names.
pub fn firstContained(query: &str, names: &Vec<String>) -> (r: Option<usize>)
    ensures
        r is Some <==> first_contained(query@, names.deep_view()) >= 0,
        r is Some ==> r->0 as int == first_contained(query@, names.deep_view()),
{
    let ghost ns = names.deep_view();
    proof {
        lemma_first_contained(query@, ns);
    }
    let mut i: usize = 0;
    while i < names.len()
        invariant
            i <= names.len(),
            ns == names.deep_view(),
            -1 <= first_contained(query@, ns) < ns.len(),
            first_contained(query@, ns) >= 0 ==> contains(query@, ns[first_contained(query@, ns)]),
            forall|j: int|
                0 <= j < ns.len() && (first_contained(query@, ns) < 0 || j < first_contained(query@, ns))
                    ==> !contains(query@, #[trigger] ns[j]),
            first_contained(query@, ns) < 0 || i <= first_contained(query@, ns),
        decreases names.len() - i,
    {
        if contains_exec(query, names[i].as_str()) {
            assert(ns[i as int] == names[i as int]@);
            return Some(i);
        }
        assert(ns[i as int] == names[i as int]@);
        i += 1;
    }
    None
}

/// The table's names are short.
proof fn lemma_table_names_short()
    ensures
        forall|j: int| 0 <= j < gpu_table().len() ==> (#[trigger] gpu_table()[j]).0.len() < 100,
{
    reveal_strlit("RTX Pro 6000");
    reveal_strlit("RTX 4090");
    reveal_strlit("MI300X");
    reveal_strlit("L40S");
    reveal_strlit("A100");
    reveal_strlit("A10G");
    reveal_strlit("B200");
    reveal_strlit("H100");
    reveal_strlit("H200");
    reveal_strlit("L4");
    reveal_strlit("T4");
}

/// Finds a spec by bare GPU name, case-insensitively as a substring
/// (for names of fewer than 2^28 characters, the most the case mapping
/// is called on).
pub fn LookupGPU(name: &str) -> (r: (GPUSpec, bool))
    requires
        name@.len() < 0x1000_0000,
    ensures
        r.1 == (lookup_row(name@) >= 0),
        r.0@ == row_or_none(lookup_row(name@)),
{
    let up = to_upper(name);
    let specs = gpuSpecs();
    let mut ups: Vec<String> = Vec::new();
    let mut i: usize = 0;
    while i < specs.len()
        invariant
            specs@.map_values(|g: GPUSpec| g@) == gpu_table(),
            i <= specs.len(),
            ups.len() == i,
            forall|j: int| 0 <= j < i ==> (#[trigger] ups.deep_view()[j]) == upper(gpu_table()[j].0),
        decreases specs.len() - i,
    {
        assert(specs[i as int]@ == gpu_table()[i as int]);
        proof {
            lemma_table_names_short();
        }
        let gu = to_upper(specs[i].Name.as_str());
        let ghost before = ups.deep_view();
        ups.push(gu);
        assert(ups.deep_view() =~= before.push(upper(gpu_table()[i as int].0)));
        i += 1;
    }
    let ghost p = |n: Seq<char>| contains(upper(name@), upper(n));
    let ghost ns = ups.deep_view();
    assert(specs@.map_values(|g: GPUSpec| g@).len() == specs.len());
    assert(ns.len() == gpu_table().len());
    proof {
        lemma_first_contained(up@, ns);
        assert forall|j: int| 0 <= j < gpu_table().len() implies p(gpu_table()[j].0) == contains(up@, ns[j]) by {
            assert(ns[j] == upper(gpu_table()[j].0));
        }
    }
    match firstContained(up.as_str(), &ups) {
        Some(k) => {
            proof {
                assert forall|j: int| 0 <= j < k implies !p(gpu_table()[j].0) by {
                    assert(ns[j] == upper(gpu_table()[j].0));
                    assert(!contains(up@, ns[j]));
                }
                assert(ns[k as int] == upper(gpu_table()[k as int].0));
                lemma_first_row(p, k as int);
            }
            assert(specs[k as int]@ == gpu_table()[k as int]);
            (copy_gpu(&specs[k]), true)
        },
        None => {
            proof {
                assert forall|j: int| 0 <= j < gpu_table().len() implies !p(gpu_table()[j].0) by {
                    assert(ns[j] == upper(gpu_table()[j].0));
                    assert(!contains(up@, ns[j]));
                }
                lemma_first_row(p, -1);
            }
            (empty_gpu(), false)
        },
    }
}

/// The count part of a "2xH100" reference: the text before the first
/// 'x', trimmed, as a positive integer.
pub open spec fn gpus_count(s: Seq<char>) -> Option<int> {
    let parts = splitn_char(s, 'x', 2);
    if parts.len() != 2 {
        None
    } else {
        match parse_int(trim_space(parts[0])) {
            Some(n) => if n > 0 { Some(n) } else { None },
            None => None,
        }
    }
}

/// The table row a "2xH100" reference names: the first whose exact name
/// occurs after the 'x'.
pub open spec fn gpus_row(s: Seq<char>) -> int {
    first_row(|n: Seq<char>| contains(splitn_char(s, 'x', 2)[1], n))
}

/// Parses "2xH100" / "1xL40S 48GB" into a count and the matching spec:
/// (count, spec, true), or (0, empty spec, false).
pub fn ParseGPUs(s: &str) -> (r: (i64, GPUSpec, bool))
    ensures
        r.2 == (gpus_count(s@) is Some && gpus_row(s@) >= 0),
        r.2 ==> r.0 == gpus_count(s@)->0 && r.1@ == gpu_table()[gpus_row(s@)],
        !r.2 ==> r.0 == 0 && r.1@ == no_gpu(),
{
    let parts = splitn_char_exec(s, 'x', 2);
    if parts.len() != 2 {
        return (0, empty_gpu(), false);
    }
    assert(parts[0]@ == splitn_char(s@, 'x', 2)[0]);
    let t = trim_space_exec(parts[0].as_str());
    let n = match parse_int_exec(t.as_str()) {
        Some(n) => n,
        None => {
            return (0, empty_gpu(), false);
        },
    };
    if n <= 0 {
        return (0, empty_gpu(), false);
    }
    let rest = &parts[1];
    assert(rest@ == splitn_char(s@, 'x', 2)[1]);
    assert(gpus_count(s@) == Some(n as int));
    let specs = gpuSpecs();
    let ghost p = |nm: Seq<char>| contains(splitn_char(s@, 'x', 2)[1], nm);
    let mut i: usize = 0;
    while i < specs.len()
        invariant
            specs@.map_values(|g: GPUSpec| g@) == gpu_table(),
            rest@ == splitn_char(s@, 'x', 2)[1],
            gpus_count(s@) == Some(n as int),
            p == (|nm: Seq<char>| contains(splitn_char(s@, 'x', 2)[1], nm)),
            i <= specs.len(),
            forall|j: int| 0 <= j < i ==> !p(gpu_table()[j].0),
        decreases specs.len() - i,
    {
        let g = &specs[i];
        assert(g@ == gpu_table()[i as int]);
        if contains_exec(rest.as_str(), g.Name.as_str()) {
            proof {
                lemma_first_row(p, i as int);
            }
            return (n, copy_gpu(g), true);
        }
        i += 1;
    }
    proof {
        lemma_first_row(p, -1);
    }
    (0, empty_gpu(), false)
}

/// The parts of a "2xH100" reference: count before the first 'x' of the
/// trimmed text, and the type name after it.
pub open spec fn gpu_ref(s: Seq<char>) -> Option<(int, Seq<char>)> {
    let t = trim_space(s);
    let idx = index_char(t, 'x');
    if idx <= 0 {
        None
    } else {
        match parse_int(t.take(idx)) {
            Some(n) => if n > 0 { Some((n, t.skip(idx + 1))) } else { None },
            None => None,
        }
    }
}

/// Splits a "2xH100" GPU reference into the count and the short type
/// name: (count, name, true), or (0, "", false).
pub fn ParseGPURef(s: &str) -> (r: (i64, String, bool))
    ensures
        r.2 == (gpu_ref(s@) is Some),
        r.2 ==> r.0 == gpu_ref(s@).unwrap().0 && r.1@ == gpu_ref(s@).unwrap().1,
        !r.2 ==> r.0 == 0 && r.1@.len() == 0,
{
    let t = trim_space_exec(s);
    let idx = match index_char_exec(t.as_str(), 'x') {
        Some(i) => i,
        None => {
            return (0, String::new(), false);
        },
    };
    proof {
        crate::text::lemma_index_char(t@, 'x');
    }
    if idx == 0 {
        return (0, String::new(), false);
    }
    let head = substring(t.as_str(), 0, idx);
    assert(head@ == t@.take(idx as int));
    let n = match parse_int_exec(head.as_str()) {
        Some(n) => n,
        None => {
            return (0, String::new(), false);
        },
    };
    if n <= 0 {
        return (0, String::new(), false);
    }
    let len = crate::text::char_len(t.as_str());
    let rest = substring(t.as_str(), idx + 1, len);
    assert(rest@ == t@.skip(idx as int + 1));
    (n, rest, true)
}

} // verus!
