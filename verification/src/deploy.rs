//! How `up` turns a catalog entry into a pod request: which variant to
//! serve, how many GPUs of which type, which image, which CUDA versions.
use vstd::prelude::*;
use crate::model::{Model, Variant};
use crate::model::gpu::{ParseGPURef, gpu_ref};
use crate::model::serve::{default_index, defaultSpec};
use crate::text::{owned, push_str, split_char, split_char_exec, str_eq, trim_space, trim_space_exec};

verus! {

/// The GPU reference a variant is sized from: its production figure,
/// else its minimum.
pub open spec fn gpu_ref_text(v: Variant) -> Seq<char> {
    if v.ProdGPU@.len() > 0 { v.ProdGPU@ } else { v.MinGPU@ }
}

pub fn variantGPURef(v: &Variant) -> (r: String)
    ensures
        r@ == gpu_ref_text(*v),
{
    if !v.ProdGPU.as_str().is_empty() {
        return crate::text::copy(&v.ProdGPU);
    }
    crate::text::copy(&v.MinGPU)
}

/// GPUs a variant needs: the count of its reference, 1 when the
/// reference has none.
pub open spec fn gpus_needed(v: Variant) -> int {
    match gpu_ref(gpu_ref_text(v)) {
        Some((n, _)) => n,
        None => 1,
    }
}

/// A variant `up` may serve: it has a default serve recipe and, when a
/// quantization is asked for, that name.
pub open spec fn candidate(v: Variant, quant: Seq<char>) -> bool {
    (quant.len() == 0 || v.Name@ == quant) && default_index(v.Serve@) >= 0
}

/// "name ref" of a variant passed over.
pub open spec fn other_text(v: Variant) -> Seq<char> {
    v.Name@ + " "@ + gpu_ref_text(v)
}

/// (chosen index or -1, its GPUs, the variants passed over) after
/// considering `vs` in order: the first candidate with the fewest GPUs
/// wins; a candidate is passed over when it is not strictly better, or
/// when a later one beats it.
pub open spec fn pick_state(vs: Seq<Variant>, quant: Seq<char>) -> (int, int, Seq<Seq<char>>)
    decreases vs.len(),
{
    if vs.len() == 0 {
        (-1, 0, seq![])
    } else {
        let (b, g, o) = pick_state(vs.drop_last(), quant);
        let v = vs.last();
        if !candidate(v, quant) {
            (b, g, o)
        } else {
            let n = gpus_needed(v);
            if b < 0 || n < g {
                (vs.len() - 1, n, if b >= 0 { o.push(other_text(vs[b])) } else { o })
            } else {
                (b, g, o.push(other_text(v)))
            }
        }
    }
}

proof fn lemma_pick_state_bounds(vs: Seq<Variant>, quant: Seq<char>)
    ensures
        -1 <= pick_state(vs, quant).0 < vs.len(),
    decreases vs.len(),
{
    if vs.len() > 0 {
        lemma_pick_state_bounds(vs.drop_last(), quant);
    }
}

/// The served variant needs the fewest GPUs of all candidates, and comes
/// first among those that need as few; when no variant is a candidate,
/// none is served.
pub proof fn lemma_pick_fewest(vs: Seq<Variant>, quant: Seq<char>)
    ensures
        pick_state(vs, quant).0 < 0 <==> forall|j: int| 0 <= j < vs.len() ==> !candidate(#[trigger] vs[j], quant),
        pick_state(vs, quant).0 >= 0 ==> {
            let b = pick_state(vs, quant).0;
            &&& 0 <= b < vs.len()
            &&& candidate(vs[b], quant)
            &&& pick_state(vs, quant).1 == gpus_needed(vs[b])
            &&& forall|j: int| 0 <= j < vs.len() && candidate(#[trigger] vs[j], quant) ==> gpus_needed(vs[b]) <= gpus_needed(vs[j])
            &&& forall|j: int| 0 <= j < b && candidate(#[trigger] vs[j], quant) ==> gpus_needed(vs[b]) < gpus_needed(vs[j])
        },
    decreases vs.len(),
{
    if vs.len() > 0 {
        let d = vs.drop_last();
        let n = vs.len() - 1;
        let v = vs.last();
        lemma_pick_fewest(d, quant);
        assert forall|j: int| 0 <= j < d.len() implies #[trigger] d[j] == vs[j] by {}
        let (b, g, _) = pick_state(d, quant);
        assert(vs[n] == v);
        if !candidate(v, quant) {
            assert forall|j: int| 0 <= j < vs.len() && candidate(#[trigger] vs[j], quant) implies j < n by {}
            if b < 0 {
                assert forall|j: int| 0 <= j < vs.len() implies !candidate(#[trigger] vs[j], quant) by {
                    if j < n {
                        assert(d[j] == vs[j]);
                    }
                }
            } else {
                assert forall|j: int| 0 <= j < vs.len() && candidate(#[trigger] vs[j], quant) implies gpus_needed(vs[b]) <= gpus_needed(vs[j]) by {
                    assert(d[j] == vs[j]);
                }
                assert forall|j: int| 0 <= j < b && candidate(#[trigger] vs[j], quant) implies gpus_needed(vs[b]) < gpus_needed(vs[j]) by {
                    assert(d[j] == vs[j]);
                }
            }
        } else if b < 0 || gpus_needed(v) < g {
            assert forall|j: int| 0 <= j < n && candidate(#[trigger] vs[j], quant) implies gpus_needed(vs[n]) < gpus_needed(vs[j]) by {
                assert(d[j] == vs[j]);
                assert(candidate(d[j], quant));
            }
            assert(pick_state(vs, quant).0 == n);
        } else {
            assert forall|j: int| 0 <= j < vs.len() && candidate(#[trigger] vs[j], quant) implies gpus_needed(vs[b]) <= gpus_needed(vs[j]) by {
                if j < n {
                    assert(d[j] == vs[j]);
                }
            }
            assert forall|j: int| 0 <= j < b && candidate(#[trigger] vs[j], quant) implies gpus_needed(vs[b]) < gpus_needed(vs[j]) by {
                assert(d[j] == vs[j]);
            }
        }
    }
}

/// The variant `up` serves for a model (and the variants it passed
/// over, as "name gpus"), or none when no variant has a recipe under
/// the asked quantization.
pub fn pickVariant(m: &Model, quant: &str) -> (r: Option<(usize, Vec<String>)>)
    ensures
        pick_state(m.Variants@, quant@).0 < 0 ==> r is None,
        pick_state(m.Variants@, quant@).0 >= 0 ==> r is Some && r.unwrap().0 as int == pick_state(
            m.Variants@,
            quant@,
        ).0 && r.unwrap().1.deep_view() == pick_state(m.Variants@, quant@).2,
{
    let vs = &m.Variants;
    let mut best: usize = 0;
    let mut have = false;
    let mut best_gpus: i64 = 0;
    let mut others: Vec<String> = Vec::new();
    let mut i: usize = 0;
    assert(vs@.take(0) =~= Seq::<Variant>::empty());
    while i < vs.len()
        invariant
            i <= vs.len(),
            ({
                let st = pick_state(vs@.take(i as int), quant@);
                &&& (st.0 >= 0) == have
                &&& have ==> st.0 == best as int && best < i && st.1 == best_gpus as int
                &&& st.2 == others.deep_view()
            }),
        decreases vs.len() - i,
    {
        let v = &vs[i];
        proof {
            let t = vs@.take(i + 1);
            assert(t.drop_last() =~= vs@.take(i as int));
            assert(t.last() == *v);
            if have {
                assert(t[best as int] == vs@[best as int]);
            }
        }
        let name_ok = quant.is_empty() || str_eq(v.Name.as_str(), quant);
        let has_recipe = defaultSpec(v).is_some();
        if name_ok && has_recipe {
            let r = variantGPURef(v);
            let (n, _, ok) = ParseGPURef(r.as_str());
            let gpus: i64 = if ok { n } else { 1 };
            if !have || gpus < best_gpus {
                if have {
                    let mut o = variantGPURef(&vs[best]);
                    let mut t = crate::text::copy(&vs[best].Name);
                    push_str(&mut t, " ");
                    push_str(&mut t, o.as_str());
                    let ghost before = others.deep_view();
                    let ghost tv = t@;
                    others.push(t);
                    assert(others.deep_view() =~= before.push(tv));
                }
                best = i;
                best_gpus = gpus;
                have = true;
            } else {
                let mut t = crate::text::copy(&v.Name);
                push_str(&mut t, " ");
                push_str(&mut t, r.as_str());
                let ghost before = others.deep_view();
                let ghost tv = t@;
                others.push(t);
                assert(others.deep_view() =~= before.push(tv));
            }
        }
        i += 1;
    }
    assert(vs@.take(vs.len() as int) =~= vs@);
    if have {
        Some((best, others))
    } else {
        None
    }
}

/// The GPU type and count a pod is requested with: the catalog
/// reference's figures for what the user did not set, at least one GPU.
pub open spec fn sized_gpus(
    reference: Option<Seq<char>>,
    gpu_type: Seq<char>,
    gpu_count: int,
    type_set: bool,
    count_set: bool,
) -> (Seq<char>, int) {
    let (t, c) = match reference {
        Some(r) => match gpu_ref(r) {
            Some((n, short)) => (if type_set { gpu_type } else { short }, if count_set { gpu_count } else { n }),
            None => (gpu_type, gpu_count),
        },
        None => (gpu_type, gpu_count),
    };
    (t, if c < 1 { 1 } else { c })
}

pub fn sizeGPUs(
    reference: Option<&str>,
    gpuType: &str,
    gpuCount: i64,
    typeSet: bool,
    countSet: bool,
) -> (r: (String, i64))
    ensures
        ({
            let rv = match reference {
                Some(x) => Some(x@),
                None => None,
            };
            r.0@ == sized_gpus(rv, gpuType@, gpuCount as int, typeSet, countSet).0 && r.1 as int
                == sized_gpus(rv, gpuType@, gpuCount as int, typeSet, countSet).1
        }),
{
    let mut t = owned(gpuType);
    let mut c = gpuCount;
    match reference {
        Some(x) => {
            let (n, short, ok) = ParseGPURef(x);
            if ok {
                if !countSet {
                    c = n;
                }
                if !typeSet {
                    t = short;
                }
            }
        },
        None => {},
    }
    if c < 1 {
        c = 1;
    }
    (t, c)
}

/// The image a pod runs: the --image flag, else for production the
/// variant's pinned image (or the runtime's image without a recipe),
/// else the profiling base image.
pub open spec fn pod_image(flag: Seq<char>, production: bool, variant_image: Option<Seq<char>>, runtime_image: Seq<char>) -> Seq<char> {
    if flag.len() > 0 {
        flag
    } else if production && variant_image is Some {
        variant_image.unwrap()
    } else if production {
        runtime_image
    } else {
        "runpod/pytorch:2.8.0-py3.11-cuda12.8.1-cudnn-devel-ubuntu22.04"@
    }
}

/// The image precedence: an explicit --image always wins; otherwise a
/// production pod runs the variant's pinned image when it has one, else
/// the runtime's; a profiling pod runs the profiling base image, whatever
/// the variant pins.
pub proof fn lemma_pod_image_precedence(
    flag: Seq<char>,
    production: bool,
    variant_image: Option<Seq<char>>,
    runtime_image: Seq<char>,
)
    ensures
        flag.len() > 0 ==> pod_image(flag, production, variant_image, runtime_image) == flag,
        flag.len() == 0 && production && variant_image is Some ==> pod_image(
            flag,
            production,
            variant_image,
            runtime_image,
        ) == variant_image->0,
        flag.len() == 0 && production && variant_image is None ==> pod_image(
            flag,
            production,
            variant_image,
            runtime_image,
        ) == runtime_image,
        flag.len() == 0 && !production ==> pod_image(flag, production, variant_image, runtime_image)
            == pod_image(flag, false, None, runtime_image),
{
}

/// Sizing keeps what the user set: an explicit type or count is used as
/// given (a count at least one), and only what was not set comes from
/// the catalog reference; a pod always gets at least one GPU.
pub proof fn lemma_sizing_keeps_user_choices(
    reference: Option<Seq<char>>,
    gpu_type: Seq<char>,
    gpu_count: int,
    type_set: bool,
    count_set: bool,
)
    ensures
        ({
            let (t, c) = sized_gpus(reference, gpu_type, gpu_count, type_set, count_set);
            &&& c >= 1
            &&& type_set ==> t == gpu_type
            &&& count_set ==> c == if gpu_count < 1 { 1 } else { gpu_count }
            &&& (reference is Some && gpu_ref(reference->0) is Some) ==> {
                let (n, short) = gpu_ref(reference->0)->0;
                &&& !type_set ==> t == short
                &&& !count_set ==> c == if n < 1 { 1 } else { n }
            }
            &&& (reference is None || gpu_ref(reference->0) is None) ==> t == gpu_type && c == (if gpu_count < 1 { 1 } else { gpu_count })
        }),
{
}

pub fn podImage(flag: &str, production: bool, variantImage: Option<&str>, runtimeImage: &str) -> (r: String)
    ensures
        r@ == pod_image(
            flag@,
            production,
            match variantImage {
                Some(x) => Some(x@),
                None => None,
            },
            runtimeImage@,
        ),
{
    if !flag.is_empty() {
        return owned(flag);
    }
    if production {
        match variantImage {
            Some(x) => owned(x),
            None => owned(runtimeImage),
        }
    } else {
        owned("runpod/pytorch:2.8.0-py3.11-cuda12.8.1-cudnn-devel-ubuntu22.04")
    }
}

/// The CUDA versions of a comma-separated list, trimmed, empty items
/// dropped.
pub open spec fn cuda_items(parts: Seq<Seq<char>>) -> Seq<Seq<char>>
    decreases parts.len(),
{
    if parts.len() == 0 {
        seq![]
    } else {
        cuda_items(parts.drop_last()) + if trim_space(parts.last()).len() > 0 {
            seq![trim_space(parts.last())]
        } else {
            seq![]
        }
    }
}

pub fn cudaVersions(cuda: &str) -> (r: Vec<String>)
    ensures
        r.deep_view() == cuda_items(split_char(cuda@, ',')),
{
    let parts = split_char_exec(cuda, ',');
    let ghost ps = parts.deep_view();
    let mut out: Vec<String> = Vec::new();
    let mut i: usize = 0;
    assert(ps.take(0) =~= Seq::<Seq<char>>::empty());
    while i < parts.len()
        invariant
            i <= parts.len(),
            ps == parts.deep_view(),
            out.deep_view() == cuda_items(ps.take(i as int)),
        decreases parts.len() - i,
    {
        proof {
            let t = ps.take(i + 1);
            assert(t.drop_last() =~= ps.take(i as int));
            assert(t.last() == parts[i as int]@);
        }
        let t = trim_space_exec(parts[i].as_str());
        if !t.as_str().is_empty() {
            let ghost before = out.deep_view();
            let ghost tv = t@;
            out.push(t);
            assert(out.deep_view() =~= before.push(tv));
        }
        i += 1;
        assert(out.deep_view() =~= cuda_items(ps.take(i as int)));
    }
    assert(ps.take(parts.len() as int) =~= ps);
    out
}

/// `--mode` names neither serving mode.
#[derive(PartialEq, Eq, Structural, Clone, Copy)]
pub enum ModeError {
    UnknownMode,
}

/// Reads `up`'s `--mode`: whether the pod serves in production (`true`)
/// or launches under the profiler (`false`); any other word is refused.
pub fn upMode(mode: &str) -> (r: Result<bool, ModeError>)
    ensures
        r == (if mode@ == "production"@ {
            Ok::<bool, ModeError>(true)
        } else if mode@ == "profile"@ {
            Ok::<bool, ModeError>(false)
        } else {
            Err::<bool, ModeError>(ModeError::UnknownMode)
        }),
{
    if crate::text::str_eq(mode, "production") {
        Ok(true)
    } else if crate::text::str_eq(mode, "profile") {
        Ok(false)
    } else {
        Err(ModeError::UnknownMode)
    }
}

} // verus!
