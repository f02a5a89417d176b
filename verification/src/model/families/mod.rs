//! The built-in catalog: one file per model family, each a function that
//! returns the family with its models, variants and serve recipes.
use vstd::prelude::*;
use crate::model::{Family, Flag, Hardware, KVArch, Model, Quant, ServeSpec, Variant};
use crate::model::serve::{HardwareView, ServeView};
use crate::model::catalog::{Catalog, rank_sorted};

pub mod deepseek;
pub mod gemma;
pub mod glm;
pub mod gpt_oss;
pub mod hunyuan;
pub mod kimi;
pub mod llama;
pub mod mimo;
pub mod minimax;
pub mod qwen;

verus! {

/// An owned string of a literal.
pub fn s(x: &str) -> (r: String)
    ensures
        r@ == x@,
{
    crate::text::owned(x)
}

/// A flag with a value.
pub fn flag(name: &str, value: &str) -> (f: Flag)
    ensures
        f.Name@ == name@,
        f.Value@ == value@,
{
    Flag { Name: s(name), Value: s(value) }
}

/// A boolean switch (a flag without value).
pub fn boolFlag(name: &str) -> (f: Flag)
    ensures
        f.Name@ == name@,
        f.Value@ == Seq::<char>::empty(),
{
    Flag { Name: s(name), Value: String::new() }
}

/// An attention layout's fields: ((kind, full-layer kind, estimated),
/// (layers, KV heads, head dim, latent dim), (window, full every,
/// per-token bytes, state bytes, max context)).
pub type KVView = ((Seq<char>, Seq<char>, bool), (i64, i64, i64, i64), (i64, i64, i64, i64, i64));

pub open spec fn kv_view(a: KVArch) -> KVView {
    (
        (a.Kind@, a.FullKind@, a.Est),
        (a.Layers, a.KVHeads, a.HeadDim, a.LatentDim),
        (a.Window, a.FullEvery, a.PerTokenB, a.StateB, a.MaxContext),
    )
}

/// A variant's fields: (name, image, weights in tenths of a GB, min GPU,
/// prod GPU, measured tok/s, serve recipes, hardware rows).
pub type VariantView = (Seq<char>, Seq<char>, i64, Seq<char>, Seq<char>, i64, Seq<ServeView>, Seq<HardwareView>);

pub open spec fn variant_view(v: Variant) -> VariantView {
    (
        v.Name@,
        v.Image@,
        v.WeightsDeciGB,
        v.MinGPU@,
        v.ProdGPU@,
        v.MeasuredTokS,
        v.Serve@.map_values(|x: ServeSpec| x@),
        v.Hardware@.map_values(|x: Hardware| x@),
    )
}

/// A model's fields: ((name, size, MoE, attention, vision), (native
/// context, context method, KV layout), (license, license note, engines,
/// image), (variants, quantizations, notes)).
pub type ModelView = (
    (Seq<char>, Seq<char>, bool, Seq<char>, bool),
    (i64, Seq<char>, KVView),
    (Seq<char>, Seq<char>, Seq<Seq<char>>, Seq<char>),
    (Seq<VariantView>, Seq<QuantView>, Seq<Seq<char>>),
);

pub open spec fn model_view(m: Model) -> ModelView {
    (
        (m.Name@, m.Size@, m.MoE, m.Attention@, m.Vision),
        (m.NativeContext, m.ContextMethod@, kv_view(m.KV)),
        (m.License@, m.LicenseNote@, m.Engines.deep_view(), m.Image@),
        (
            m.Variants@.map_values(|x: Variant| variant_view(x)),
            m.Quants@.map_values(|x: Quant| quant_view(x)),
            m.Notes.deep_view(),
        ),
    )
}

/// A family's fields: (rank, name, models).
pub type FamilyView = (i64, Seq<char>, Seq<ModelView>);

pub open spec fn family_view(f: Family) -> FamilyView {
    (f.Rank, f.Name@, f.Models@.map_values(|x: Model| model_view(x)))
}

pub open spec fn empty_kv_view() -> KVView {
    ((Seq::<char>::empty(), Seq::<char>::empty(), false), (0i64, 0i64, 0i64, 0i64), (0i64, 0i64, 0i64, 0i64, 0i64))
}

/// An architecture with no data: no kind, every dimension 0.
pub fn empty_kvarch() -> (a: KVArch)
    ensures
        kv_view(a) == empty_kv_view(),
{
    KVArch {
        Kind: String::new(),
        Layers: 0,
        KVHeads: 0,
        HeadDim: 0,
        LatentDim: 0,
        Window: 0,
        FullEvery: 0,
        PerTokenB: 0,
        StateB: 0,
        FullKind: String::new(),
        Est: false,
        MaxContext: 0,
    }
}

/// A hardware row with every field empty.
pub fn empty_hardware() -> (h: Hardware)
    ensures
        h@ == crate::model::serve::empty_hardware(),
{
    Hardware {
        Target: String::new(),
        Key: String::new(),
        Profile: String::new(),
        Image: String::new(),
        Floor: String::new(),
        FloorRef: String::new(),
        Note: String::new(),
    }
}

/// A serve spec with no profile, note, environment, model or flags.
pub fn empty_serve() -> (sp: ServeSpec)
    ensures
        sp@ == crate::model::serve::empty_serve(),
{
    let sp = ServeSpec { Profile: String::new(), Note: String::new(), Env: Vec::new(), Model: String::new(), Flags: Vec::new() };
    assert(sp.Env.deep_view() =~= Seq::<Seq<char>>::empty());
    assert(sp.Flags@.map_values(|x: Flag| x@) =~= Seq::<crate::model::serve::FlagView>::empty());
    sp
}

/// A variant with no name, weights, GPUs, recipes or hardware rows.
pub fn empty_variant() -> (v: Variant)
    ensures
        variant_view(v) == (
            Seq::<char>::empty(),
            Seq::<char>::empty(),
            0i64,
            Seq::<char>::empty(),
            Seq::<char>::empty(),
            0i64,
            Seq::<ServeView>::empty(),
            Seq::<HardwareView>::empty(),
        ),
{
    let v = Variant {
        Name: String::new(),
        Image: String::new(),
        WeightsDeciGB: 0,
        MinGPU: String::new(),
        ProdGPU: String::new(),
        MeasuredTokS: 0,
        Serve: Vec::new(),
        Hardware: Vec::new(),
    };
    assert(v.Serve@.map_values(|x: ServeSpec| x@) =~= Seq::<ServeView>::empty());
    assert(v.Hardware@.map_values(|x: Hardware| x@) =~= Seq::<HardwareView>::empty());
    v
}

/// A quantization's fields as text: (format, bits, repo, provenance,
/// engines, kernel, note).
pub type QuantView = (Seq<char>, Seq<char>, Seq<char>, Seq<char>, Seq<Seq<char>>, Seq<char>, Seq<char>);

pub open spec fn quant_view(q: Quant) -> QuantView {
    (q.Format@, q.Bits@, q.Repo@, q.Provenance@, q.Engines.deep_view(), q.Kernel@, q.Note@)
}

/// A quantization with every field empty.
pub fn empty_quant() -> (q: Quant)
    ensures
        quant_view(q) == (
            Seq::<char>::empty(),
            Seq::<char>::empty(),
            Seq::<char>::empty(),
            Seq::<char>::empty(),
            Seq::<Seq<char>>::empty(),
            Seq::<char>::empty(),
            Seq::<char>::empty(),
        ),
{
    Quant {
        Format: String::new(),
        Bits: String::new(),
        Repo: String::new(),
        Provenance: String::new(),
        Engines: Vec::new(),
        Kernel: String::new(),
        Note: String::new(),
    }
}

/// A model with no name, architecture data, variants or notes.
pub fn empty_model() -> (m: Model)
    ensures
        model_view(m) == (
            (Seq::<char>::empty(), Seq::<char>::empty(), false, Seq::<char>::empty(), false),
            (0i64, Seq::<char>::empty(), empty_kv_view()),
            (Seq::<char>::empty(), Seq::<char>::empty(), Seq::<Seq<char>>::empty(), Seq::<char>::empty()),
            (Seq::<VariantView>::empty(), Seq::<QuantView>::empty(), Seq::<Seq<char>>::empty()),
        ),
{
    let m = Model {
        Name: String::new(),
        Size: String::new(),
        MoE: false,
        Attention: String::new(),
        Vision: false,
        NativeContext: 0,
        ContextMethod: String::new(),
        KV: empty_kvarch(),
        License: String::new(),
        LicenseNote: String::new(),
        Engines: Vec::new(),
        Image: String::new(),
        Variants: Vec::new(),
        Quants: Vec::new(),
        Notes: Vec::new(),
    };
    assert(m.Engines.deep_view() =~= Seq::<Seq<char>>::empty());
    assert(m.Notes.deep_view() =~= Seq::<Seq<char>>::empty());
    assert(m.Variants@.map_values(|x: Variant| variant_view(x)) =~= Seq::<VariantView>::empty());
    assert(m.Quants@.map_values(|x: Quant| quant_view(x)) =~= Seq::<QuantView>::empty());
    m
}

/// A family of rank 0 with no name and no models.
pub fn empty_family() -> (f: Family)
    ensures
        f.Rank == 0 && f.Name@.len() == 0 && f.Models@.len() == 0,
{
    Family { Rank: 0, Name: String::new(), Models: Vec::new() }
}

/// The shipped catalog, in rank order: every family with its models'
/// figures, layouts, recipes and hardware rows.
pub open spec fn catalog_table() -> Seq<FamilyView> {
    seq![
        (1i64, "qwen"@, qwen::qwen_models()),
        (2i64, "deepseek"@, deepseek::deepseek_models()),
        (3i64, "llama"@, llama::llama_models()),
        (4i64, "gemma"@, gemma::gemma_models()),
        (5i64, "gpt-oss"@, gpt_oss::gpt_oss_models()),
        (6i64, "glm"@, glm::glm_models()),
        (7i64, "kimi"@, kimi::kimi_models()),
        (8i64, "mimo"@, mimo::mimo_models()),
        (9i64, "hunyuan"@, hunyuan::hunyuan_models()),
        (10i64, "minimax"@, minimax::minimax_models()),
    ]
}

/// A model's figures are marked for what they are: it carries an
/// attention layout, and a layout given only as a flat per-token figure
/// is flagged as an estimate.
pub open spec fn marked(m: ModelView) -> bool {
    let kv = m.1.2;
    kv.0.0.len() > 0 && (kv.0.0 == "flat"@ ==> kv.0.2)
}

/// Every shipped model has a KV layout, and every flat (reverse-derived)
/// layout is marked estimated: unpublished figures never present as
/// measured.
pub proof fn lemma_shipped_figures_marked()
    ensures
        forall|i: int, j: int|
            0 <= i < catalog_table().len() && 0 <= j < catalog_table()[i].2.len() ==> marked(
                #[trigger] catalog_table()[i].2[j],
            ),
{
    reveal_strlit("gqa");
    reveal_strlit("mla");
    reveal_strlit("swa");
    reveal_strlit("kda");
    reveal_strlit("flat");
    let t = catalog_table();
    assert forall|i: int, j: int| 0 <= i < t.len() && 0 <= j < t[i].2.len() implies marked(#[trigger] t[i].2[j]) by {
        if i == 0 {
            if j == 0 {
                assert(marked(t[0].2[0]));
            } else if j == 1 {
                assert(marked(t[0].2[1]));
            } else if j == 2 {
                assert(marked(t[0].2[2]));
            } else if j == 3 {
                assert(marked(t[0].2[3]));
            }
        } else if i == 1 {
            if j == 0 {
                assert(marked(t[1].2[0]));
            } else if j == 1 {
                assert(marked(t[1].2[1]));
            } else if j == 2 {
                assert(marked(t[1].2[2]));
            }
        } else if i == 2 {
            if j == 0 {
                assert(marked(t[2].2[0]));
            } else if j == 1 {
                assert(marked(t[2].2[1]));
            } else if j == 2 {
                assert(marked(t[2].2[2]));
            }
        } else if i == 3 {
            if j == 0 {
                assert(marked(t[3].2[0]));
            } else if j == 1 {
                assert(marked(t[3].2[1]));
            } else if j == 2 {
                assert(marked(t[3].2[2]));
            }
        } else if i == 4 {
            if j == 0 {
                assert(marked(t[4].2[0]));
            } else if j == 1 {
                assert(marked(t[4].2[1]));
            }
        } else if i == 5 {
            if j == 0 {
                assert(marked(t[5].2[0]));
            } else if j == 1 {
                assert(marked(t[5].2[1]));
            } else if j == 2 {
                assert(marked(t[5].2[2]));
            }
        } else if i == 6 {
            if j == 0 {
                assert(marked(t[6].2[0]));
            } else if j == 1 {
                assert(marked(t[6].2[1]));
            }
        } else if i == 7 {
            if j == 0 {
                assert(marked(t[7].2[0]));
            } else if j == 1 {
                assert(marked(t[7].2[1]));
            }
        } else if i == 8 {
            if j == 0 {
                assert(marked(t[8].2[0]));
            } else if j == 1 {
                assert(marked(t[8].2[1]));
            }
        } else if i == 9 {
            if j == 0 {
                assert(marked(t[9].2[0]));
            } else if j == 1 {
                assert(marked(t[9].2[1]));
            }
        }
    }
}

/// The catalog of every built-in family, in rank order.
pub fn builtin() -> (c: Catalog)
    ensures
        c.view().map_values(|f: Family| family_view(f)) == catalog_table(),
        c.view().len() == 10,
        rank_sorted(c.view()),
        c.view().map_values(|f: Family| f.Name@) == seq![
            "qwen"@,
            "deepseek"@,
            "llama"@,
            "gemma"@,
            "gpt-oss"@,
            "glm"@,
            "kimi"@,
            "mimo"@,
            "hunyuan"@,
            "minimax"@,
        ],
{
    let mut c = Catalog::new();
    c.Register(qwen::qwen());
    c.Register(deepseek::deepseek());
    c.Register(llama::llama());
    c.Register(gemma::gemma());
    c.Register(gpt_oss::gpt_oss());
    c.Register(glm::glm());
    c.Register(kimi::kimi());
    c.Register(mimo::mimo());
    c.Register(hunyuan::hunyuan());
    c.Register(minimax::minimax());
    let fams = c.Families();
    assert(c.view().map_values(|f: Family| family_view(f)) =~= catalog_table());
    assert(c.view().map_values(|f: Family| f.Name@) =~= seq![
        "qwen"@,
        "deepseek"@,
        "llama"@,
        "gemma"@,
        "gpt-oss"@,
        "glm"@,
        "kimi"@,
        "mimo"@,
        "hunyuan"@,
        "minimax"@,
    ]);
    c
}

} // verus!
