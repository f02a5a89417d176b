use vstd::prelude::*;
use crate::model::{Family, Flag, Hardware, KVArch, Model, Quant, ServeSpec, Variant};
use crate::model::families::{
    boolFlag, empty_family, empty_hardware, empty_kvarch, empty_model, empty_quant, empty_serve, empty_variant,
    flag, s,
};

use crate::model::families::{
    kv_view, model_view, quant_view, variant_view, KVView, ModelView, QuantView, VariantView,
};
use crate::model::serve::{FlagView, HardwareView, ServeView};

verus! {

/// The catalog entry for kimi-k2.
pub open spec fn kimi_k2_table() -> ModelView {
    (("kimi-k2"@, "1T/32B"@, true, "MLA"@, false), (131072i64, Seq::<char>::empty(), (("mla"@, Seq::<char>::empty(), false), (61i64, 0i64, 0i64, 576i64), (0i64, 0i64, 0i64, 0i64, 262144i64))), ("Modified MIT"@, Seq::<char>::empty(), seq!["SGLang"@, "vLLM"@], "vllm/vllm-openai:v0.26.0"@), (seq![("fp8"@, Seq::<char>::empty(), 10000i64, "16xH100 / 8xH200"@, "16xH100"@, 0i64, Seq::<ServeView>::empty(), Seq::<HardwareView>::empty()), ("q4"@, Seq::<char>::empty(), 5940i64, "8xH100"@, "8xH200"@, 0i64, Seq::<ServeView>::empty(), Seq::<HardwareView>::empty()), ("1.8-bit"@, Seq::<char>::empty(), 2450i64, "4xH100"@, "4xH100"@, 0i64, Seq::<ServeView>::empty(), Seq::<HardwareView>::empty())], Seq::<QuantView>::empty(), seq!["MLA: a 1T-param model with smaller KV than a dense 32B."@, "Modified MIT: attribution clause above a usage threshold."@, "Community quants of huge MoE vary 20%+ between packagers (mixed-precision choices)."@, "vLLM flag recipe pending; hardware/KV facts only; Qwen was researched first."@]))
}

/// The catalog entry for kimi-k3.
pub open spec fn kimi_k3_table() -> ModelView {
    (("kimi-k3"@, "2.8T"@, true, "MLA"@, false), (1048576i64, Seq::<char>::empty(), (("flat"@, Seq::<char>::empty(), true), (0i64, 0i64, 0i64, 0i64), (0i64, 0i64, 60000i64, 0i64, 1048576i64))), ("Modified MIT"@, Seq::<char>::empty(), seq!["SGLang"@, "vLLM"@], "vllm/vllm-openai:v0.26.0"@), (seq![("fp8"@, Seq::<char>::empty(), 28000i64, "multi-node only"@, Seq::<char>::empty(), 0i64, Seq::<ServeView>::empty(), Seq::<HardwareView>::empty())], Seq::<QuantView>::empty(), seq!["Largest open-weight model ever released (weights July 27 2026)."@, "vLLM flag recipe pending; hardware/KV facts only; Qwen was researched first."@]))
}

/// The kimi family's models, in catalog order.
pub open spec fn kimi_models() -> Seq<ModelView> {
    seq![kimi_k2_table(), kimi_k3_table()]
}

/// The kimi family and its models, in catalog order.
pub fn kimi() -> (f: Family)
    ensures
        f.Models@.map_values(|m: Model| model_view(m)) == kimi_models(),
        f.Rank == 7,
        f.Name@ == "kimi"@,
        f.Models@.map_values(|m: Model| m.Name@) == seq!["kimi-k2"@, "kimi-k3"@],
{
    let f = Family {
        Rank: 7,
        Name: s("kimi"),
        Models: vec![
            Model {
                Name: s("kimi-k2"),
                Size: s("1T/32B"),
                MoE: true,
                Attention: s("MLA"),
                NativeContext: 131072,
                KV: KVArch {
                    Kind: s("mla"),
                    Layers: 61,
                    LatentDim: 576,
                    MaxContext: 262144,
                    ..empty_kvarch()
                },
                License: s("Modified MIT"),
                Engines: vec![s("SGLang"), s("vLLM")],
                Image: s("vllm/vllm-openai:v0.26.0"),
                Variants: vec![
                    Variant {
                        Name: s("fp8"),
                        WeightsDeciGB: 10000,
                        MinGPU: s("16xH100 / 8xH200"),
                        ProdGPU: s("16xH100"),
                        ..empty_variant()
                    },
                    Variant {
                        Name: s("q4"),
                        WeightsDeciGB: 5940,
                        MinGPU: s("8xH100"),
                        ProdGPU: s("8xH200"),
                        ..empty_variant()
                    },
                    Variant {
                        Name: s("1.8-bit"),
                        WeightsDeciGB: 2450,
                        MinGPU: s("4xH100"),
                        ProdGPU: s("4xH100"),
                        ..empty_variant()
                    },
                ],
                Notes: vec![
                    s("MLA: a 1T-param model with smaller KV than a dense 32B."),
                    s("Modified MIT: attribution clause above a usage threshold."),
                    s("Community quants of huge MoE vary 20%+ between packagers (mixed-precision choices)."),
                    s("vLLM flag recipe pending; hardware/KV facts only; Qwen was researched first."),
                ],
                ..empty_model()
            },
            Model {
                Name: s("kimi-k3"),
                Size: s("2.8T"),
                MoE: true,
                Attention: s("MLA"),
                NativeContext: 1048576,
                KV: KVArch {
                    Kind: s("flat"),
                    PerTokenB: 60000,
                    Est: true,
                    MaxContext: 1048576,
                    ..empty_kvarch()
                },
                License: s("Modified MIT"),
                Engines: vec![s("SGLang"), s("vLLM")],
                Image: s("vllm/vllm-openai:v0.26.0"),
                Variants: vec![
                    Variant {
                        Name: s("fp8"),
                        WeightsDeciGB: 28000,
                        MinGPU: s("multi-node only"),
                        ..empty_variant()
                    },
                ],
                Notes: vec![
                    s("Largest open-weight model ever released (weights July 27 2026)."),
                    s("vLLM flag recipe pending; hardware/KV facts only; Qwen was researched first."),
                ],
                ..empty_model()
            },
        ],
    };
    assert(kv_view(f.Models@[0].KV) == (("mla"@, Seq::<char>::empty(), false), (61i64, 0i64, 0i64, 576i64), (0i64, 0i64, 0i64, 0i64, 262144i64)));
    assert(f.Models@[0].Engines.deep_view() =~= seq!["SGLang"@, "vLLM"@]);
    assert(variant_view(f.Models@[0].Variants@[0]) == ("fp8"@, Seq::<char>::empty(), 10000i64, "16xH100 / 8xH200"@, "16xH100"@, 0i64, Seq::<ServeView>::empty(), Seq::<HardwareView>::empty()));
    assert(variant_view(f.Models@[0].Variants@[1]) == ("q4"@, Seq::<char>::empty(), 5940i64, "8xH100"@, "8xH200"@, 0i64, Seq::<ServeView>::empty(), Seq::<HardwareView>::empty()));
    assert(variant_view(f.Models@[0].Variants@[2]) == ("1.8-bit"@, Seq::<char>::empty(), 2450i64, "4xH100"@, "4xH100"@, 0i64, Seq::<ServeView>::empty(), Seq::<HardwareView>::empty()));
    assert(f.Models@[0].Variants@.map_values(|x: Variant| variant_view(x)) =~= seq![("fp8"@, Seq::<char>::empty(), 10000i64, "16xH100 / 8xH200"@, "16xH100"@, 0i64, Seq::<ServeView>::empty(), Seq::<HardwareView>::empty()), ("q4"@, Seq::<char>::empty(), 5940i64, "8xH100"@, "8xH200"@, 0i64, Seq::<ServeView>::empty(), Seq::<HardwareView>::empty()), ("1.8-bit"@, Seq::<char>::empty(), 2450i64, "4xH100"@, "4xH100"@, 0i64, Seq::<ServeView>::empty(), Seq::<HardwareView>::empty())]);
    assert(f.Models@[0].Notes.deep_view() =~= seq!["MLA: a 1T-param model with smaller KV than a dense 32B."@, "Modified MIT: attribution clause above a usage threshold."@, "Community quants of huge MoE vary 20%+ between packagers (mixed-precision choices)."@, "vLLM flag recipe pending; hardware/KV facts only; Qwen was researched first."@]);
    assert(model_view(f.Models@[0]) == kimi_k2_table());
    assert(kv_view(f.Models@[1].KV) == (("flat"@, Seq::<char>::empty(), true), (0i64, 0i64, 0i64, 0i64), (0i64, 0i64, 60000i64, 0i64, 1048576i64)));
    assert(f.Models@[1].Engines.deep_view() =~= seq!["SGLang"@, "vLLM"@]);
    assert(variant_view(f.Models@[1].Variants@[0]) == ("fp8"@, Seq::<char>::empty(), 28000i64, "multi-node only"@, Seq::<char>::empty(), 0i64, Seq::<ServeView>::empty(), Seq::<HardwareView>::empty()));
    assert(f.Models@[1].Variants@.map_values(|x: Variant| variant_view(x)) =~= seq![("fp8"@, Seq::<char>::empty(), 28000i64, "multi-node only"@, Seq::<char>::empty(), 0i64, Seq::<ServeView>::empty(), Seq::<HardwareView>::empty())]);
    assert(f.Models@[1].Notes.deep_view() =~= seq!["Largest open-weight model ever released (weights July 27 2026)."@, "vLLM flag recipe pending; hardware/KV facts only; Qwen was researched first."@]);
    assert(model_view(f.Models@[1]) == kimi_k3_table());
    assert(f.Models@.map_values(|m: Model| model_view(m)) =~= kimi_models());

    assert(f.Models@.map_values(|m: Model| m.Name@) =~= seq!["kimi-k2"@, "kimi-k3"@]);
    f
}



} // verus!
