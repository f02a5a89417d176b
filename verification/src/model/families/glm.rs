use vstd::prelude::*;
use crate::model::{Family, Flag, Hardware, KVArch, Model, Quant, ServeSpec, Variant};
use crate::model::families::{
    boolFlag, empty_family, empty_hardware, empty_kvarch, empty_model, empty_quant, empty_serve, empty_variant,
    flag, s,
};

use crate::model::families::{
    kv_view, model_view, quant_view, variant_view, KVView, ModelView, QuantView, VariantView,
};
use crate::model::serve::{FlagView, HardwareView, ServeView};

verus! {

/// The catalog entry for glm-4.5-air.
pub open spec fn glm_4_5_air_table() -> ModelView {
    (("glm-4.5-air"@, "106B/12B"@, true, Seq::<char>::empty(), false), (131072i64, Seq::<char>::empty(), (("gqa"@, Seq::<char>::empty(), false), (46i64, 8i64, 128i64, 0i64), (0i64, 0i64, 0i64, 0i64, 131072i64))), ("MIT"@, Seq::<char>::empty(), seq!["vLLM"@, "SGLang"@], "vllm/vllm-openai:v0.26.0"@), (seq![("fp8"@, Seq::<char>::empty(), 1060i64, "1xH200 / 2xH100"@, "2xH100"@, 0i64, Seq::<ServeView>::empty(), Seq::<HardwareView>::empty()), ("q4"@, Seq::<char>::empty(), 600i64, "1xH100"@, "2xH100"@, 0i64, Seq::<ServeView>::empty(), Seq::<HardwareView>::empty())], Seq::<QuantView>::empty(), seq!["vLLM flag recipe pending; hardware/KV facts only; Qwen was researched first."@]))
}

/// The catalog entry for glm-4.6.
pub open spec fn glm_4_6_table() -> ModelView {
    (("glm-4.6"@, "357B/32B"@, true, Seq::<char>::empty(), false), (204800i64, Seq::<char>::empty(), (("gqa"@, Seq::<char>::empty(), false), (92i64, 8i64, 128i64, 0i64), (0i64, 0i64, 0i64, 0i64, 204800i64))), ("MIT"@, Seq::<char>::empty(), seq!["vLLM"@, "SGLang"@], "vllm/vllm-openai:v0.26.0"@), (seq![("fp8"@, Seq::<char>::empty(), 3570i64, "4xH200 / 8xH100"@, "4xH200"@, 0i64, Seq::<ServeView>::empty(), Seq::<HardwareView>::empty()), ("q4"@, Seq::<char>::empty(), 2000i64, "2xH200 / 4xH100"@, "4xH100"@, 0i64, Seq::<ServeView>::empty(), Seq::<HardwareView>::empty())], Seq::<QuantView>::empty(), seq!["Plain GQA at 200K costs 36 GB KV/seq; architecture, not params, drive long-context cost."@, "vLLM flag recipe pending; hardware/KV facts only; Qwen was researched first."@]))
}

/// The catalog entry for glm-5.
pub open spec fn glm_5_table() -> ModelView {
    (("glm-5"@, "744B/40B"@, true, Seq::<char>::empty(), false), (1048576i64, Seq::<char>::empty(), (("flat"@, Seq::<char>::empty(), true), (0i64, 0i64, 0i64, 0i64), (0i64, 0i64, 225000i64, 0i64, 1048576i64))), ("MIT"@, Seq::<char>::empty(), seq!["vLLM"@, "SGLang"@], "vllm/vllm-openai:v0.26.0"@), (seq![("fp8"@, Seq::<char>::empty(), 7440i64, "8xH200"@, "8xH200"@, 0i64, Seq::<ServeView>::empty(), Seq::<HardwareView>::empty())], Seq::<QuantView>::empty(), seq!["vLLM flag recipe pending; hardware/KV facts only; Qwen was researched first."@]))
}

/// The glm family's models, in catalog order.
pub open spec fn glm_models() -> Seq<ModelView> {
    seq![glm_4_5_air_table(), glm_4_6_table(), glm_5_table()]
}

/// The glm family and its models, in catalog order.
pub fn glm() -> (f: Family)
    ensures
        f.Models@.map_values(|m: Model| model_view(m)) == glm_models(),
        f.Rank == 6,
        f.Name@ == "glm"@,
        f.Models@.map_values(|m: Model| m.Name@) == seq!["glm-4.5-air"@, "glm-4.6"@, "glm-5"@],
{
    let f = Family {
        Rank: 6,
        Name: s("glm"),
        Models: vec![
            Model {
                Name: s("glm-4.5-air"),
                Size: s("106B/12B"),
                MoE: true,
                NativeContext: 131072,
                KV: KVArch {
                    Kind: s("gqa"),
                    Layers: 46,
                    KVHeads: 8,
                    HeadDim: 128,
                    MaxContext: 131072,
                    ..empty_kvarch()
                },
                License: s("MIT"),
                Engines: vec![s("vLLM"), s("SGLang")],
                Image: s("vllm/vllm-openai:v0.26.0"),
                Variants: vec![
                    Variant {
                        Name: s("fp8"),
                        WeightsDeciGB: 1060,
                        MinGPU: s("1xH200 / 2xH100"),
                        ProdGPU: s("2xH100"),
                        ..empty_variant()
                    },
                    Variant {
                        Name: s("q4"),
                        WeightsDeciGB: 600,
                        MinGPU: s("1xH100"),
                        ProdGPU: s("2xH100"),
                        ..empty_variant()
                    },
                ],
                Notes: vec![
                    s("vLLM flag recipe pending; hardware/KV facts only; Qwen was researched first."),
                ],
                ..empty_model()
            },
            Model {
                Name: s("glm-4.6"),
                Size: s("357B/32B"),
                MoE: true,
                NativeContext: 204800,
                KV: KVArch {
                    Kind: s("gqa"),
                    Layers: 92,
                    KVHeads: 8,
                    HeadDim: 128,
                    MaxContext: 204800,
                    ..empty_kvarch()
                },
                License: s("MIT"),
                Engines: vec![s("vLLM"), s("SGLang")],
                Image: s("vllm/vllm-openai:v0.26.0"),
                Variants: vec![
                    Variant {
                        Name: s("fp8"),
                        WeightsDeciGB: 3570,
                        MinGPU: s("4xH200 / 8xH100"),
                        ProdGPU: s("4xH200"),
                        ..empty_variant()
                    },
                    Variant {
                        Name: s("q4"),
                        WeightsDeciGB: 2000,
                        MinGPU: s("2xH200 / 4xH100"),
                        ProdGPU: s("4xH100"),
                        ..empty_variant()
                    },
                ],
                Notes: vec![
                    s("Plain GQA at 200K costs 36 GB KV/seq; architecture, not params, drive long-context cost."),
                    s("vLLM flag recipe pending; hardware/KV facts only; Qwen was researched first."),
                ],
                ..empty_model()
            },
            Model {
                Name: s("glm-5"),
                Size: s("744B/40B"),
                MoE: true,
                NativeContext: 1048576,
                KV: KVArch {
                    Kind: s("flat"),
                    PerTokenB: 225000,
                    Est: true,
                    MaxContext: 1048576,
                    ..empty_kvarch()
                },
                License: s("MIT"),
                Engines: vec![s("vLLM"), s("SGLang")],
                Image: s("vllm/vllm-openai:v0.26.0"),
                Variants: vec![
                    Variant {
                        Name: s("fp8"),
                        WeightsDeciGB: 7440,
                        MinGPU: s("8xH200"),
                        ProdGPU: s("8xH200"),
                        ..empty_variant()
                    },
                ],
                Notes: vec![
                    s("vLLM flag recipe pending; hardware/KV facts only; Qwen was researched first."),
                ],
                ..empty_model()
            },
        ],
    };
    assert(kv_view(f.Models@[0].KV) == (("gqa"@, Seq::<char>::empty(), false), (46i64, 8i64, 128i64, 0i64), (0i64, 0i64, 0i64, 0i64, 131072i64)));
    assert(f.Models@[0].Engines.deep_view() =~= seq!["vLLM"@, "SGLang"@]);
    assert(variant_view(f.Models@[0].Variants@[0]) == ("fp8"@, Seq::<char>::empty(), 1060i64, "1xH200 / 2xH100"@, "2xH100"@, 0i64, Seq::<ServeView>::empty(), Seq::<HardwareView>::empty()));
    assert(variant_view(f.Models@[0].Variants@[1]) == ("q4"@, Seq::<char>::empty(), 600i64, "1xH100"@, "2xH100"@, 0i64, Seq::<ServeView>::empty(), Seq::<HardwareView>::empty()));
    assert(f.Models@[0].Variants@.map_values(|x: Variant| variant_view(x)) =~= seq![("fp8"@, Seq::<char>::empty(), 1060i64, "1xH200 / 2xH100"@, "2xH100"@, 0i64, Seq::<ServeView>::empty(), Seq::<HardwareView>::empty()), ("q4"@, Seq::<char>::empty(), 600i64, "1xH100"@, "2xH100"@, 0i64, Seq::<ServeView>::empty(), Seq::<HardwareView>::empty())]);
    assert(f.Models@[0].Notes.deep_view() =~= seq!["vLLM flag recipe pending; hardware/KV facts only; Qwen was researched first."@]);
    assert(model_view(f.Models@[0]) == glm_4_5_air_table());
    assert(kv_view(f.Models@[1].KV) == (("gqa"@, Seq::<char>::empty(), false), (92i64, 8i64, 128i64, 0i64), (0i64, 0i64, 0i64, 0i64, 204800i64)));
    assert(f.Models@[1].Engines.deep_view() =~= seq!["vLLM"@, "SGLang"@]);
    assert(variant_view(f.Models@[1].Variants@[0]) == ("fp8"@, Seq::<char>::empty(), 3570i64, "4xH200 / 8xH100"@, "4xH200"@, 0i64, Seq::<ServeView>::empty(), Seq::<HardwareView>::empty()));
    assert(variant_view(f.Models@[1].Variants@[1]) == ("q4"@, Seq::<char>::empty(), 2000i64, "2xH200 / 4xH100"@, "4xH100"@, 0i64, Seq::<ServeView>::empty(), Seq::<HardwareView>::empty()));
    assert(f.Models@[1].Variants@.map_values(|x: Variant| variant_view(x)) =~= seq![("fp8"@, Seq::<char>::empty(), 3570i64, "4xH200 / 8xH100"@, "4xH200"@, 0i64, Seq::<ServeView>::empty(), Seq::<HardwareView>::empty()), ("q4"@, Seq::<char>::empty(), 2000i64, "2xH200 / 4xH100"@, "4xH100"@, 0i64, Seq::<ServeView>::empty(), Seq::<HardwareView>::empty())]);
    assert(f.Models@[1].Notes.deep_view() =~= seq!["Plain GQA at 200K costs 36 GB KV/seq; architecture, not params, drive long-context cost."@, "vLLM flag recipe pending; hardware/KV facts only; Qwen was researched first."@]);
    assert(model_view(f.Models@[1]) == glm_4_6_table());
    assert(kv_view(f.Models@[2].KV) == (("flat"@, Seq::<char>::empty(), true), (0i64, 0i64, 0i64, 0i64), (0i64, 0i64, 225000i64, 0i64, 1048576i64)));
    assert(f.Models@[2].Engines.deep_view() =~= seq!["vLLM"@, "SGLang"@]);
    assert(variant_view(f.Models@[2].Variants@[0]) == ("fp8"@, Seq::<char>::empty(), 7440i64, "8xH200"@, "8xH200"@, 0i64, Seq::<ServeView>::empty(), Seq::<HardwareView>::empty()));
    assert(f.Models@[2].Variants@.map_values(|x: Variant| variant_view(x)) =~= seq![("fp8"@, Seq::<char>::empty(), 7440i64, "8xH200"@, "8xH200"@, 0i64, Seq::<ServeView>::empty(), Seq::<HardwareView>::empty())]);
    assert(f.Models@[2].Notes.deep_view() =~= seq!["vLLM flag recipe pending; hardware/KV facts only; Qwen was researched first."@]);
    assert(model_view(f.Models@[2]) == glm_5_table());
    assert(f.Models@.map_values(|m: Model| model_view(m)) =~= glm_models());

    assert(f.Models@.map_values(|m: Model| m.Name@) =~= seq!["glm-4.5-air"@, "glm-4.6"@, "glm-5"@]);
    f
}



} // verus!
