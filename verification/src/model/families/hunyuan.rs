use vstd::prelude::*;
use crate::model::{Family, Flag, Hardware, KVArch, Model, Quant, ServeSpec, Variant};
use crate::model::families::{
    boolFlag, empty_family, empty_hardware, empty_kvarch, empty_model, empty_quant, empty_serve, empty_variant,
    flag, s,
};

use crate::model::families::{
    kv_view, model_view, quant_view, variant_view, KVView, ModelView, QuantView, VariantView,
};
use crate::model::serve::{FlagView, HardwareView, ServeView};

verus! {

/// The catalog entry for hunyuan-a13b.
pub open spec fn hunyuan_a13b_table() -> ModelView {
    (("hunyuan-a13b"@, "80B/13B"@, true, Seq::<char>::empty(), false), (262144i64, Seq::<char>::empty(), (("gqa"@, Seq::<char>::empty(), false), (32i64, 8i64, 128i64, 0i64), (0i64, 0i64, 0i64, 0i64, 262144i64))), ("Apache 2.0"@, Seq::<char>::empty(), seq!["vLLM"@, "SGLang"@, "llama.cpp"@], "vllm/vllm-openai:v0.26.0"@), (seq![("fp8"@, Seq::<char>::empty(), 800i64, "1xH200 / 2xH100"@, "2xH100"@, 0i64, Seq::<ServeView>::empty(), Seq::<HardwareView>::empty()), ("q4"@, Seq::<char>::empty(), 450i64, "1xL40S"@, "1xH100"@, 0i64, Seq::<ServeView>::empty(), Seq::<HardwareView>::empty())], Seq::<QuantView>::empty(), seq!["vLLM flag recipe pending; hardware/KV facts only; Qwen was researched first."@]))
}

/// The catalog entry for hunyuan-hy3.
pub open spec fn hunyuan_hy3_table() -> ModelView {
    (("hunyuan-hy3"@, "295B/21B"@, true, Seq::<char>::empty(), false), (262144i64, Seq::<char>::empty(), (("flat"@, Seq::<char>::empty(), true), (0i64, 0i64, 0i64, 0i64), (0i64, 0i64, 125000i64, 0i64, 262144i64))), ("Apache 2.0"@, "April preview license excluded EU/UK/KR"@, seq!["vLLM"@, "SGLang"@, "llama.cpp"@], "vllm/vllm-openai:v0.26.0"@), (seq![("fp8"@, Seq::<char>::empty(), 2950i64, "4xH200 / 8xH100"@, "4xH200"@, 0i64, Seq::<ServeView>::empty(), Seq::<HardwareView>::empty()), ("q4"@, Seq::<char>::empty(), 1650i64, "2xH200"@, "2xH200"@, 0i64, Seq::<ServeView>::empty(), Seq::<HardwareView>::empty()), ("1-bit"@, Seq::<char>::empty(), 400i64, "1xH100"@, "1xH100"@, 0i64, Seq::<ServeView>::empty(), Seq::<HardwareView>::empty())], Seq::<QuantView>::empty(), seq!["Official 1-/4-bit GGUF quants exist for single-GPU llama.cpp serving."@, "vLLM flag recipe pending; hardware/KV facts only; Qwen was researched first."@]))
}

/// The hunyuan family's models, in catalog order.
pub open spec fn hunyuan_models() -> Seq<ModelView> {
    seq![hunyuan_a13b_table(), hunyuan_hy3_table()]
}

/// The hunyuan family and its models, in catalog order.
pub fn hunyuan() -> (f: Family)
    ensures
        f.Models@.map_values(|m: Model| model_view(m)) == hunyuan_models(),
        f.Rank == 9,
        f.Name@ == "hunyuan"@,
        f.Models@.map_values(|m: Model| m.Name@) == seq!["hunyuan-a13b"@, "hunyuan-hy3"@],
{
    let f = Family {
        Rank: 9,
        Name: s("hunyuan"),
        Models: vec![
            Model {
                Name: s("hunyuan-a13b"),
                Size: s("80B/13B"),
                MoE: true,
                NativeContext: 262144,
                KV: KVArch {
                    Kind: s("gqa"),
                    Layers: 32,
                    KVHeads: 8,
                    HeadDim: 128,
                    MaxContext: 262144,
                    ..empty_kvarch()
                },
                License: s("Apache 2.0"),
                Engines: vec![s("vLLM"), s("SGLang"), s("llama.cpp")],
                Image: s("vllm/vllm-openai:v0.26.0"),
                Variants: vec![
                    Variant {
                        Name: s("fp8"),
                        WeightsDeciGB: 800,
                        MinGPU: s("1xH200 / 2xH100"),
                        ProdGPU: s("2xH100"),
                        ..empty_variant()
                    },
                    Variant {
                        Name: s("q4"),
                        WeightsDeciGB: 450,
                        MinGPU: s("1xL40S"),
                        ProdGPU: s("1xH100"),
                        ..empty_variant()
                    },
                ],
                Notes: vec![
                    s("vLLM flag recipe pending; hardware/KV facts only; Qwen was researched first."),
                ],
                ..empty_model()
            },
            Model {
                Name: s("hunyuan-hy3"),
                Size: s("295B/21B"),
                MoE: true,
                NativeContext: 262144,
                KV: KVArch {
                    Kind: s("flat"),
                    PerTokenB: 125000,
                    Est: true,
                    MaxContext: 262144,
                    ..empty_kvarch()
                },
                License: s("Apache 2.0"),
                LicenseNote: s("April preview license excluded EU/UK/KR"),
                Engines: vec![s("vLLM"), s("SGLang"), s("llama.cpp")],
                Image: s("vllm/vllm-openai:v0.26.0"),
                Variants: vec![
                    Variant {
                        Name: s("fp8"),
                        WeightsDeciGB: 2950,
                        MinGPU: s("4xH200 / 8xH100"),
                        ProdGPU: s("4xH200"),
                        ..empty_variant()
                    },
                    Variant {
                        Name: s("q4"),
                        WeightsDeciGB: 1650,
                        MinGPU: s("2xH200"),
                        ProdGPU: s("2xH200"),
                        ..empty_variant()
                    },
                    Variant {
                        Name: s("1-bit"),
                        WeightsDeciGB: 400,
                        MinGPU: s("1xH100"),
                        ProdGPU: s("1xH100"),
                        ..empty_variant()
                    },
                ],
                Notes: vec![
                    s("Official 1-/4-bit GGUF quants exist for single-GPU llama.cpp serving."),
                    s("vLLM flag recipe pending; hardware/KV facts only; Qwen was researched first."),
                ],
                ..empty_model()
            },
        ],
    };
    assert(kv_view(f.Models@[0].KV) == (("gqa"@, Seq::<char>::empty(), false), (32i64, 8i64, 128i64, 0i64), (0i64, 0i64, 0i64, 0i64, 262144i64)));
    assert(f.Models@[0].Engines.deep_view() =~= seq!["vLLM"@, "SGLang"@, "llama.cpp"@]);
    assert(variant_view(f.Models@[0].Variants@[0]) == ("fp8"@, Seq::<char>::empty(), 800i64, "1xH200 / 2xH100"@, "2xH100"@, 0i64, Seq::<ServeView>::empty(), Seq::<HardwareView>::empty()));
    assert(variant_view(f.Models@[0].Variants@[1]) == ("q4"@, Seq::<char>::empty(), 450i64, "1xL40S"@, "1xH100"@, 0i64, Seq::<ServeView>::empty(), Seq::<HardwareView>::empty()));
    assert(f.Models@[0].Variants@.map_values(|x: Variant| variant_view(x)) =~= seq![("fp8"@, Seq::<char>::empty(), 800i64, "1xH200 / 2xH100"@, "2xH100"@, 0i64, Seq::<ServeView>::empty(), Seq::<HardwareView>::empty()), ("q4"@, Seq::<char>::empty(), 450i64, "1xL40S"@, "1xH100"@, 0i64, Seq::<ServeView>::empty(), Seq::<HardwareView>::empty())]);
    assert(f.Models@[0].Notes.deep_view() =~= seq!["vLLM flag recipe pending; hardware/KV facts only; Qwen was researched first."@]);
    assert(model_view(f.Models@[0]) == hunyuan_a13b_table());
    assert(kv_view(f.Models@[1].KV) == (("flat"@, Seq::<char>::empty(), true), (0i64, 0i64, 0i64, 0i64), (0i64, 0i64, 125000i64, 0i64, 262144i64)));
    assert(f.Models@[1].Engines.deep_view() =~= seq!["vLLM"@, "SGLang"@, "llama.cpp"@]);
    assert(variant_view(f.Models@[1].Variants@[0]) == ("fp8"@, Seq::<char>::empty(), 2950i64, "4xH200 / 8xH100"@, "4xH200"@, 0i64, Seq::<ServeView>::empty(), Seq::<HardwareView>::empty()));
    assert(variant_view(f.Models@[1].Variants@[1]) == ("q4"@, Seq::<char>::empty(), 1650i64, "2xH200"@, "2xH200"@, 0i64, Seq::<ServeView>::empty(), Seq::<HardwareView>::empty()));
    assert(variant_view(f.Models@[1].Variants@[2]) == ("1-bit"@, Seq::<char>::empty(), 400i64, "1xH100"@, "1xH100"@, 0i64, Seq::<ServeView>::empty(), Seq::<HardwareView>::empty()));
    assert(f.Models@[1].Variants@.map_values(|x: Variant| variant_view(x)) =~= seq![("fp8"@, Seq::<char>::empty(), 2950i64, "4xH200 / 8xH100"@, "4xH200"@, 0i64, Seq::<ServeView>::empty(), Seq::<HardwareView>::empty()), ("q4"@, Seq::<char>::empty(), 1650i64, "2xH200"@, "2xH200"@, 0i64, Seq::<ServeView>::empty(), Seq::<HardwareView>::empty()), ("1-bit"@, Seq::<char>::empty(), 400i64, "1xH100"@, "1xH100"@, 0i64, Seq::<ServeView>::empty(), Seq::<HardwareView>::empty())]);
    assert(f.Models@[1].Notes.deep_view() =~= seq!["Official 1-/4-bit GGUF quants exist for single-GPU llama.cpp serving."@, "vLLM flag recipe pending; hardware/KV facts only; Qwen was researched first."@]);
    assert(model_view(f.Models@[1]) == hunyuan_hy3_table());
    assert(f.Models@.map_values(|m: Model| model_view(m)) =~= hunyuan_models());

    assert(f.Models@.map_values(|m: Model| m.Name@) =~= seq!["hunyuan-a13b"@, "hunyuan-hy3"@]);
    f
}



} // verus!
