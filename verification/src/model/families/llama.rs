use vstd::prelude::*;
use crate::model::{Family, Flag, Hardware, KVArch, Model, Quant, ServeSpec, Variant};
use crate::model::families::{
    boolFlag, empty_family, empty_hardware, empty_kvarch, empty_model, empty_quant, empty_serve, empty_variant,
    flag, s,
};

use crate::model::families::{
    kv_view, model_view, quant_view, variant_view, KVView, ModelView, QuantView, VariantView,
};
use crate::model::serve::{FlagView, HardwareView, ServeView};

verus! {

/// The catalog entry for llama3.1-8b.
pub open spec fn llama3_1_8b_table() -> ModelView {
    (("llama3.1-8b"@, "8B"@, false, Seq::<char>::empty(), false), (131072i64, Seq::<char>::empty(), (("gqa"@, Seq::<char>::empty(), false), (32i64, 8i64, 128i64, 0i64), (0i64, 0i64, 0i64, 0i64, 131072i64))), ("Llama Community License"@, "700M-MAU clause + attribution"@, seq!["vLLM"@, "TensorRT-LLM"@, "llama.cpp"@], "vllm/vllm-openai:v0.26.0"@), (seq![("fp8"@, Seq::<char>::empty(), 80i64, "1xL4"@, "1xL4"@, 0i64, Seq::<ServeView>::empty(), Seq::<HardwareView>::empty()), ("q4"@, Seq::<char>::empty(), 47i64, "1xT4"@, "1xL4"@, 0i64, Seq::<ServeView>::empty(), Seq::<HardwareView>::empty())], Seq::<QuantView>::empty(), seq!["License: 700M-MAU clause + naming/attribution requirements; legal review before prod."@, "Plain GQA pays KV linearly: at 128K an 8B needs 8 GB KV; as much as its weights."@, "vLLM flag recipe pending; hardware/KV facts only; Qwen was researched first."@]))
}

/// The catalog entry for llama3.3-70b.
pub open spec fn llama3_3_70b_table() -> ModelView {
    (("llama3.3-70b"@, "70B"@, false, Seq::<char>::empty(), false), (131072i64, Seq::<char>::empty(), (("gqa"@, Seq::<char>::empty(), false), (80i64, 8i64, 128i64, 0i64), (0i64, 0i64, 0i64, 0i64, 131072i64))), ("Llama Community License"@, "700M-MAU clause"@, seq!["vLLM"@, "TensorRT-LLM"@, "llama.cpp"@], "vllm/vllm-openai:v0.26.0"@), (seq![("bf16"@, Seq::<char>::empty(), 1400i64, "2xH100"@, "2xH200"@, 0i64, Seq::<ServeView>::empty(), Seq::<HardwareView>::empty()), ("fp8"@, Seq::<char>::empty(), 700i64, "1xH200"@, "2xH100"@, 0i64, Seq::<ServeView>::empty(), Seq::<HardwareView>::empty()), ("q4"@, Seq::<char>::empty(), 400i64, "1xL40S"@, "1xH100"@, 0i64, Seq::<ServeView>::empty(), Seq::<HardwareView>::empty())], Seq::<QuantView>::empty(), seq!["License: 700M-MAU clause; legal review before prod."@, "vLLM flag recipe pending; hardware/KV facts only; Qwen was researched first."@]))
}

/// The catalog entry for llama4-scout.
pub open spec fn llama4_scout_table() -> ModelView {
    (("llama4-scout"@, "109B/17B"@, true, Seq::<char>::empty(), false), (10485760i64, Seq::<char>::empty(), (("flat"@, Seq::<char>::empty(), true), (0i64, 0i64, 0i64, 0i64), (0i64, 0i64, 96000i64, 0i64, 10485760i64))), ("Llama Community License"@, "700M-MAU clause"@, seq!["vLLM"@, "TensorRT-LLM"@], "vllm/vllm-openai:v0.26.0"@), (seq![("fp8"@, Seq::<char>::empty(), 1090i64, "1xH200 / 2xH100"@, "2xH100"@, 0i64, Seq::<ServeView>::empty(), Seq::<HardwareView>::empty())], Seq::<QuantView>::empty(), seq!["10M context is claimed, not a practical serving target; budget KV for real traffic."@, "vLLM flag recipe pending; hardware/KV facts only; Qwen was researched first."@]))
}

/// The llama family's models, in catalog order.
pub open spec fn llama_models() -> Seq<ModelView> {
    seq![llama3_1_8b_table(), llama3_3_70b_table(), llama4_scout_table()]
}

/// The llama family and its models, in catalog order.
pub fn llama() -> (f: Family)
    ensures
        f.Models@.map_values(|m: Model| model_view(m)) == llama_models(),
        f.Rank == 3,
        f.Name@ == "llama"@,
        f.Models@.map_values(|m: Model| m.Name@) == seq!["llama3.1-8b"@, "llama3.3-70b"@, "llama4-scout"@],
{
    let f = Family {
        Rank: 3,
        Name: s("llama"),
        Models: vec![
            Model {
                Name: s("llama3.1-8b"),
                Size: s("8B"),
                NativeContext: 131072,
                KV: KVArch {
                    Kind: s("gqa"),
                    Layers: 32,
                    KVHeads: 8,
                    HeadDim: 128,
                    MaxContext: 131072,
                    ..empty_kvarch()
                },
                License: s("Llama Community License"),
                LicenseNote: s("700M-MAU clause + attribution"),
                Engines: vec![s("vLLM"), s("TensorRT-LLM"), s("llama.cpp")],
                Image: s("vllm/vllm-openai:v0.26.0"),
                Variants: vec![
                    Variant {
                        Name: s("fp8"),
                        WeightsDeciGB: 80,
                        MinGPU: s("1xL4"),
                        ProdGPU: s("1xL4"),
                        ..empty_variant()
                    },
                    Variant {
                        Name: s("q4"),
                        WeightsDeciGB: 47,
                        MinGPU: s("1xT4"),
                        ProdGPU: s("1xL4"),
                        ..empty_variant()
                    },
                ],
                Notes: vec![
                    s("License: 700M-MAU clause + naming/attribution requirements; legal review before prod."),
                    s("Plain GQA pays KV linearly: at 128K an 8B needs 8 GB KV; as much as its weights."),
                    s("vLLM flag recipe pending; hardware/KV facts only; Qwen was researched first."),
                ],
                ..empty_model()
            },
            Model {
                Name: s("llama3.3-70b"),
                Size: s("70B"),
                NativeContext: 131072,
                KV: KVArch {
                    Kind: s("gqa"),
                    Layers: 80,
                    KVHeads: 8,
                    HeadDim: 128,
                    MaxContext: 131072,
                    ..empty_kvarch()
                },
                License: s("Llama Community License"),
                LicenseNote: s("700M-MAU clause"),
                Engines: vec![s("vLLM"), s("TensorRT-LLM"), s("llama.cpp")],
                Image: s("vllm/vllm-openai:v0.26.0"),
                Variants: vec![
                    Variant {
                        Name: s("bf16"),
                        WeightsDeciGB: 1400,
                        MinGPU: s("2xH100"),
                        ProdGPU: s("2xH200"),
                        ..empty_variant()
                    },
                    Variant {
                        Name: s("fp8"),
                        WeightsDeciGB: 700,
                        MinGPU: s("1xH200"),
                        ProdGPU: s("2xH100"),
                        ..empty_variant()
                    },
                    Variant {
                        Name: s("q4"),
                        WeightsDeciGB: 400,
                        MinGPU: s("1xL40S"),
                        ProdGPU: s("1xH100"),
                        ..empty_variant()
                    },
                ],
                Notes: vec![
                    s("License: 700M-MAU clause; legal review before prod."),
                    s("vLLM flag recipe pending; hardware/KV facts only; Qwen was researched first."),
                ],
                ..empty_model()
            },
            Model {
                Name: s("llama4-scout"),
                Size: s("109B/17B"),
                MoE: true,
                NativeContext: 10485760,
                KV: KVArch {
                    Kind: s("flat"),
                    PerTokenB: 96000,
                    Est: true,
                    MaxContext: 10485760,
                    ..empty_kvarch()
                },
                License: s("Llama Community License"),
                LicenseNote: s("700M-MAU clause"),
                Engines: vec![s("vLLM"), s("TensorRT-LLM")],
                Image: s("vllm/vllm-openai:v0.26.0"),
                Variants: vec![
                    Variant {
                        Name: s("fp8"),
                        WeightsDeciGB: 1090,
                        MinGPU: s("1xH200 / 2xH100"),
                        ProdGPU: s("2xH100"),
                        ..empty_variant()
                    },
                ],
                Notes: vec![
                    s("10M context is claimed, not a practical serving target; budget KV for real traffic."),
                    s("vLLM flag recipe pending; hardware/KV facts only; Qwen was researched first."),
                ],
                ..empty_model()
            },
        ],
    };
    assert(kv_view(f.Models@[0].KV) == (("gqa"@, Seq::<char>::empty(), false), (32i64, 8i64, 128i64, 0i64), (0i64, 0i64, 0i64, 0i64, 131072i64)));
    assert(f.Models@[0].Engines.deep_view() =~= seq!["vLLM"@, "TensorRT-LLM"@, "llama.cpp"@]);
    assert(variant_view(f.Models@[0].Variants@[0]) == ("fp8"@, Seq::<char>::empty(), 80i64, "1xL4"@, "1xL4"@, 0i64, Seq::<ServeView>::empty(), Seq::<HardwareView>::empty()));
    assert(variant_view(f.Models@[0].Variants@[1]) == ("q4"@, Seq::<char>::empty(), 47i64, "1xT4"@, "1xL4"@, 0i64, Seq::<ServeView>::empty(), Seq::<HardwareView>::empty()));
    assert(f.Models@[0].Variants@.map_values(|x: Variant| variant_view(x)) =~= seq![("fp8"@, Seq::<char>::empty(), 80i64, "1xL4"@, "1xL4"@, 0i64, Seq::<ServeView>::empty(), Seq::<HardwareView>::empty()), ("q4"@, Seq::<char>::empty(), 47i64, "1xT4"@, "1xL4"@, 0i64, Seq::<ServeView>::empty(), Seq::<HardwareView>::empty())]);
    assert(f.Models@[0].Notes.deep_view() =~= seq!["License: 700M-MAU clause + naming/attribution requirements; legal review before prod."@, "Plain GQA pays KV linearly: at 128K an 8B needs 8 GB KV; as much as its weights."@, "vLLM flag recipe pending; hardware/KV facts only; Qwen was researched first."@]);
    assert(model_view(f.Models@[0]) == llama3_1_8b_table());
    assert(kv_view(f.Models@[1].KV) == (("gqa"@, Seq::<char>::empty(), false), (80i64, 8i64, 128i64, 0i64), (0i64, 0i64, 0i64, 0i64, 131072i64)));
    assert(f.Models@[1].Engines.deep_view() =~= seq!["vLLM"@, "TensorRT-LLM"@, "llama.cpp"@]);
    assert(variant_view(f.Models@[1].Variants@[0]) == ("bf16"@, Seq::<char>::empty(), 1400i64, "2xH100"@, "2xH200"@, 0i64, Seq::<ServeView>::empty(), Seq::<HardwareView>::empty()));
    assert(variant_view(f.Models@[1].Variants@[1]) == ("fp8"@, Seq::<char>::empty(), 700i64, "1xH200"@, "2xH100"@, 0i64, Seq::<ServeView>::empty(), Seq::<HardwareView>::empty()));
    assert(variant_view(f.Models@[1].Variants@[2]) == ("q4"@, Seq::<char>::empty(), 400i64, "1xL40S"@, "1xH100"@, 0i64, Seq::<ServeView>::empty(), Seq::<HardwareView>::empty()));
    assert(f.Models@[1].Variants@.map_values(|x: Variant| variant_view(x)) =~= seq![("bf16"@, Seq::<char>::empty(), 1400i64, "2xH100"@, "2xH200"@, 0i64, Seq::<ServeView>::empty(), Seq::<HardwareView>::empty()), ("fp8"@, Seq::<char>::empty(), 700i64, "1xH200"@, "2xH100"@, 0i64, Seq::<ServeView>::empty(), Seq::<HardwareView>::empty()), ("q4"@, Seq::<char>::empty(), 400i64, "1xL40S"@, "1xH100"@, 0i64, Seq::<ServeView>::empty(), Seq::<HardwareView>::empty())]);
    assert(f.Models@[1].Notes.deep_view() =~= seq!["License: 700M-MAU clause; legal review before prod."@, "vLLM flag recipe pending; hardware/KV facts only; Qwen was researched first."@]);
    assert(model_view(f.Models@[1]) == llama3_3_70b_table());
    assert(kv_view(f.Models@[2].KV) == (("flat"@, Seq::<char>::empty(), true), (0i64, 0i64, 0i64, 0i64), (0i64, 0i64, 96000i64, 0i64, 10485760i64)));
    assert(f.Models@[2].Engines.deep_view() =~= seq!["vLLM"@, "TensorRT-LLM"@]);
    assert(variant_view(f.Models@[2].Variants@[0]) == ("fp8"@, Seq::<char>::empty(), 1090i64, "1xH200 / 2xH100"@, "2xH100"@, 0i64, Seq::<ServeView>::empty(), Seq::<HardwareView>::empty()));
    assert(f.Models@[2].Variants@.map_values(|x: Variant| variant_view(x)) =~= seq![("fp8"@, Seq::<char>::empty(), 1090i64, "1xH200 / 2xH100"@, "2xH100"@, 0i64, Seq::<ServeView>::empty(), Seq::<HardwareView>::empty())]);
    assert(f.Models@[2].Notes.deep_view() =~= seq!["10M context is claimed, not a practical serving target; budget KV for real traffic."@, "vLLM flag recipe pending; hardware/KV facts only; Qwen was researched first."@]);
    assert(model_view(f.Models@[2]) == llama4_scout_table());
    assert(f.Models@.map_values(|m: Model| model_view(m)) =~= llama_models());

    assert(f.Models@.map_values(|m: Model| m.Name@) =~= seq!["llama3.1-8b"@, "llama3.3-70b"@, "llama4-scout"@]);
    f
}



} // verus!
