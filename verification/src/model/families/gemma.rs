use vstd::prelude::*;
use crate::model::{Family, Flag, Hardware, KVArch, Model, Quant, ServeSpec, Variant};
use crate::model::families::{
    boolFlag, empty_family, empty_hardware, empty_kvarch, empty_model, empty_quant, empty_serve, empty_variant,
    flag, s,
};

use crate::model::families::{
    kv_view, model_view, quant_view, variant_view, KVView, ModelView, QuantView, VariantView,
};
use crate::model::serve::{FlagView, HardwareView, ServeView};

verus! {

/// The catalog entry for gemma3-4b.
pub open spec fn gemma3_4b_table() -> ModelView {
    (("gemma3-4b"@, "4B"@, false, "SWA"@, false), (131072i64, Seq::<char>::empty(), (("swa"@, Seq::<char>::empty(), false), (34i64, 4i64, 256i64, 0i64), (1024i64, 6i64, 0i64, 0i64, 131072i64))), ("Gemma Terms"@, Seq::<char>::empty(), seq!["vLLM"@, "llama.cpp"@, "Ollama"@], "vllm/vllm-openai:v0.26.0"@), (seq![("q4"@, Seq::<char>::empty(), 26i64, "CPU / phone-class"@, "1xL4"@, 0i64, Seq::<ServeView>::empty(), Seq::<HardwareView>::empty())], Seq::<QuantView>::empty(), seq!["Sliding-window attention (5/6 layers at 1K window) keeps KV tiny."@, "KV figures computed from the published config (5:1 local:global, window 1024); supersede the earlier rough estimates."@, "vLLM flag recipe pending; hardware/KV facts only; Qwen was researched first."@]))
}

/// The catalog entry for gemma3-12b.
pub open spec fn gemma3_12b_table() -> ModelView {
    (("gemma3-12b"@, "12B"@, false, "SWA"@, false), (131072i64, Seq::<char>::empty(), (("swa"@, Seq::<char>::empty(), false), (48i64, 8i64, 256i64, 0i64), (1024i64, 6i64, 0i64, 0i64, 131072i64))), ("Gemma Terms"@, Seq::<char>::empty(), seq!["vLLM"@, "llama.cpp"@, "Ollama"@], "vllm/vllm-openai:v0.26.0"@), (seq![("q4"@, Seq::<char>::empty(), 70i64, "1xL4"@, "1xL4"@, 0i64, Seq::<ServeView>::empty(), Seq::<HardwareView>::empty())], Seq::<QuantView>::empty(), seq!["vLLM flag recipe pending; hardware/KV facts only; Qwen was researched first."@]))
}

/// The catalog entry for gemma3-27b.
pub open spec fn gemma3_27b_table() -> ModelView {
    (("gemma3-27b"@, "27B"@, false, "SWA"@, false), (131072i64, Seq::<char>::empty(), (("swa"@, Seq::<char>::empty(), false), (62i64, 16i64, 128i64, 0i64), (1024i64, 6i64, 0i64, 0i64, 131072i64))), ("Gemma Terms"@, "Gemma 4: Apache 2.0"@, seq!["vLLM"@, "llama.cpp"@, "Ollama"@], "vllm/vllm-openai:v0.26.0"@), (seq![("bf16"@, Seq::<char>::empty(), 540i64, "1xH100"@, "1xH100"@, 0i64, Seq::<ServeView>::empty(), Seq::<HardwareView>::empty()), ("int4-qat"@, Seq::<char>::empty(), 150i64, "1xA10G"@, "1xL40S"@, 0i64, Seq::<ServeView>::empty(), Seq::<HardwareView>::empty())], Seq::<QuantView>::empty(), seq!["Official INT4 QAT checkpoints exist; prefer them over community quants."@, "vLLM flag recipe pending; hardware/KV facts only; Qwen was researched first."@]))
}

/// The gemma family's models, in catalog order.
pub open spec fn gemma_models() -> Seq<ModelView> {
    seq![gemma3_4b_table(), gemma3_12b_table(), gemma3_27b_table()]
}

/// The gemma family and its models, in catalog order.
pub fn gemma() -> (f: Family)
    ensures
        f.Models@.map_values(|m: Model| model_view(m)) == gemma_models(),
        f.Rank == 4,
        f.Name@ == "gemma"@,
        f.Models@.map_values(|m: Model| m.Name@) == seq!["gemma3-4b"@, "gemma3-12b"@, "gemma3-27b"@],
{
    let f = Family {
        Rank: 4,
        Name: s("gemma"),
        Models: vec![
            Model {
                Name: s("gemma3-4b"),
                Size: s("4B"),
                Attention: s("SWA"),
                NativeContext: 131072,
                KV: KVArch {
                    Kind: s("swa"),
                    Layers: 34,
                    KVHeads: 4,
                    HeadDim: 256,
                    Window: 1024,
                    FullEvery: 6,
                    MaxContext: 131072,
                    ..empty_kvarch()
                },
                License: s("Gemma Terms"),
                Engines: vec![s("vLLM"), s("llama.cpp"), s("Ollama")],
                Image: s("vllm/vllm-openai:v0.26.0"),
                Variants: vec![
                    Variant {
                        Name: s("q4"),
                        WeightsDeciGB: 26,
                        MinGPU: s("CPU / phone-class"),
                        ProdGPU: s("1xL4"),
                        ..empty_variant()
                    },
                ],
                Notes: vec![
                    s("Sliding-window attention (5/6 layers at 1K window) keeps KV tiny."),
                    s("KV figures computed from the published config (5:1 local:global, window 1024); supersede the earlier rough estimates."),
                    s("vLLM flag recipe pending; hardware/KV facts only; Qwen was researched first."),
                ],
                ..empty_model()
            },
            Model {
                Name: s("gemma3-12b"),
                Size: s("12B"),
                Attention: s("SWA"),
                NativeContext: 131072,
                KV: KVArch {
                    Kind: s("swa"),
                    Layers: 48,
                    KVHeads: 8,
                    HeadDim: 256,
                    Window: 1024,
                    FullEvery: 6,
                    MaxContext: 131072,
                    ..empty_kvarch()
                },
                License: s("Gemma Terms"),
                Engines: vec![s("vLLM"), s("llama.cpp"), s("Ollama")],
                Image: s("vllm/vllm-openai:v0.26.0"),
                Variants: vec![
                    Variant {
                        Name: s("q4"),
                        WeightsDeciGB: 70,
                        MinGPU: s("1xL4"),
                        ProdGPU: s("1xL4"),
                        ..empty_variant()
                    },
                ],
                Notes: vec![
                    s("vLLM flag recipe pending; hardware/KV facts only; Qwen was researched first."),
                ],
                ..empty_model()
            },
            Model {
                Name: s("gemma3-27b"),
                Size: s("27B"),
                Attention: s("SWA"),
                NativeContext: 131072,
                KV: KVArch {
                    Kind: s("swa"),
                    Layers: 62,
                    KVHeads: 16,
                    HeadDim: 128,
                    Window: 1024,
                    FullEvery: 6,
                    MaxContext: 131072,
                    ..empty_kvarch()
                },
                License: s("Gemma Terms"),
                LicenseNote: s("Gemma 4: Apache 2.0"),
                Engines: vec![s("vLLM"), s("llama.cpp"), s("Ollama")],
                Image: s("vllm/vllm-openai:v0.26.0"),
                Variants: vec![
                    Variant {
                        Name: s("bf16"),
                        WeightsDeciGB: 540,
                        MinGPU: s("1xH100"),
                        ProdGPU: s("1xH100"),
                        ..empty_variant()
                    },
                    Variant {
                        Name: s("int4-qat"),
                        WeightsDeciGB: 150,
                        MinGPU: s("1xA10G"),
                        ProdGPU: s("1xL40S"),
                        ..empty_variant()
                    },
                ],
                Notes: vec![
                    s("Official INT4 QAT checkpoints exist; prefer them over community quants."),
                    s("vLLM flag recipe pending; hardware/KV facts only; Qwen was researched first."),
                ],
                ..empty_model()
            },
        ],
    };
    assert(kv_view(f.Models@[0].KV) == (("swa"@, Seq::<char>::empty(), false), (34i64, 4i64, 256i64, 0i64), (1024i64, 6i64, 0i64, 0i64, 131072i64)));
    assert(f.Models@[0].Engines.deep_view() =~= seq!["vLLM"@, "llama.cpp"@, "Ollama"@]);
    assert(variant_view(f.Models@[0].Variants@[0]) == ("q4"@, Seq::<char>::empty(), 26i64, "CPU / phone-class"@, "1xL4"@, 0i64, Seq::<ServeView>::empty(), Seq::<HardwareView>::empty()));
    assert(f.Models@[0].Variants@.map_values(|x: Variant| variant_view(x)) =~= seq![("q4"@, Seq::<char>::empty(), 26i64, "CPU / phone-class"@, "1xL4"@, 0i64, Seq::<ServeView>::empty(), Seq::<HardwareView>::empty())]);
    assert(f.Models@[0].Notes.deep_view() =~= seq!["Sliding-window attention (5/6 layers at 1K window) keeps KV tiny."@, "KV figures computed from the published config (5:1 local:global, window 1024); supersede the earlier rough estimates."@, "vLLM flag recipe pending; hardware/KV facts only; Qwen was researched first."@]);
    assert(model_view(f.Models@[0]) == gemma3_4b_table());
    assert(kv_view(f.Models@[1].KV) == (("swa"@, Seq::<char>::empty(), false), (48i64, 8i64, 256i64, 0i64), (1024i64, 6i64, 0i64, 0i64, 131072i64)));
    assert(f.Models@[1].Engines.deep_view() =~= seq!["vLLM"@, "llama.cpp"@, "Ollama"@]);
    assert(variant_view(f.Models@[1].Variants@[0]) == ("q4"@, Seq::<char>::empty(), 70i64, "1xL4"@, "1xL4"@, 0i64, Seq::<ServeView>::empty(), Seq::<HardwareView>::empty()));
    assert(f.Models@[1].Variants@.map_values(|x: Variant| variant_view(x)) =~= seq![("q4"@, Seq::<char>::empty(), 70i64, "1xL4"@, "1xL4"@, 0i64, Seq::<ServeView>::empty(), Seq::<HardwareView>::empty())]);
    assert(f.Models@[1].Notes.deep_view() =~= seq!["vLLM flag recipe pending; hardware/KV facts only; Qwen was researched first."@]);
    assert(model_view(f.Models@[1]) == gemma3_12b_table());
    assert(kv_view(f.Models@[2].KV) == (("swa"@, Seq::<char>::empty(), false), (62i64, 16i64, 128i64, 0i64), (1024i64, 6i64, 0i64, 0i64, 131072i64)));
    assert(f.Models@[2].Engines.deep_view() =~= seq!["vLLM"@, "llama.cpp"@, "Ollama"@]);
    assert(variant_view(f.Models@[2].Variants@[0]) == ("bf16"@, Seq::<char>::empty(), 540i64, "1xH100"@, "1xH100"@, 0i64, Seq::<ServeView>::empty(), Seq::<HardwareView>::empty()));
    assert(variant_view(f.Models@[2].Variants@[1]) == ("int4-qat"@, Seq::<char>::empty(), 150i64, "1xA10G"@, "1xL40S"@, 0i64, Seq::<ServeView>::empty(), Seq::<HardwareView>::empty()));
    assert(f.Models@[2].Variants@.map_values(|x: Variant| variant_view(x)) =~= seq![("bf16"@, Seq::<char>::empty(), 540i64, "1xH100"@, "1xH100"@, 0i64, Seq::<ServeView>::empty(), Seq::<HardwareView>::empty()), ("int4-qat"@, Seq::<char>::empty(), 150i64, "1xA10G"@, "1xL40S"@, 0i64, Seq::<ServeView>::empty(), Seq::<HardwareView>::empty())]);
    assert(f.Models@[2].Notes.deep_view() =~= seq!["Official INT4 QAT checkpoints exist; prefer them over community quants."@, "vLLM flag recipe pending; hardware/KV facts only; Qwen was researched first."@]);
    assert(model_view(f.Models@[2]) == gemma3_27b_table());
    assert(f.Models@.map_values(|m: Model| model_view(m)) =~= gemma_models());

    assert(f.Models@.map_values(|m: Model| m.Name@) =~= seq!["gemma3-4b"@, "gemma3-12b"@, "gemma3-27b"@]);
    f
}



} // verus!
