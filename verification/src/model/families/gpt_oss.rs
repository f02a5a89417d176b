use vstd::prelude::*;
use crate::model::{Family, Flag, Hardware, KVArch, Model, Quant, ServeSpec, Variant};
use crate::model::families::{
    boolFlag, empty_family, empty_hardware, empty_kvarch, empty_model, empty_quant, empty_serve, empty_variant,
    flag, s,
};

use crate::model::families::{
    kv_view, model_view, quant_view, variant_view, KVView, ModelView, QuantView, VariantView,
};
use crate::model::serve::{FlagView, HardwareView, ServeView};

verus! {

/// The catalog entry for gpt-oss-20b.
pub open spec fn gpt_oss_20b_table() -> ModelView {
    (("gpt-oss-20b"@, "21B/3.6B"@, true, "SWA"@, false), (131072i64, Seq::<char>::empty(), (("swa"@, Seq::<char>::empty(), false), (24i64, 8i64, 64i64, 0i64), (128i64, 2i64, 0i64, 0i64, 131072i64))), ("Apache 2.0"@, Seq::<char>::empty(), seq!["vLLM"@, "Ollama"@, "llama.cpp"@, "TensorRT-LLM"@], "vllm/vllm-openai:v0.26.0"@), (seq![("mxfp4"@, Seq::<char>::empty(), 128i64, "1xA10G / 16GB RAM"@, "1xL40S"@, 0i64, Seq::<ServeView>::empty(), Seq::<HardwareView>::empty())], Seq::<QuantView>::empty(), seq!["Ships MXFP4-native; no separate quantization step needed."@, "vLLM flag recipe pending; hardware/KV facts only; Qwen was researched first."@]))
}

/// The catalog entry for gpt-oss-120b.
pub open spec fn gpt_oss_120b_table() -> ModelView {
    (("gpt-oss-120b"@, "117B/5.1B"@, true, "SWA"@, false), (131072i64, Seq::<char>::empty(), (("swa"@, Seq::<char>::empty(), false), (36i64, 8i64, 64i64, 0i64), (128i64, 2i64, 0i64, 0i64, 131072i64))), ("Apache 2.0"@, Seq::<char>::empty(), seq!["vLLM"@, "Ollama"@, "llama.cpp"@, "TensorRT-LLM"@], "vllm/vllm-openai:v0.26.0"@), (seq![("mxfp4"@, Seq::<char>::empty(), 610i64, "1xH100"@, "1xH100"@, 0i64, Seq::<ServeView>::empty(), Seq::<HardwareView>::empty()), ("bf16"@, Seq::<char>::empty(), 2350i64, "4xH100"@, "4xH100"@, 0i64, Seq::<ServeView>::empty(), Seq::<HardwareView>::empty())], Seq::<QuantView>::empty(), seq!["Full 128K on one H100 with 2.4 GB KV; less than a Llama 8B; interleaved sliding-window attention."@, "Best long-context concurrency per dollar in the top 10."@, "vLLM flag recipe pending; hardware/KV facts only; Qwen was researched first."@]))
}

/// The gpt_oss family's models, in catalog order.
pub open spec fn gpt_oss_models() -> Seq<ModelView> {
    seq![gpt_oss_20b_table(), gpt_oss_120b_table()]
}

/// The gpt-oss family and its models, in catalog order.
pub fn gpt_oss() -> (f: Family)
    ensures
        f.Models@.map_values(|m: Model| model_view(m)) == gpt_oss_models(),
        f.Rank == 5,
        f.Name@ == "gpt-oss"@,
        f.Models@.map_values(|m: Model| m.Name@) == seq!["gpt-oss-20b"@, "gpt-oss-120b"@],
{
    let f = Family {
        Rank: 5,
        Name: s("gpt-oss"),
        Models: vec![
            Model {
                Name: s("gpt-oss-20b"),
                Size: s("21B/3.6B"),
                MoE: true,
                Attention: s("SWA"),
                NativeContext: 131072,
                KV: KVArch {
                    Kind: s("swa"),
                    Layers: 24,
                    KVHeads: 8,
                    HeadDim: 64,
                    Window: 128,
                    FullEvery: 2,
                    MaxContext: 131072,
                    ..empty_kvarch()
                },
                License: s("Apache 2.0"),
                Engines: vec![s("vLLM"), s("Ollama"), s("llama.cpp"), s("TensorRT-LLM")],
                Image: s("vllm/vllm-openai:v0.26.0"),
                Variants: vec![
                    Variant {
                        Name: s("mxfp4"),
                        WeightsDeciGB: 128,
                        MinGPU: s("1xA10G / 16GB RAM"),
                        ProdGPU: s("1xL40S"),
                        ..empty_variant()
                    },
                ],
                Notes: vec![
                    s("Ships MXFP4-native; no separate quantization step needed."),
                    s("vLLM flag recipe pending; hardware/KV facts only; Qwen was researched first."),
                ],
                ..empty_model()
            },
            Model {
                Name: s("gpt-oss-120b"),
                Size: s("117B/5.1B"),
                MoE: true,
                Attention: s("SWA"),
                NativeContext: 131072,
                KV: KVArch {
                    Kind: s("swa"),
                    Layers: 36,
                    KVHeads: 8,
                    HeadDim: 64,
                    Window: 128,
                    FullEvery: 2,
                    MaxContext: 131072,
                    ..empty_kvarch()
                },
                License: s("Apache 2.0"),
                Engines: vec![s("vLLM"), s("Ollama"), s("llama.cpp"), s("TensorRT-LLM")],
                Image: s("vllm/vllm-openai:v0.26.0"),
                Variants: vec![
                    Variant {
                        Name: s("mxfp4"),
                        WeightsDeciGB: 610,
                        MinGPU: s("1xH100"),
                        ProdGPU: s("1xH100"),
                        ..empty_variant()
                    },
                    Variant {
                        Name: s("bf16"),
                        WeightsDeciGB: 2350,
                        MinGPU: s("4xH100"),
                        ProdGPU: s("4xH100"),
                        ..empty_variant()
                    },
                ],
                Notes: vec![
                    s("Full 128K on one H100 with 2.4 GB KV; less than a Llama 8B; interleaved sliding-window attention."),
                    s("Best long-context concurrency per dollar in the top 10."),
                    s("vLLM flag recipe pending; hardware/KV facts only; Qwen was researched first."),
                ],
                ..empty_model()
            },
        ],
    };
    assert(kv_view(f.Models@[0].KV) == (("swa"@, Seq::<char>::empty(), false), (24i64, 8i64, 64i64, 0i64), (128i64, 2i64, 0i64, 0i64, 131072i64)));
    assert(f.Models@[0].Engines.deep_view() =~= seq!["vLLM"@, "Ollama"@, "llama.cpp"@, "TensorRT-LLM"@]);
    assert(variant_view(f.Models@[0].Variants@[0]) == ("mxfp4"@, Seq::<char>::empty(), 128i64, "1xA10G / 16GB RAM"@, "1xL40S"@, 0i64, Seq::<ServeView>::empty(), Seq::<HardwareView>::empty()));
    assert(f.Models@[0].Variants@.map_values(|x: Variant| variant_view(x)) =~= seq![("mxfp4"@, Seq::<char>::empty(), 128i64, "1xA10G / 16GB RAM"@, "1xL40S"@, 0i64, Seq::<ServeView>::empty(), Seq::<HardwareView>::empty())]);
    assert(f.Models@[0].Notes.deep_view() =~= seq!["Ships MXFP4-native; no separate quantization step needed."@, "vLLM flag recipe pending; hardware/KV facts only; Qwen was researched first."@]);
    assert(model_view(f.Models@[0]) == gpt_oss_20b_table());
    assert(kv_view(f.Models@[1].KV) == (("swa"@, Seq::<char>::empty(), false), (36i64, 8i64, 64i64, 0i64), (128i64, 2i64, 0i64, 0i64, 131072i64)));
    assert(f.Models@[1].Engines.deep_view() =~= seq!["vLLM"@, "Ollama"@, "llama.cpp"@, "TensorRT-LLM"@]);
    assert(variant_view(f.Models@[1].Variants@[0]) == ("mxfp4"@, Seq::<char>::empty(), 610i64, "1xH100"@, "1xH100"@, 0i64, Seq::<ServeView>::empty(), Seq::<HardwareView>::empty()));
    assert(variant_view(f.Models@[1].Variants@[1]) == ("bf16"@, Seq::<char>::empty(), 2350i64, "4xH100"@, "4xH100"@, 0i64, Seq::<ServeView>::empty(), Seq::<HardwareView>::empty()));
    assert(f.Models@[1].Variants@.map_values(|x: Variant| variant_view(x)) =~= seq![("mxfp4"@, Seq::<char>::empty(), 610i64, "1xH100"@, "1xH100"@, 0i64, Seq::<ServeView>::empty(), Seq::<HardwareView>::empty()), ("bf16"@, Seq::<char>::empty(), 2350i64, "4xH100"@, "4xH100"@, 0i64, Seq::<ServeView>::empty(), Seq::<HardwareView>::empty())]);
    assert(f.Models@[1].Notes.deep_view() =~= seq!["Full 128K on one H100 with 2.4 GB KV; less than a Llama 8B; interleaved sliding-window attention."@, "Best long-context concurrency per dollar in the top 10."@, "vLLM flag recipe pending; hardware/KV facts only; Qwen was researched first."@]);
    assert(model_view(f.Models@[1]) == gpt_oss_120b_table());
    assert(f.Models@.map_values(|m: Model| model_view(m)) =~= gpt_oss_models());

    assert(f.Models@.map_values(|m: Model| m.Name@) =~= seq!["gpt-oss-20b"@, "gpt-oss-120b"@]);
    f
}



} // verus!
