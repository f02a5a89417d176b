use vstd::prelude::*;
use crate::model::{Family, Flag, Hardware, KVArch, Model, Quant, ServeSpec, Variant};
use crate::model::families::{
    boolFlag, empty_family, empty_hardware, empty_kvarch, empty_model, empty_quant, empty_serve, empty_variant,
    flag, s,
};

use crate::model::families::{
    kv_view, model_view, quant_view, variant_view, KVView, ModelView, QuantView, VariantView,
};
use crate::model::serve::{FlagView, HardwareView, ServeView};

verus! {

/// The catalog entry for deepseek-v4-flash.
pub open spec fn deepseek_v4_flash_table() -> ModelView {
    (("deepseek-v4-flash"@, "284B/13B"@, true, "MLA"@, false), (1048576i64, Seq::<char>::empty(), (("flat"@, Seq::<char>::empty(), true), (0i64, 0i64, 0i64, 0i64), (0i64, 0i64, 35000i64, 0i64, 1048576i64))), ("MIT"@, Seq::<char>::empty(), seq!["SGLang"@, "vLLM"@], "vllm/vllm-openai:v0.26.0"@), (seq![("fp8"@, Seq::<char>::empty(), 2840i64, "4xH200 / 8xH100"@, "4xH200"@, 0i64, Seq::<ServeView>::empty(), Seq::<HardwareView>::empty()), ("q4"@, Seq::<char>::empty(), 1600i64, "2xH200"@, "2xH200"@, 0i64, Seq::<ServeView>::empty(), Seq::<HardwareView>::empty())], Seq::<QuantView>::empty(), seq!["MLA compresses KV to ~35 KB/token regardless of size; why 1M context is viable."@, "MoE floor is set by TOTAL params (284 GB in memory), active 13B buys throughput only."@, "vLLM v0.20.0/v0.20.1 were largely DeepSeek V4 stabilization releases (hang + KV-allocation fixes)."@, "vLLM flag recipe pending; hardware/KV facts only; Qwen was researched first."@]))
}

/// The catalog entry for deepseek-v4-pro.
pub open spec fn deepseek_v4_pro_table() -> ModelView {
    (("deepseek-v4-pro"@, "1.6T/49B"@, true, "MLA"@, false), (1048576i64, Seq::<char>::empty(), (("flat"@, Seq::<char>::empty(), true), (0i64, 0i64, 0i64, 0i64), (0i64, 0i64, 60000i64, 0i64, 1048576i64))), ("MIT"@, Seq::<char>::empty(), seq!["SGLang"@], "vllm/vllm-openai:v0.26.0"@), (seq![("fp8"@, Seq::<char>::empty(), 16000i64, "16-24xH200 multi-node"@, Seq::<char>::empty(), 0i64, Seq::<ServeView>::empty(), Seq::<HardwareView>::empty())], Seq::<QuantView>::empty(), seq!["Multi-node only; expert parallelism required."@, "vLLM flag recipe pending; hardware/KV facts only; Qwen was researched first."@]))
}

/// The catalog entry for deepseek-r1.
pub open spec fn deepseek_r1_table() -> ModelView {
    (("deepseek-r1"@, "671B/37B"@, true, "MLA"@, false), (131072i64, Seq::<char>::empty(), (("mla"@, Seq::<char>::empty(), false), (61i64, 0i64, 0i64, 576i64), (0i64, 0i64, 0i64, 0i64, 131072i64))), ("MIT"@, Seq::<char>::empty(), seq!["SGLang"@, "vLLM"@], "vllm/vllm-openai:v0.26.0"@), (seq![("fp8"@, Seq::<char>::empty(), 6710i64, "8xH200"@, "8xH200"@, 0i64, Seq::<ServeView>::empty(), Seq::<HardwareView>::empty())], Seq::<QuantView>::empty(), seq!["Most-liked open LLM on HF; superseded for inference by V4."@, "vLLM flag recipe pending; hardware/KV facts only; Qwen was researched first."@]))
}

/// The deepseek family's models, in catalog order.
pub open spec fn deepseek_models() -> Seq<ModelView> {
    seq![deepseek_v4_flash_table(), deepseek_v4_pro_table(), deepseek_r1_table()]
}

/// The deepseek family and its models, in catalog order.
pub fn deepseek() -> (f: Family)
    ensures
        f.Models@.map_values(|m: Model| model_view(m)) == deepseek_models(),
        f.Rank == 2,
        f.Name@ == "deepseek"@,
        f.Models@.map_values(|m: Model| m.Name@) == seq!["deepseek-v4-flash"@, "deepseek-v4-pro"@, "deepseek-r1"@],
{
    let f = Family {
        Rank: 2,
        Name: s("deepseek"),
        Models: vec![
            Model {
                Name: s("deepseek-v4-flash"),
                Size: s("284B/13B"),
                MoE: true,
                Attention: s("MLA"),
                NativeContext: 1048576,
                KV: KVArch {
                    Kind: s("flat"),
                    PerTokenB: 35000,
                    Est: true,
                    MaxContext: 1048576,
                    ..empty_kvarch()
                },
                License: s("MIT"),
                Engines: vec![s("SGLang"), s("vLLM")],
                Image: s("vllm/vllm-openai:v0.26.0"),
                Variants: vec![
                    Variant {
                        Name: s("fp8"),
                        WeightsDeciGB: 2840,
                        MinGPU: s("4xH200 / 8xH100"),
                        ProdGPU: s("4xH200"),
                        ..empty_variant()
                    },
                    Variant {
                        Name: s("q4"),
                        WeightsDeciGB: 1600,
                        MinGPU: s("2xH200"),
                        ProdGPU: s("2xH200"),
                        ..empty_variant()
                    },
                ],
                Notes: vec![
                    s("MLA compresses KV to ~35 KB/token regardless of size; why 1M context is viable."),
                    s("MoE floor is set by TOTAL params (284 GB in memory), active 13B buys throughput only."),
                    s("vLLM v0.20.0/v0.20.1 were largely DeepSeek V4 stabilization releases (hang + KV-allocation fixes)."),
                    s("vLLM flag recipe pending; hardware/KV facts only; Qwen was researched first."),
                ],
                ..empty_model()
            },
            Model {
                Name: s("deepseek-v4-pro"),
                Size: s("1.6T/49B"),
                MoE: true,
                Attention: s("MLA"),
                NativeContext: 1048576,
                KV: KVArch {
                    Kind: s("flat"),
                    PerTokenB: 60000,
                    Est: true,
                    MaxContext: 1048576,
                    ..empty_kvarch()
                },
                License: s("MIT"),
                Engines: vec![s("SGLang")],
                Image: s("vllm/vllm-openai:v0.26.0"),
                Variants: vec![
                    Variant {
                        Name: s("fp8"),
                        WeightsDeciGB: 16000,
                        MinGPU: s("16-24xH200 multi-node"),
                        ..empty_variant()
                    },
                ],
                Notes: vec![
                    s("Multi-node only; expert parallelism required."),
                    s("vLLM flag recipe pending; hardware/KV facts only; Qwen was researched first."),
                ],
                ..empty_model()
            },
            Model {
                Name: s("deepseek-r1"),
                Size: s("671B/37B"),
                MoE: true,
                Attention: s("MLA"),
                NativeContext: 131072,
                KV: KVArch {
                    Kind: s("mla"),
                    Layers: 61,
                    LatentDim: 576,
                    MaxContext: 131072,
                    ..empty_kvarch()
                },
                License: s("MIT"),
                Engines: vec![s("SGLang"), s("vLLM")],
                Image: s("vllm/vllm-openai:v0.26.0"),
                Variants: vec![
                    Variant {
                        Name: s("fp8"),
                        WeightsDeciGB: 6710,
                        MinGPU: s("8xH200"),
                        ProdGPU: s("8xH200"),
                        ..empty_variant()
                    },
                ],
                Notes: vec![
                    s("Most-liked open LLM on HF; superseded for inference by V4."),
                    s("vLLM flag recipe pending; hardware/KV facts only; Qwen was researched first."),
                ],
                ..empty_model()
            },
        ],
    };
    assert(kv_view(f.Models@[0].KV) == (("flat"@, Seq::<char>::empty(), true), (0i64, 0i64, 0i64, 0i64), (0i64, 0i64, 35000i64, 0i64, 1048576i64)));
    assert(f.Models@[0].Engines.deep_view() =~= seq!["SGLang"@, "vLLM"@]);
    assert(variant_view(f.Models@[0].Variants@[0]) == ("fp8"@, Seq::<char>::empty(), 2840i64, "4xH200 / 8xH100"@, "4xH200"@, 0i64, Seq::<ServeView>::empty(), Seq::<HardwareView>::empty()));
    assert(variant_view(f.Models@[0].Variants@[1]) == ("q4"@, Seq::<char>::empty(), 1600i64, "2xH200"@, "2xH200"@, 0i64, Seq::<ServeView>::empty(), Seq::<HardwareView>::empty()));
    assert(f.Models@[0].Variants@.map_values(|x: Variant| variant_view(x)) =~= seq![("fp8"@, Seq::<char>::empty(), 2840i64, "4xH200 / 8xH100"@, "4xH200"@, 0i64, Seq::<ServeView>::empty(), Seq::<HardwareView>::empty()), ("q4"@, Seq::<char>::empty(), 1600i64, "2xH200"@, "2xH200"@, 0i64, Seq::<ServeView>::empty(), Seq::<HardwareView>::empty())]);
    assert(f.Models@[0].Notes.deep_view() =~= seq!["MLA compresses KV to ~35 KB/token regardless of size; why 1M context is viable."@, "MoE floor is set by TOTAL params (284 GB in memory), active 13B buys throughput only."@, "vLLM v0.20.0/v0.20.1 were largely DeepSeek V4 stabilization releases (hang + KV-allocation fixes)."@, "vLLM flag recipe pending; hardware/KV facts only; Qwen was researched first."@]);
    assert(model_view(f.Models@[0]) == deepseek_v4_flash_table());
    assert(kv_view(f.Models@[1].KV) == (("flat"@, Seq::<char>::empty(), true), (0i64, 0i64, 0i64, 0i64), (0i64, 0i64, 60000i64, 0i64, 1048576i64)));
    assert(f.Models@[1].Engines.deep_view() =~= seq!["SGLang"@]);
    assert(variant_view(f.Models@[1].Variants@[0]) == ("fp8"@, Seq::<char>::empty(), 16000i64, "16-24xH200 multi-node"@, Seq::<char>::empty(), 0i64, Seq::<ServeView>::empty(), Seq::<HardwareView>::empty()));
    assert(f.Models@[1].Variants@.map_values(|x: Variant| variant_view(x)) =~= seq![("fp8"@, Seq::<char>::empty(), 16000i64, "16-24xH200 multi-node"@, Seq::<char>::empty(), 0i64, Seq::<ServeView>::empty(), Seq::<HardwareView>::empty())]);
    assert(f.Models@[1].Notes.deep_view() =~= seq!["Multi-node only; expert parallelism required."@, "vLLM flag recipe pending; hardware/KV facts only; Qwen was researched first."@]);
    assert(model_view(f.Models@[1]) == deepseek_v4_pro_table());
    assert(kv_view(f.Models@[2].KV) == (("mla"@, Seq::<char>::empty(), false), (61i64, 0i64, 0i64, 576i64), (0i64, 0i64, 0i64, 0i64, 131072i64)));
    assert(f.Models@[2].Engines.deep_view() =~= seq!["SGLang"@, "vLLM"@]);
    assert(variant_view(f.Models@[2].Variants@[0]) == ("fp8"@, Seq::<char>::empty(), 6710i64, "8xH200"@, "8xH200"@, 0i64, Seq::<ServeView>::empty(), Seq::<HardwareView>::empty()));
    assert(f.Models@[2].Variants@.map_values(|x: Variant| variant_view(x)) =~= seq![("fp8"@, Seq::<char>::empty(), 6710i64, "8xH200"@, "8xH200"@, 0i64, Seq::<ServeView>::empty(), Seq::<HardwareView>::empty())]);
    assert(f.Models@[2].Notes.deep_view() =~= seq!["Most-liked open LLM on HF; superseded for inference by V4."@, "vLLM flag recipe pending; hardware/KV facts only; Qwen was researched first."@]);
    assert(model_view(f.Models@[2]) == deepseek_r1_table());
    assert(f.Models@.map_values(|m: Model| model_view(m)) =~= deepseek_models());

    assert(f.Models@.map_values(|m: Model| m.Name@) =~= seq!["deepseek-v4-flash"@, "deepseek-v4-pro"@, "deepseek-r1"@]);
    f
}



} // verus!
