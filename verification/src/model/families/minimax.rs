use vstd::prelude::*;
use crate::model::{Family, Flag, Hardware, KVArch, Model, Quant, ServeSpec, Variant};
use crate::model::families::{
    boolFlag, empty_family, empty_hardware, empty_kvarch, empty_model, empty_quant, empty_serve, empty_variant,
    flag, s,
};

use crate::model::families::{
    kv_view, model_view, quant_view, variant_view, KVView, ModelView, QuantView, VariantView,
};
use crate::model::serve::{FlagView, HardwareView, ServeView};

verus! {

/// The catalog entry for minimax-m2.
pub open spec fn minimax_m2_table() -> ModelView {
    (("minimax-m2"@, "230B/10B"@, true, Seq::<char>::empty(), false), (204800i64, Seq::<char>::empty(), (("flat"@, Seq::<char>::empty(), true), (0i64, 0i64, 0i64, 0i64), (0i64, 0i64, 100000i64, 0i64, 204800i64))), ("Mixed"@, "some releases commercially restricted"@, seq!["vLLM"@, "SGLang"@], "vllm/vllm-openai:v0.26.0"@), (seq![("fp8"@, Seq::<char>::empty(), 2300i64, "2xH200 / 4xH100"@, "4xH100"@, 0i64, Seq::<ServeView>::empty(), Seq::<HardwareView>::empty()), ("q4"@, Seq::<char>::empty(), 1300i64, "2xH200"@, "2xH200"@, 0i64, Seq::<ServeView>::empty(), Seq::<HardwareView>::empty())], Seq::<QuantView>::empty(), seq!["Read the per-checkpoint license; some MiniMax weights are commercially restricted."@, "vLLM flag recipe pending; hardware/KV facts only; Qwen was researched first."@]))
}

/// The catalog entry for minimax-m3.
pub open spec fn minimax_m3_table() -> ModelView {
    (("minimax-m3"@, "456B"@, true, "MSA"@, true), (1048576i64, Seq::<char>::empty(), (("flat"@, Seq::<char>::empty(), true), (0i64, 0i64, 0i64, 0i64), (0i64, 0i64, 175000i64, 0i64, 1048576i64))), ("Mixed"@, "read per-checkpoint"@, seq!["vLLM"@, "SGLang"@], "vllm/vllm-openai:v0.26.0"@), (seq![("fp8"@, Seq::<char>::empty(), 4560i64, "8xH100 / 4xH200"@, "8xH100"@, 0i64, Seq::<ServeView>::empty(), Seq::<HardwareView>::empty())], Seq::<QuantView>::empty(), seq!["First open-weight model combining native multimodality, 1M context, and computer use."@, "vLLM flag recipe pending; hardware/KV facts only; Qwen was researched first."@]))
}

/// The minimax family's models, in catalog order.
pub open spec fn minimax_models() -> Seq<ModelView> {
    seq![minimax_m2_table(), minimax_m3_table()]
}

/// The minimax family and its models, in catalog order.
pub fn minimax() -> (f: Family)
    ensures
        f.Models@.map_values(|m: Model| model_view(m)) == minimax_models(),
        f.Rank == 10,
        f.Name@ == "minimax"@,
        f.Models@.map_values(|m: Model| m.Name@) == seq!["minimax-m2"@, "minimax-m3"@],
{
    let f = Family {
        Rank: 10,
        Name: s("minimax"),
        Models: vec![
            Model {
                Name: s("minimax-m2"),
                Size: s("230B/10B"),
                MoE: true,
                NativeContext: 204800,
                KV: KVArch {
                    Kind: s("flat"),
                    PerTokenB: 100000,
                    Est: true,
                    MaxContext: 204800,
                    ..empty_kvarch()
                },
                License: s("Mixed"),
                LicenseNote: s("some releases commercially restricted"),
                Engines: vec![s("vLLM"), s("SGLang")],
                Image: s("vllm/vllm-openai:v0.26.0"),
                Variants: vec![
                    Variant {
                        Name: s("fp8"),
                        WeightsDeciGB: 2300,
                        MinGPU: s("2xH200 / 4xH100"),
                        ProdGPU: s("4xH100"),
                        ..empty_variant()
                    },
                    Variant {
                        Name: s("q4"),
                        WeightsDeciGB: 1300,
                        MinGPU: s("2xH200"),
                        ProdGPU: s("2xH200"),
                        ..empty_variant()
                    },
                ],
                Notes: vec![
                    s("Read the per-checkpoint license; some MiniMax weights are commercially restricted."),
                    s("vLLM flag recipe pending; hardware/KV facts only; Qwen was researched first."),
                ],
                ..empty_model()
            },
            Model {
                Name: s("minimax-m3"),
                Size: s("456B"),
                MoE: true,
                Vision: true,
                Attention: s("MSA"),
                NativeContext: 1048576,
                KV: KVArch {
                    Kind: s("flat"),
                    PerTokenB: 175000,
                    Est: true,
                    MaxContext: 1048576,
                    ..empty_kvarch()
                },
                License: s("Mixed"),
                LicenseNote: s("read per-checkpoint"),
                Engines: vec![s("vLLM"), s("SGLang")],
                Image: s("vllm/vllm-openai:v0.26.0"),
                Variants: vec![
                    Variant {
                        Name: s("fp8"),
                        WeightsDeciGB: 4560,
                        MinGPU: s("8xH100 / 4xH200"),
                        ProdGPU: s("8xH100"),
                        ..empty_variant()
                    },
                ],
                Notes: vec![
                    s("First open-weight model combining native multimodality, 1M context, and computer use."),
                    s("vLLM flag recipe pending; hardware/KV facts only; Qwen was researched first."),
                ],
                ..empty_model()
            },
        ],
    };
    assert(kv_view(f.Models@[0].KV) == (("flat"@, Seq::<char>::empty(), true), (0i64, 0i64, 0i64, 0i64), (0i64, 0i64, 100000i64, 0i64, 204800i64)));
    assert(f.Models@[0].Engines.deep_view() =~= seq!["vLLM"@, "SGLang"@]);
    assert(variant_view(f.Models@[0].Variants@[0]) == ("fp8"@, Seq::<char>::empty(), 2300i64, "2xH200 / 4xH100"@, "4xH100"@, 0i64, Seq::<ServeView>::empty(), Seq::<HardwareView>::empty()));
    assert(variant_view(f.Models@[0].Variants@[1]) == ("q4"@, Seq::<char>::empty(), 1300i64, "2xH200"@, "2xH200"@, 0i64, Seq::<ServeView>::empty(), Seq::<HardwareView>::empty()));
    assert(f.Models@[0].Variants@.map_values(|x: Variant| variant_view(x)) =~= seq![("fp8"@, Seq::<char>::empty(), 2300i64, "2xH200 / 4xH100"@, "4xH100"@, 0i64, Seq::<ServeView>::empty(), Seq::<HardwareView>::empty()), ("q4"@, Seq::<char>::empty(), 1300i64, "2xH200"@, "2xH200"@, 0i64, Seq::<ServeView>::empty(), Seq::<HardwareView>::empty())]);
    assert(f.Models@[0].Notes.deep_view() =~= seq!["Read the per-checkpoint license; some MiniMax weights are commercially restricted."@, "vLLM flag recipe pending; hardware/KV facts only; Qwen was researched first."@]);
    assert(model_view(f.Models@[0]) == minimax_m2_table());
    assert(kv_view(f.Models@[1].KV) == (("flat"@, Seq::<char>::empty(), true), (0i64, 0i64, 0i64, 0i64), (0i64, 0i64, 175000i64, 0i64, 1048576i64)));
    assert(f.Models@[1].Engines.deep_view() =~= seq!["vLLM"@, "SGLang"@]);
    assert(variant_view(f.Models@[1].Variants@[0]) == ("fp8"@, Seq::<char>::empty(), 4560i64, "8xH100 / 4xH200"@, "8xH100"@, 0i64, Seq::<ServeView>::empty(), Seq::<HardwareView>::empty()));
    assert(f.Models@[1].Variants@.map_values(|x: Variant| variant_view(x)) =~= seq![("fp8"@, Seq::<char>::empty(), 4560i64, "8xH100 / 4xH200"@, "8xH100"@, 0i64, Seq::<ServeView>::empty(), Seq::<HardwareView>::empty())]);
    assert(f.Models@[1].Notes.deep_view() =~= seq!["First open-weight model combining native multimodality, 1M context, and computer use."@, "vLLM flag recipe pending; hardware/KV facts only; Qwen was researched first."@]);
    assert(model_view(f.Models@[1]) == minimax_m3_table());
    assert(f.Models@.map_values(|m: Model| model_view(m)) =~= minimax_models());

    assert(f.Models@.map_values(|m: Model| m.Name@) =~= seq!["minimax-m2"@, "minimax-m3"@]);
    f
}



} // verus!
