use vstd::prelude::*;
use crate::model::{Family, Flag, Hardware, KVArch, Model, Quant, ServeSpec, Variant};
use crate::model::families::{
    boolFlag, empty_family, empty_hardware, empty_kvarch, empty_model, empty_quant, empty_serve, empty_variant,
    flag, s,
};

use crate::model::families::{
    kv_view, model_view, quant_view, variant_view, KVView, ModelView, QuantView, VariantView,
};
use crate::model::serve::{FlagView, HardwareView, ServeView};

verus! {

/// The catalog entry for mimo-v2.5.
pub open spec fn mimo_v2_5_table() -> ModelView {
    (("mimo-v2.5"@, "310B/15B"@, true, Seq::<char>::empty(), true), (1048576i64, Seq::<char>::empty(), (("flat"@, Seq::<char>::empty(), true), (0i64, 0i64, 0i64, 0i64), (0i64, 0i64, 150000i64, 0i64, 1048576i64))), ("MIT"@, Seq::<char>::empty(), seq!["vLLM"@, "SGLang"@], "vllm/vllm-openai:v0.26.0"@), (seq![("fp8"@, Seq::<char>::empty(), 3100i64, "4xH200 / 8xH100"@, "4xH200"@, 0i64, Seq::<ServeView>::empty(), Seq::<HardwareView>::empty()), ("q4"@, Seq::<char>::empty(), 1750i64, "2xH200"@, "2xH200"@, 0i64, Seq::<ServeView>::empty(), Seq::<HardwareView>::empty())], Seq::<QuantView>::empty(), seq!["vLLM flag recipe pending; hardware/KV facts only; Qwen was researched first."@]))
}

/// The catalog entry for mimo-v2.5-pro.
pub open spec fn mimo_v2_5_pro_table() -> ModelView {
    (("mimo-v2.5-pro"@, "1.02T/42B"@, true, Seq::<char>::empty(), false), (1048576i64, Seq::<char>::empty(), (("flat"@, Seq::<char>::empty(), true), (0i64, 0i64, 0i64, 0i64), (0i64, 0i64, 175000i64, 0i64, 1048576i64))), ("MIT"@, Seq::<char>::empty(), seq!["vLLM"@, "SGLang"@], "vllm/vllm-openai:v0.26.0"@), (seq![("fp8"@, Seq::<char>::empty(), 10000i64, "8xH200 / 16xH100"@, "16xH100"@, 0i64, Seq::<ServeView>::empty(), Seq::<HardwareView>::empty())], Seq::<QuantView>::empty(), seq!["vLLM flag recipe pending; hardware/KV facts only; Qwen was researched first."@]))
}

/// The mimo family's models, in catalog order.
pub open spec fn mimo_models() -> Seq<ModelView> {
    seq![mimo_v2_5_table(), mimo_v2_5_pro_table()]
}

/// The mimo family and its models, in catalog order.
pub fn mimo() -> (f: Family)
    ensures
        f.Models@.map_values(|m: Model| model_view(m)) == mimo_models(),
        f.Rank == 8,
        f.Name@ == "mimo"@,
        f.Models@.map_values(|m: Model| m.Name@) == seq!["mimo-v2.5"@, "mimo-v2.5-pro"@],
{
    let f = Family {
        Rank: 8,
        Name: s("mimo"),
        Models: vec![
            Model {
                Name: s("mimo-v2.5"),
                Size: s("310B/15B"),
                MoE: true,
                Vision: true,
                NativeContext: 1048576,
                KV: KVArch {
                    Kind: s("flat"),
                    PerTokenB: 150000,
                    Est: true,
                    MaxContext: 1048576,
                    ..empty_kvarch()
                },
                License: s("MIT"),
                Engines: vec![s("vLLM"), s("SGLang")],
                Image: s("vllm/vllm-openai:v0.26.0"),
                Variants: vec![
                    Variant {
                        Name: s("fp8"),
                        WeightsDeciGB: 3100,
                        MinGPU: s("4xH200 / 8xH100"),
                        ProdGPU: s("4xH200"),
                        ..empty_variant()
                    },
                    Variant {
                        Name: s("q4"),
                        WeightsDeciGB: 1750,
                        MinGPU: s("2xH200"),
                        ProdGPU: s("2xH200"),
                        ..empty_variant()
                    },
                ],
                Notes: vec![
                    s("vLLM flag recipe pending; hardware/KV facts only; Qwen was researched first."),
                ],
                ..empty_model()
            },
            Model {
                Name: s("mimo-v2.5-pro"),
                Size: s("1.02T/42B"),
                MoE: true,
                NativeContext: 1048576,
                KV: KVArch {
                    Kind: s("flat"),
                    PerTokenB: 175000,
                    Est: true,
                    MaxContext: 1048576,
                    ..empty_kvarch()
                },
                License: s("MIT"),
                Engines: vec![s("vLLM"), s("SGLang")],
                Image: s("vllm/vllm-openai:v0.26.0"),
                Variants: vec![
                    Variant {
                        Name: s("fp8"),
                        WeightsDeciGB: 10000,
                        MinGPU: s("8xH200 / 16xH100"),
                        ProdGPU: s("16xH100"),
                        ..empty_variant()
                    },
                ],
                Notes: vec![
                    s("vLLM flag recipe pending; hardware/KV facts only; Qwen was researched first."),
                ],
                ..empty_model()
            },
        ],
    };
    assert(kv_view(f.Models@[0].KV) == (("flat"@, Seq::<char>::empty(), true), (0i64, 0i64, 0i64, 0i64), (0i64, 0i64, 150000i64, 0i64, 1048576i64)));
    assert(f.Models@[0].Engines.deep_view() =~= seq!["vLLM"@, "SGLang"@]);
    assert(variant_view(f.Models@[0].Variants@[0]) == ("fp8"@, Seq::<char>::empty(), 3100i64, "4xH200 / 8xH100"@, "4xH200"@, 0i64, Seq::<ServeView>::empty(), Seq::<HardwareView>::empty()));
    assert(variant_view(f.Models@[0].Variants@[1]) == ("q4"@, Seq::<char>::empty(), 1750i64, "2xH200"@, "2xH200"@, 0i64, Seq::<ServeView>::empty(), Seq::<HardwareView>::empty()));
    assert(f.Models@[0].Variants@.map_values(|x: Variant| variant_view(x)) =~= seq![("fp8"@, Seq::<char>::empty(), 3100i64, "4xH200 / 8xH100"@, "4xH200"@, 0i64, Seq::<ServeView>::empty(), Seq::<HardwareView>::empty()), ("q4"@, Seq::<char>::empty(), 1750i64, "2xH200"@, "2xH200"@, 0i64, Seq::<ServeView>::empty(), Seq::<HardwareView>::empty())]);
    assert(f.Models@[0].Notes.deep_view() =~= seq!["vLLM flag recipe pending; hardware/KV facts only; Qwen was researched first."@]);
    assert(model_view(f.Models@[0]) == mimo_v2_5_table());
    assert(kv_view(f.Models@[1].KV) == (("flat"@, Seq::<char>::empty(), true), (0i64, 0i64, 0i64, 0i64), (0i64, 0i64, 175000i64, 0i64, 1048576i64)));
    assert(f.Models@[1].Engines.deep_view() =~= seq!["vLLM"@, "SGLang"@]);
    assert(variant_view(f.Models@[1].Variants@[0]) == ("fp8"@, Seq::<char>::empty(), 10000i64, "8xH200 / 16xH100"@, "16xH100"@, 0i64, Seq::<ServeView>::empty(), Seq::<HardwareView>::empty()));
    assert(f.Models@[1].Variants@.map_values(|x: Variant| variant_view(x)) =~= seq![("fp8"@, Seq::<char>::empty(), 10000i64, "8xH200 / 16xH100"@, "16xH100"@, 0i64, Seq::<ServeView>::empty(), Seq::<HardwareView>::empty())]);
    assert(f.Models@[1].Notes.deep_view() =~= seq!["vLLM flag recipe pending; hardware/KV facts only; Qwen was researched first."@]);
    assert(model_view(f.Models@[1]) == mimo_v2_5_pro_table());
    assert(f.Models@.map_values(|m: Model| model_view(m)) =~= mimo_models());

    assert(f.Models@.map_values(|m: Model| m.Name@) =~= seq!["mimo-v2.5"@, "mimo-v2.5-pro"@]);
    f
}



} // verus!
