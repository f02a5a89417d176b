//! The serving catalog: model families, checkpoints, weight-format
//! variants with their vLLM serve recipes and hardware rows, and the
//! KV-cache arithmetic per attention architecture.
use vstd::prelude::*;

pub mod catalog;
pub mod display;
pub mod families;
pub mod gpu;
pub mod kv;
pub mod serve;
pub mod show;

verus! {

/// A model's attention memory layout, enough to compute KV-cache bytes
/// for any context length (FP8 KV, one byte per element).
///
/// - `gqa`: 2 x Layers x KVHeads x HeadDim per token
/// - `mla`: Layers x LatentDim per token
/// - `swa`: full-attention layers (one in FullEvery) pay the context,
///   sliding-window layers pay min(context, Window)
/// - `kda`: linear-attention hybrid; full layers pay per token (GQA
///   shaped, or LatentDim when FullKind is "mla"), linear layers keep a
///   constant StateB bytes of recurrent state each
/// - `flat`: PerTokenB directly (estimates for unpublished layouts)
///
/// MaxContext is the hard context ceiling in tokens; Est marks estimates.
#[derive(Clone)]
pub struct KVArch {
    pub Kind: String,
    pub Layers: i64,
    pub KVHeads: i64,
    pub HeadDim: i64,
    pub LatentDim: i64,
    pub Window: i64,
    pub FullEvery: i64,
    pub PerTokenB: i64,
    pub StateB: i64,
    pub FullKind: String,
    pub Est: bool,
    pub MaxContext: i64,
}

/// One GPU type the catalog budgets against: usable VRAM in GB, memory
/// bandwidth in GB/s, the hardware class that hardware rows match
/// ("cuda", "blackwell", "rocm") and the streaming-multiprocessor count.
#[derive(Clone)]
pub struct GPUSpec {
    pub Name: String,
    pub VRAMGB: i64,
    pub BWGBs: i64,
    pub Class: String,
    pub SMs: i64,
}

/// One supported target for a variant: image tag, vLLM version floor and
/// caveats. `Key` is the machine-matchable class ("" for an
/// informational row); `Profile` names the serve spec that applies
/// there ("" for the default profile).
#[derive(Clone)]
pub struct Hardware {
    pub Target: String,
    pub Key: String,
    pub Profile: String,
    pub Image: String,
    pub Floor: String,
    pub FloorRef: String,
    pub Note: String,
}

/// One CLI flag as data; `Value` "" marks a boolean switch.
#[derive(Clone)]
pub struct Flag {
    pub Name: String,
    pub Value: String,
}

/// One serve invocation as structured data.
#[derive(Clone)]
pub struct ServeSpec {
    /// "" for the single default profile.
    pub Profile: String,
    /// Rendered as a leading `#` comment.
    pub Note: String,
    /// "KEY=VALUE" entries for the container environment.
    pub Env: Vec<String>,
    /// The Hugging Face repository the runtime loads.
    pub Model: String,
    pub Flags: Vec<Flag>,
}

/// One weight format of a checkpoint, the recipe unit. Weights are held
/// in tenths of a GB (64.0 GB is 640; 0 when unknown).
#[derive(Clone)]
pub struct Variant {
    pub Name: String,
    pub Image: String,
    pub WeightsDeciGB: i64,
    pub MinGPU: String,
    pub ProdGPU: String,
    pub MeasuredTokS: i64,
    pub Serve: Vec<ServeSpec>,
    pub Hardware: Vec<Hardware>,
}

/// One published quantization of a checkpoint.
#[derive(Clone)]
pub struct Quant {
    pub Format: String,
    pub Bits: String,
    pub Repo: String,
    pub Provenance: String,
    pub Engines: Vec<String>,
    pub Kernel: String,
    pub Note: String,
}

/// One runnable checkpoint. Size is total parameters, with "/active"
/// for mixture-of-experts models.
#[derive(Clone)]
pub struct Model {
    pub Name: String,
    pub Size: String,
    pub MoE: bool,
    pub Attention: String,
    pub Vision: bool,
    pub NativeContext: i64,
    pub ContextMethod: String,
    pub KV: KVArch,
    pub License: String,
    pub LicenseNote: String,
    pub Engines: Vec<String>,
    pub Image: String,
    pub Variants: Vec<Variant>,
    pub Quants: Vec<Quant>,
    pub Notes: Vec<String>,
}

/// The models of one lab or line, ranked by popularity.
#[derive(Clone)]
pub struct Family {
    pub Rank: i64,
    pub Name: String,
    pub Models: Vec<Model>,
}

} // verus!
