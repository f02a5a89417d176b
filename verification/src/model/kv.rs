//! KV-cache arithmetic per attention architecture.
use vstd::prelude::*;
use crate::arith::{fits, tdiv, trunc_div};
use crate::model::{KVArch, Model};
use crate::text::str_eq;

verus! {

impl KVArch {
    /// Whether the architecture's kind selects the swa formula.
    pub open spec fn is_swa(&self) -> bool {
        self.Kind@ == "swa"@
    }

    /// Whether the architecture's kind selects the kda formula (and not
    /// the swa one, which is tested first).
    pub open spec fn is_kda(&self) -> bool {
        !self.is_swa() && self.Kind@ == "kda"@
    }

    /// Layers / FullEvery, truncated: the full-attention layers.
    pub open spec fn full_layers(&self) -> int {
        tdiv(self.Layers as int, self.FullEvery as int)
    }

    /// The division by FullEvery is defined and does not overflow.
    pub open spec fn full_layers_defined(&self) -> bool {
        self.FullEvery != 0 && !(self.Layers == i64::MIN && self.FullEvery == -1)
    }

    /// Per-token bytes of one full-attention layer in a kda hybrid.
    pub open spec fn full_layer_per_token(&self) -> int {
        if self.FullKind@ == "mla"@ {
            self.LatentDim as int
        } else {
            2 * self.KVHeads * self.HeadDim
        }
    }

    pub open spec fn full_layer_per_token_in_range(&self) -> bool {
        self.FullKind@ == "mla"@ || (fits(2 * self.KVHeads) && fits(2 * self.KVHeads * self.HeadDim))
    }

    /// KV bytes per token at FP8 (for swa, the growth beyond the window).
    pub open spec fn per_token_bytes(&self) -> int {
        if self.Kind@ == "gqa"@ {
            2 * self.Layers * self.KVHeads * self.HeadDim
        } else if self.Kind@ == "mla"@ {
            self.Layers * self.LatentDim
        } else if self.Kind@ == "swa"@ {
            2 * self.full_layers() * self.KVHeads * self.HeadDim
        } else if self.Kind@ == "kda"@ {
            self.full_layers() * self.full_layer_per_token()
        } else if self.Kind@ == "flat"@ {
            self.PerTokenB as int
        } else {
            0
        }
    }

    /// Every intermediate of `per_token_bytes` fits an `i64`, and its
    /// divisions are defined.
    pub open spec fn per_token_in_range(&self) -> bool {
        if self.Kind@ == "gqa"@ {
            fits(2 * self.Layers) && fits(2 * self.Layers * self.KVHeads) && fits(
                2 * self.Layers * self.KVHeads * self.HeadDim,
            )
        } else if self.Kind@ == "mla"@ {
            fits(self.Layers * self.LatentDim)
        } else if self.Kind@ == "swa"@ {
            &&& self.full_layers_defined()
            &&& fits(2 * self.full_layers())
            &&& fits(2 * self.full_layers() * self.KVHeads)
            &&& fits(2 * self.full_layers() * self.KVHeads * self.HeadDim)
        } else if self.Kind@ == "kda"@ {
            &&& self.full_layers_defined()
            &&& self.full_layer_per_token_in_range()
            &&& fits(self.full_layers() * self.full_layer_per_token())
        } else {
            true
        }
    }

    /// The window term's context: min(ctx, Window).
    pub open spec fn window_ctx(&self, ctx: int) -> int {
        if (self.Window as int) < ctx {
            self.Window as int
        } else {
            ctx
        }
    }

    /// KV-cache bytes of one sequence at `ctx` tokens (unclamped).
    pub open spec fn bytes_at(&self, ctx: int) -> int {
        if self.is_swa() {
            let per_layer = 2 * self.KVHeads * self.HeadDim;
            let full = self.full_layers();
            full * per_layer * ctx + (self.Layers - full) * per_layer * self.window_ctx(ctx)
        } else if self.is_kda() {
            let per_layer = self.full_layer_per_token();
            let full = self.full_layers();
            full * per_layer * ctx + (self.Layers - full) * self.StateB
        } else {
            self.per_token_bytes() * ctx
        }
    }

    /// Every intermediate of `bytes_at(ctx)` fits an `i64`, and its
    /// divisions are defined.
    pub open spec fn bytes_at_in_range(&self, ctx: int) -> bool {
        if self.is_swa() {
            let per_layer = 2 * self.KVHeads * self.HeadDim;
            let full = self.full_layers();
            let w = self.window_ctx(ctx);
            &&& fits(2 * self.KVHeads)
            &&& fits(per_layer)
            &&& self.full_layers_defined()
            &&& fits(full * per_layer)
            &&& fits(full * per_layer * ctx)
            &&& fits(self.Layers - full)
            &&& fits((self.Layers - full) * per_layer)
            &&& fits((self.Layers - full) * per_layer * w)
            &&& fits(full * per_layer * ctx + (self.Layers - full) * per_layer * w)
        } else if self.is_kda() {
            let per_layer = self.full_layer_per_token();
            let full = self.full_layers();
            &&& self.full_layer_per_token_in_range()
            &&& self.full_layers_defined()
            &&& fits(full * per_layer)
            &&& fits(full * per_layer * ctx)
            &&& fits(self.Layers - full)
            &&& fits((self.Layers - full) * self.StateB)
            &&& fits(full * per_layer * ctx + (self.Layers - full) * self.StateB)
        } else {
            self.per_token_in_range() && fits(self.per_token_bytes() * ctx)
        }
    }

    /// The context a request of `ctx` tokens is clamped to.
    pub open spec fn clamp_ctx(&self, ctx: int) -> int {
        if self.MaxContext > 0 && ctx > self.MaxContext {
            self.MaxContext as int
        } else {
            ctx
        }
    }

    /// A physically meaningful layout: no negative dimension, and for
    /// the hybrid kinds (swa, kda) at least one layer per full-attention
    /// layer.
    pub open spec fn sane(&self) -> bool {
        &&& self.Layers >= 0
        &&& self.KVHeads >= 0
        &&& self.HeadDim >= 0
        &&& self.LatentDim >= 0
        &&& self.Window >= 0
        &&& (self.is_swa() || self.is_kda()) ==> self.FullEvery >= 1
        &&& self.PerTokenB >= 0
        &&& self.StateB >= 0
    }

    fn kind_eq(&self, k: &str) -> (r: bool)
        ensures
            r == (self.Kind@ == k@),
    {
        str_eq(self.Kind.as_str(), k)
    }

    /// Per-token bytes of one full-attention layer of a kda hybrid:
    /// GQA-shaped, or the latent width when FullKind is "mla".
    pub fn fullLayerPerToken(&self) -> (r: i64)
        requires
            self.full_layer_per_token_in_range(),
        ensures
            r == self.full_layer_per_token(),
    {
        if str_eq(self.FullKind.as_str(), "mla") {
            return self.LatentDim;
        }
        2 * self.KVHeads * self.HeadDim
    }

    /// KV bytes per token at FP8; for swa the growth per token beyond
    /// the window (the long-context bound), for kda the full layers'
    /// growth (the linear layers' state does not grow).
    pub fn PerTokenBytes(&self) -> (r: i64)
        requires
            self.per_token_in_range(),
        ensures
            r == self.per_token_bytes(),
    {
        if self.kind_eq("gqa") {
            2 * self.Layers * self.KVHeads * self.HeadDim
        } else if self.kind_eq("mla") {
            self.Layers * self.LatentDim
        } else if self.kind_eq("swa") {
            let full = trunc_div(self.Layers, self.FullEvery);
            2 * full * self.KVHeads * self.HeadDim
        } else if self.kind_eq("kda") {
            let full = trunc_div(self.Layers, self.FullEvery);
            full * self.fullLayerPerToken()
        } else if self.kind_eq("flat") {
            self.PerTokenB
        } else {
            0
        }
    }

    /// KV-cache bytes of one sequence at `ctx` tokens, unclamped.
    pub fn BytesAt(&self, ctx: i64) -> (r: i64)
        requires
            self.bytes_at_in_range(ctx as int),
        ensures
            r == self.bytes_at(ctx as int),
    {
        if self.kind_eq("swa") {
            let perLayer = 2 * self.KVHeads * self.HeadDim;
            let full = trunc_div(self.Layers, self.FullEvery);
            let mut w = ctx;
            if self.Window < w {
                w = self.Window;
            }
            return full * perLayer * ctx + (self.Layers - full) * perLayer * w;
        }
        if self.kind_eq("kda") {
            let perLayer = self.fullLayerPerToken();
            let full = trunc_div(self.Layers, self.FullEvery);
            return full * perLayer * ctx + (self.Layers - full) * self.StateB;
        }
        self.PerTokenBytes() * ctx
    }
}

/// `a * b` when it fits an `i64`.
fn mul_checked(a: i64, b: i64) -> (r: Option<i64>)
    ensures
        r is Some <==> fits(a * b),
        r is Some ==> r->0 == a * b,
{
    a.checked_mul(b)
}

/// `a + b` when it fits an `i64`.
fn add_checked(a: i64, b: i64) -> (r: Option<i64>)
    ensures
        r is Some <==> fits(a + b),
        r is Some ==> r->0 == a + b,
{
    a.checked_add(b)
}

/// `a - b` when it fits an `i64`.
fn sub_checked(a: i64, b: i64) -> (r: Option<i64>)
    ensures
        r is Some <==> fits(a - b),
        r is Some ==> r->0 == a - b,
{
    a.checked_sub(b)
}

impl KVArch {
    fn full_layers_defined_exec(&self) -> (r: bool)
        ensures
            r == self.full_layers_defined(),
    {
        self.FullEvery != 0 && !(self.Layers == i64::MIN && self.FullEvery == -1)
    }

    /// The per-token bytes of a kda hybrid's full layer, or `None` where
    /// they do not fit an `i64`.
    fn full_layer_per_token_checked(&self) -> (r: Option<i64>)
        ensures
            r is Some <==> self.full_layer_per_token_in_range(),
            r is Some ==> r->0 == self.full_layer_per_token(),
    {
        if str_eq(self.FullKind.as_str(), "mla") {
            return Some(self.LatentDim);
        }
        let a = mul_checked(2, self.KVHeads)?;
        mul_checked(a, self.HeadDim)
    }

    /// `PerTokenBytes`, or `None` on the inputs on which one of its
    /// steps overflows or divides by zero.
    pub fn perTokenChecked(&self) -> (r: Option<i64>)
        ensures
            r is Some <==> self.per_token_in_range(),
            r is Some ==> r->0 == self.per_token_bytes(),
    {
        if self.kind_eq("gqa") {
            let a = mul_checked(2, self.Layers)?;
            let b = mul_checked(a, self.KVHeads)?;
            mul_checked(b, self.HeadDim)
        } else if self.kind_eq("mla") {
            mul_checked(self.Layers, self.LatentDim)
        } else if self.kind_eq("swa") {
            if !self.full_layers_defined_exec() {
                return None;
            }
            let full = trunc_div(self.Layers, self.FullEvery);
            let a = mul_checked(2, full)?;
            let b = mul_checked(a, self.KVHeads)?;
            mul_checked(b, self.HeadDim)
        } else if self.kind_eq("kda") {
            if !self.full_layers_defined_exec() {
                return None;
            }
            let full = trunc_div(self.Layers, self.FullEvery);
            let pl = self.full_layer_per_token_checked()?;
            mul_checked(full, pl)
        } else if self.kind_eq("flat") {
            Some(self.PerTokenB)
        } else {
            Some(0)
        }
    }

    /// `BytesAt(ctx)`, or `None` on the inputs on which one of its steps
    /// overflows or divides by zero.
    pub fn bytesAtChecked(&self, ctx: i64) -> (r: Option<i64>)
        ensures
            r is Some <==> self.bytes_at_in_range(ctx as int),
            r is Some ==> r->0 == self.bytes_at(ctx as int),
    {
        if self.kind_eq("swa") {
            let a = mul_checked(2, self.KVHeads)?;
            let perLayer = mul_checked(a, self.HeadDim)?;
            if !self.full_layers_defined_exec() {
                return None;
            }
            let full = trunc_div(self.Layers, self.FullEvery);
            let mut w = ctx;
            if self.Window < w {
                w = self.Window;
            }
            let b = mul_checked(full, perLayer)?;
            let c = mul_checked(b, ctx)?;
            let d = sub_checked(self.Layers, full)?;
            let e = mul_checked(d, perLayer)?;
            let g = mul_checked(e, w)?;
            return add_checked(c, g);
        }
        if self.kind_eq("kda") {
            let perLayer = self.full_layer_per_token_checked()?;
            if !self.full_layers_defined_exec() {
                return None;
            }
            let full = trunc_div(self.Layers, self.FullEvery);
            let b = mul_checked(full, perLayer)?;
            let c = mul_checked(b, ctx)?;
            let d = sub_checked(self.Layers, full)?;
            let e = mul_checked(d, self.StateB)?;
            return add_checked(c, e);
        }
        let p = self.perTokenChecked()?;
        mul_checked(p, ctx)
    }
}

/// One sequence's KV size at `ctx` tokens, clamped to the model's
/// context cap: (bytes, clamped context, known). Unknown (no
/// architecture data) gives (0, ctx, false).
pub fn KVCacheBytes(m: &Model, ctx: i64) -> (r: (i64, i64, bool))
    requires
        m.KV.Kind@.len() > 0 ==> m.KV.bytes_at_in_range(m.KV.clamp_ctx(ctx as int)),
    ensures
        m.KV.Kind@.len() == 0 ==> r == (0i64, ctx, false),
        m.KV.Kind@.len() > 0 ==> {
            &&& r.2
            &&& r.1 == m.KV.clamp_ctx(ctx as int)
            &&& r.0 == m.KV.bytes_at(r.1 as int)
        },
{
    if m.KV.Kind.as_str().is_empty() {
        return (0, ctx, false);
    }
    let mut c = ctx;
    if m.KV.MaxContext > 0 && c > m.KV.MaxContext {
        c = m.KV.MaxContext;
    }
    (m.KV.BytesAt(c), c, true)
}

/// `KVCacheBytes(m, ctx)` where its arithmetic stays in range, `None`
/// where it would overflow.
pub fn kvCacheBytesChecked(m: &Model, ctx: i64) -> (r: Option<(i64, i64, bool)>)
    ensures
        r is Some <==> (m.KV.Kind@.len() > 0 ==> m.KV.bytes_at_in_range(m.KV.clamp_ctx(ctx as int))),
        m.KV.Kind@.len() == 0 ==> r == Some((0i64, ctx, false)),
        m.KV.Kind@.len() > 0 && r is Some ==> {
            let x = r->0;
            &&& x.2
            &&& x.1 == m.KV.clamp_ctx(ctx as int)
            &&& x.0 == m.KV.bytes_at(x.1 as int)
        },
{
    if m.KV.Kind.as_str().is_empty() {
        return Some(KVCacheBytes(m, ctx));
    }
    let mut c = ctx;
    if m.KV.MaxContext > 0 && c > m.KV.MaxContext {
        c = m.KV.MaxContext;
    }
    match m.KV.bytesAtChecked(c) {
        Some(_) => Some(KVCacheBytes(m, ctx)),
        None => None,
    }
}

/// The architecture kind names are pairwise distinct.
proof fn lemma_kinds_distinct()
    ensures
        "gqa"@ != "mla"@,
        "gqa"@ != "swa"@,
        "gqa"@ != "kda"@,
        "gqa"@ != "flat"@,
        "mla"@ != "swa"@,
        "mla"@ != "kda"@,
        "mla"@ != "flat"@,
        "swa"@ != "kda"@,
        "swa"@ != "flat"@,
        "kda"@ != "flat"@,
{
    reveal_strlit("gqa");
    reveal_strlit("mla");
    reveal_strlit("swa");
    reveal_strlit("kda");
    reveal_strlit("flat");
    assert("gqa"@[0] != "mla"@[0]);
    assert("gqa"@[0] != "swa"@[0]);
    assert("gqa"@[0] != "kda"@[0]);
    assert("gqa"@[0] != "flat"@[0]);
    assert("mla"@[0] != "swa"@[0]);
    assert("mla"@[0] != "kda"@[0]);
    assert("mla"@[0] != "flat"@[0]);
    assert("swa"@[0] != "kda"@[0]);
    assert("swa"@[0] != "flat"@[0]);
    assert("kda"@[0] != "flat"@[0]);
}

// ---------------------------------------------------------------------
// Laws
// ---------------------------------------------------------------------

/// A clamped context never exceeds the request, nor a positive cap.
pub proof fn lemma_clamp_bounds(a: KVArch, ctx: int)
    ensures
        a.clamp_ctx(ctx) <= ctx,
        a.MaxContext > 0 ==> a.clamp_ctx(ctx) <= a.MaxContext,
        (a.MaxContext <= 0 || ctx <= a.MaxContext) ==> a.clamp_ctx(ctx) == ctx,
{
}

/// Past the window (for swa; everywhere for the other kinds) each extra
/// token of context costs exactly `PerTokenBytes`: the sliding-window
/// layers and the linear layers' recurrent state add nothing per token.
pub proof fn lemma_marginal_bytes(a: KVArch, ctx: int)
    requires
        a.is_swa() ==> ctx >= a.Window,
        a.is_swa() || a.is_kda() ==> a.full_layers_defined(),
    ensures
        a.bytes_at(ctx + 1) - a.bytes_at(ctx) == a.per_token_bytes(),
{
    lemma_kinds_distinct();
    let full = a.full_layers();
    if a.is_swa() {
        let pl = 2 * a.KVHeads * a.HeadDim;
        assert(a.window_ctx(ctx) == a.Window);
        assert(a.window_ctx(ctx + 1) == a.Window);
        assert(full * pl * (ctx + 1) == full * pl * ctx + full * pl) by (nonlinear_arith);
        assert(2 * full * a.KVHeads * a.HeadDim == full * pl) by (nonlinear_arith)
            requires
                pl == 2 * a.KVHeads * a.HeadDim,
        ;
    } else if a.is_kda() {
        let pl = a.full_layer_per_token();
        assert(full * pl * (ctx + 1) == full * pl * ctx + full * pl) by (nonlinear_arith);
    } else {
        let p = a.per_token_bytes();
        assert(p * (ctx + 1) == p * ctx + p) by (nonlinear_arith);
    }
}

/// The per-token and per-sequence KV bytes of each layout, at one byte
/// per element: gqa stores a key and a value of KVHeads x HeadDim in
/// every layer; mla one latent vector of LatentDim per layer; swa pays
/// the context in its full layers (Layers / FullEvery) and at most the
/// window in the rest; a kda hybrid pays the context in its full layers
/// (latent-sized when they are mla) and a fixed state of StateB in each
/// other layer; flat states its per-token bytes directly.
pub proof fn lemma_layout_bytes(a: KVArch, ctx: int)
    ensures
        a.Kind@ == "gqa"@ ==> a.per_token_bytes() == 2 * a.Layers * a.KVHeads * a.HeadDim
            && a.bytes_at(ctx) == 2 * a.Layers * a.KVHeads * a.HeadDim * ctx,
        a.Kind@ == "mla"@ ==> a.per_token_bytes() == a.Layers * a.LatentDim && a.bytes_at(ctx) == a.Layers
            * a.LatentDim * ctx,
        a.Kind@ == "swa"@ ==> ({
            let full = tdiv(a.Layers as int, a.FullEvery as int);
            let w = if ctx < a.Window { ctx } else { a.Window as int };
            &&& a.per_token_bytes() == full * (2 * a.KVHeads * a.HeadDim)
            &&& a.bytes_at(ctx) == full * (2 * a.KVHeads * a.HeadDim) * ctx + (a.Layers - full) * (2
                * a.KVHeads * a.HeadDim) * w
        }),
        a.Kind@ == "kda"@ ==> ({
            let full = tdiv(a.Layers as int, a.FullEvery as int);
            let per_layer = if a.FullKind@ == "mla"@ { a.LatentDim as int } else { 2 * a.KVHeads * a.HeadDim };
            &&& a.per_token_bytes() == full * per_layer
            &&& a.bytes_at(ctx) == full * per_layer * ctx + (a.Layers - full) * a.StateB
        }),
        a.Kind@ == "flat"@ ==> a.per_token_bytes() == a.PerTokenB && a.bytes_at(ctx) == a.PerTokenB * ctx,
{
    lemma_kinds_distinct();
    let full = tdiv(a.Layers as int, a.FullEvery as int);
    let h = a.KVHeads as int;
    let d = a.HeadDim as int;
    assert(2 * full * h * d == full * (2 * h * d)) by (nonlinear_arith);
    assert(2 * (a.Layers as int) * h * d * ctx == (2 * (a.Layers as int) * h * d) * ctx) by (nonlinear_arith);
}

/// The linear layers' state of a kda hybrid is context-independent: a
/// sequence costs its per-token growth times the context plus a
/// constant, the state of the non-full layers.
pub proof fn lemma_kda_state_constant(a: KVArch, ctx: int)
    requires
        a.is_kda(),
    ensures
        a.bytes_at(ctx) == a.per_token_bytes() * ctx + (a.Layers - a.full_layers()) * a.StateB,
        a.bytes_at(0) == (a.Layers - a.full_layers()) * a.StateB,
{
    lemma_kinds_distinct();
    assert(a.per_token_bytes() == a.full_layers() * a.full_layer_per_token());
    let full = a.full_layers();
    let pl = a.full_layer_per_token();
    assert(full * pl * ctx == (full * pl) * ctx) by (nonlinear_arith);
    assert(full * pl * 0 == 0) by (nonlinear_arith);
}

proof fn lemma_full_layers_bounds(a: KVArch)
    requires
        a.sane(),
        a.is_swa() || a.is_kda(),
    ensures
        0 <= a.full_layers() <= a.Layers,
{
    let l = a.Layers as int;
    let f = a.FullEvery as int;
    assert(0 <= l / f <= l) by (nonlinear_arith)
        requires
            l >= 0,
            f >= 1,
    ;
}

proof fn lemma_mul_mono(x: int, y: int, c1: int, c2: int)
    requires
        x >= 0,
        y >= 0,
        c1 <= c2,
    ensures
        x * y * c1 <= x * y * c2,
{
    assert(x * y * c1 <= x * y * c2) by (nonlinear_arith)
        requires
            x >= 0,
            y >= 0,
            c1 <= c2,
    ;
}

/// For a physically meaningful layout, a longer context never needs
/// fewer KV bytes.
pub proof fn lemma_bytes_at_monotone(a: KVArch, c1: int, c2: int)
    requires
        a.sane(),
        0 <= c1 <= c2,
    ensures
        a.bytes_at(c1) <= a.bytes_at(c2),
{
    let full = a.full_layers();
    if a.is_swa() || a.is_kda() {
        lemma_full_layers_bounds(a);
    }
    if a.is_swa() {
        let pl = 2 * a.KVHeads * a.HeadDim;
        assert(pl >= 0) by (nonlinear_arith)
            requires
                a.KVHeads >= 0,
                a.HeadDim >= 0,
                pl == 2 * a.KVHeads * a.HeadDim,
        ;
        lemma_mul_mono(full, pl, c1, c2);
        lemma_mul_mono(a.Layers - full, pl, a.window_ctx(c1), a.window_ctx(c2));
    } else if a.is_kda() {
        let pl = a.full_layer_per_token();
        assert(pl >= 0) by (nonlinear_arith)
            requires
                a.KVHeads >= 0,
                a.HeadDim >= 0,
                a.LatentDim >= 0,
                pl == a.LatentDim || pl == 2 * a.KVHeads * a.HeadDim,
        ;
        lemma_mul_mono(full, pl, c1, c2);
    } else {
        let p = a.per_token_bytes();
        assert(p >= 0) by {
            if a.Kind@ == "gqa"@ {
                assert(2 * a.Layers * a.KVHeads * a.HeadDim >= 0) by (nonlinear_arith)
                    requires
                        a.Layers >= 0,
                        a.KVHeads >= 0,
                        a.HeadDim >= 0,
                ;
            } else if a.Kind@ == "mla"@ {
                assert(a.Layers * a.LatentDim >= 0) by (nonlinear_arith)
                    requires
                        a.Layers >= 0,
                        a.LatentDim >= 0,
                ;
            }
        }
        assert(p * c1 <= p * c2) by (nonlinear_arith)
            requires
                p >= 0,
                c1 <= c2,
        ;
    }
}

} // verus!
