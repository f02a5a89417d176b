//! Display text of catalog figures: byte and token counts, weights,
//! context, architecture and license lines.
use vstd::prelude::*;
use crate::arith::{round_div, round_div_exec, tenths_text, tenths_to_string};
use crate::model::{Model, Variant, KVArch};
use crate::model::kv::KVCacheBytes;
use crate::text::{
    decimal, digit_char, int_to_string, nat_decimal, owned, push_str, str_eq,
};

verus! {

/// Magnitudes up to 2^53, where the double-precision arithmetic these
/// figures are computed in is exact.
pub open spec fn exact_range(x: int) -> bool {
    -0x20_0000_0000_0000 <= x <= 0x20_0000_0000_0000
}


/// "8.7 GB": bytes in decimal GB rounded to one decimal.
pub open spec fn gb_text(bytes: int) -> Seq<char> {
    tenths_text(round_div(bytes, 100_000_000), bytes < 0) + " GB"@
}

/// "128.5 KB": bytes in decimal KB rounded to one decimal.
pub open spec fn kb_text(bytes: int) -> Seq<char> {
    tenths_text(round_div(bytes, 100), bytes < 0) + " KB"@
}

/// `10 t / d` rounded half away from zero: a token count in tenths of a
/// binary unit of `d` tokens.
pub open spec fn token_tenths(t: int, d: int) -> int {
    round_div(10 * t, d)
}

/// A token count in binary units to one decimal: "32K", "1.3M",
/// "976.6K"; M from 1048576 tokens up, K below. A whole number is
/// written without a point.
pub open spec fn tokens_text(t: int) -> Seq<char> {
    if t >= 1048576 {
        tenths_text(token_tenths(t, 1048576), false) + "M"@
    } else {
        tenths_text(token_tenths(t, 1024), false) + "K"@
    }
}

/// `x` tenths, signed as `bytes` is, then a unit.
pub open spec fn tenths_with_unit(x: int, bytes: int, unit: Seq<char>) -> Seq<char> {
    tenths_text(x, bytes < 0) + unit
}

/// What the figure texts show: a byte count as the nearest tenth of a
/// decimal gigabyte (10^9 bytes) or kilobyte (10^3), and a token count
/// as the nearest tenth of a binary mega (2^20) from 2^20 tokens up, else
/// of a binary kilo (2^10) token; halves away from zero.
pub proof fn lemma_figures_nearest_tenth(bytes: int, t: int)
    ensures
        exists|x: int|
            gb_text(bytes) == #[trigger] tenths_with_unit(x, bytes, " GB"@) && -100_000_000 <= 2 * (bytes - 100_000_000 * x)
                <= 100_000_000,
        exists|x: int| kb_text(bytes) == #[trigger] tenths_with_unit(x, bytes, " KB"@) && -100 <= 2 * (bytes - 100 * x) <= 100,
        t >= 1048576 ==> exists|x: int|
            tokens_text(t) == #[trigger] tenths_text(x, false) + "M"@ && -1048576 <= 2 * (10 * t - 1048576 * x) <= 1048576,
        t < 1048576 ==> exists|x: int|
            tokens_text(t) == #[trigger] tenths_text(x, false) + "K"@ && -1024 <= 2 * (10 * t - 1024 * x) <= 1024,
{
    crate::arith::lemma_round_div_nearest(bytes, 100_000_000);
    crate::arith::lemma_round_div_nearest(bytes, 100);
    crate::arith::lemma_round_div_nearest(10 * t, 1048576);
    crate::arith::lemma_round_div_nearest(10 * t, 1024);
    let g = round_div(bytes, 100_000_000);
    assert(gb_text(bytes) == tenths_with_unit(g, bytes, " GB"@));
    let k = round_div(bytes, 100);
    assert(kb_text(bytes) == tenths_with_unit(k, bytes, " KB"@));
    if t >= 1048576 {
        let m = round_div(10 * t, 1048576);
        assert(tokens_text(t) == tenths_text(m, false) + "M"@);
    } else {
        let m = round_div(10 * t, 1024);
        assert(tokens_text(t) == tenths_text(m, false) + "K"@);
    }
}

fn token_tenths_exec(t: i64, d: i64) -> (r: i64)
    requires
        d == 1024 || d == 1048576,
    ensures
        r == token_tenths(t as int, d as int),
{
    let dd: i128 = 2 * (d as i128);
    let n: i128 = 10 * (t as i128);
    if t >= 0 {
        let q: i128 = (2 * n + (d as i128)) / dd;
        proof {
            assert(0 <= q <= (2 * n + d) / 2048) by (nonlinear_arith)
                requires
                    q == (2 * n + d) / (dd as int),
                    dd >= 2048,
                    n >= 0,
                    d > 0,
            ;
        }
        q as i64
    } else {
        let q: i128 = (-2 * n + (d as i128)) / dd;
        proof {
            assert(0 <= q <= (-2 * n + d) / 2048) by (nonlinear_arith)
                requires
                    q == (-2 * n + d) / (dd as int),
                    dd >= 2048,
                    n < 0,
                    d > 0,
            ;
        }
        (-q) as i64
    }
}

pub fn fmtGB(bytes: i64) -> (r: String)
    requires
        exact_range(bytes as int),
    ensures
        r@ == gb_text(bytes as int),
{
    let x = round_div_exec(bytes, 100_000_000);
    let mut r = tenths_to_string(x, bytes < 0);
    push_str(&mut r, " GB");
    r
}

pub fn fmtKB(bytes: i64) -> (r: String)
    requires
        exact_range(bytes as int),
    ensures
        r@ == kb_text(bytes as int),
{
    let x = round_div_exec(bytes, 100);
    let mut r = tenths_to_string(x, bytes < 0);
    push_str(&mut r, " KB");
    r
}

/// Renders a token count in binary K or M to one decimal ("1.25M" reads
/// "1.3M", never a truncated "1M"), as the original's rounding does.
pub fn fmtTokens(t: i64) -> (r: String)
    ensures
        r@ == tokens_text(t as int),
{
    if t >= 1048576 {
        let x = token_tenths_exec(t, 1048576);
        let mut r = tenths_to_string(x, false);
        push_str(&mut r, "M");
        r
    } else {
        let x = token_tenths_exec(t, 1024);
        let mut r = tenths_to_string(x, false);
        push_str(&mut r, "K");
        r
    }
}

/// The largest power of ten `m` (at least 1) with `v / m` still at least
/// 100, for `v >= 100`; 1 below that.
pub open spec fn sig_mag(v: int, m: int) -> int
    decreases (if m >= 1 && v >= 0 { v - m } else { 0 }),
{
    if m >= 1 && v >= 0 && v / m >= 100 {
        proof {
            assert(m * 10 <= v) by (nonlinear_arith)
                requires
                    v / m >= 100,
                    m >= 1,
            ;
        }
        sig_mag(v, m * 10)
    } else {
        m
    }
}

/// `v` rounded to two significant figures (halves up).
pub open spec fn round_two_sig(v: int) -> int {
    let m = sig_mag(v, 1);
    ((v + m / 2) / m) * m
}

proof fn lemma_sig_mag(v: int, m: int)
    requires
        v >= 0,
        m >= 1,
        v / m >= 10 || m == 1,
    ensures
        sig_mag(v, m) >= m,
        v >= 100 ==> v / sig_mag(v, m) < 100 && v / sig_mag(v, m) >= 10,
        v < 100 ==> sig_mag(v, m) == m,
        sig_mag(v, m) <= (if v >= 1 { v } else { 1 }),
    decreases v - m,
{
    if v / m >= 100 {
        assert(v / (m * 10) >= 10 && m * 10 <= v) by (nonlinear_arith)
            requires
                v / m >= 100,
                m >= 1,
        ;
        lemma_sig_mag(v, m * 10);
    } else {
        assert(v >= 100 ==> m <= v) by (nonlinear_arith)
            requires
                v / m >= 10 || m == 1,
                m >= 1,
                v >= 0,
        ;
        if v < 100 {
            assert(v / m < 100) by (nonlinear_arith)
                requires
                    v < 100,
                    m >= 1,
                    v >= 0,
            ;
        }
        assert(m <= (if v >= 1 { v } else { 1 })) by (nonlinear_arith)
            requires
                v / m >= 10 || m == 1,
                m >= 1,
                v >= 0,
        ;
    }
}

/// Caps an estimate at two significant figures: 137 shows as 140.
pub fn round2sig(v: i64) -> (r: i64)
    requires
        v < 100 || v + sig_mag(v as int, 1) / 2 <= i64::MAX,
    ensures
        r == round_two_sig(v as int),
        v < 100 ==> r == v,
{
    if v < 100 {
        proof {
            if v >= 0 {
                lemma_sig_mag(v as int, 1);
            }
        }
        return v;
    }
    proof {
        lemma_sig_mag(v as int, 1);
    }
    let mut mag: i64 = 1;
    while v / mag >= 100
        invariant
            v >= 100,
            1 <= mag <= v,
            v / mag >= 10 || mag == 1,
            sig_mag(v as int, mag as int) == sig_mag(v as int, 1),
        decreases v - mag,
    {
        proof {
            let vi = v as int;
            let mi = mag as int;
            assert(mi * 10 <= vi && vi / (mi * 10) >= 10) by (nonlinear_arith)
                requires
                    vi / mi >= 100,
                    mi >= 1,
            ;
        }
        mag = mag * 10;
    }
    proof {
        lemma_sig_mag(v as int, mag as int);
        let vi = v as int;
        let mi = mag as int;
        let h = vi + mi / 2;
        assert((h / mi) * mi <= h && (h / mi) * mi >= 0) by (nonlinear_arith)
            requires
                mi >= 1,
                h >= 0,
        ;
    }
    ((v + mag / 2) / mag) * mag
}

/// Whether `round2sig(v)` stays in range.
pub fn round2sigReady(v: i64) -> (r: bool)
    ensures
        r == (v < 100 || v + sig_mag(v as int, 1) / 2 <= i64::MAX),
{
    if v < 100 {
        return true;
    }
    proof {
        lemma_sig_mag(v as int, 1);
    }
    let mut mag: i64 = 1;
    while v / mag >= 100
        invariant
            v >= 100,
            1 <= mag <= v,
            v / mag >= 10 || mag == 1,
            sig_mag(v as int, mag as int) == sig_mag(v as int, 1),
        decreases v - mag,
    {
        proof {
            let vi = v as int;
            let mi = mag as int;
            assert(mi * 10 <= vi && vi / (mi * 10) >= 10) by (nonlinear_arith)
                requires
                    vi / mi >= 100,
                    mi >= 1,
            ;
        }
        mag = mag * 10;
    }
    v <= i64::MAX - mag / 2
}

/// Estimates keep at most two significant figures: the result is a
/// multiple of the magnitude `m` two digits below the leading one, at
/// most 100 of them, and within half of `m` of the estimate.
pub proof fn lemma_round_two_sig(v: int)
    requires
        v >= 100,
    ensures
        ({
            let m = sig_mag(v, 1);
            let r = round_two_sig(v);
            &&& m >= 1
            &&& r % m == 0
            &&& r / m <= 100
            &&& v - m / 2 <= r <= v + m / 2
        }),
{
    lemma_sig_mag(v, 1);
    let m = sig_mag(v, 1);
    let h = v + m / 2;
    let q = h / m;
    assert(q * m % m == 0 && q <= 100 && q * m <= h && h - m < q * m && (q * m) / m == q) by (nonlinear_arith)
        requires
            m >= 1,
            v >= 0,
            v / m < 100,
            h == v + m / 2,
            q == h / m,
    ;
    assert(v - m / 2 <= q * m) by (nonlinear_arith)
        requires
            h - m < q * m,
            h == v + m / 2,
            m >= 1,
    ;
}

/// The weight text of a variant: "64 GB", "~19 GB", "~1.6 TB", or ""
/// when unknown.
pub open spec fn weights_text(d: int) -> Seq<char> {
    if d <= 0 {
        seq![]
    } else if d >= 10000 {
        "~"@ + tenths_text(round_div(d, 1000), false) + " TB"@
    } else if d % 10 == 0 {
        decimal(round_div(d, 10)) + " GB"@
    } else {
        "~"@ + decimal(round_div(d, 10)) + " GB"@
    }
}

impl Variant {
    /// Renders the weight size: whole GB plain, other sizes rounded and
    /// marked approximate, a TB figure from 1000 GB up.
    pub fn FormatWeights(&self) -> (r: String)
        ensures
            r@ == weights_text(self.WeightsDeciGB as int),
    {
        let d = self.WeightsDeciGB;
        if d <= 0 {
            return String::new();
        }
        if d >= 10000 {
            let tb = round_div_exec(d, 1000);
            let mut r = String::new();
            push_str(&mut r, "~");
            let t = tenths_to_string(tb, false);
            push_str(&mut r, t.as_str());
            push_str(&mut r, " TB");
            return r;
        }
        let rounded = round_div_exec(d, 10);
        let g = int_to_string(rounded);
        let mut r = String::new();
        if d % 10 != 0 {
            push_str(&mut r, "~");
        }
        push_str(&mut r, g.as_str());
        push_str(&mut r, " GB");
        proof {
            if d % 10 == 0 {
                assert(r@ =~= decimal(round_div(d as int, 10)) + " GB"@);
            } else {
                assert(r@ =~= "~"@ + decimal(round_div(d as int, 10)) + " GB"@);
            }
        }
        r
    }
}

/// The context line: "32K native, 128K max (YaRN)".
pub open spec fn context_text(m: Model) -> Seq<char> {
    let native = tokens_text(m.NativeContext as int);
    let max = m.KV.MaxContext;
    let method = m.ContextMethod@;
    if max <= 0 || max == m.NativeContext {
        if method.len() > 0 {
            native + " ("@ + method + ")"@
        } else {
            native + " native"@
        }
    } else {
        let s = native + " native, "@ + tokens_text(max as int) + " max"@;
        if method.len() > 0 {
            s + " ("@ + method + ")"@
        } else {
            s
        }
    }
}

/// The architecture line: "MoE, MLA", "dense, multimodal".
pub open spec fn arch_text(m: Model) -> Seq<char> {
    let base = if m.MoE { "MoE"@ } else { "dense"@ };
    let with_attn = if m.Attention@.len() > 0 { base + ", "@ + m.Attention@ } else { base };
    if m.Vision { with_attn + ", multimodal"@ } else { with_attn }
}

/// The license with its caveat, if any.
pub open spec fn license_text(m: Model) -> Seq<char> {
    if m.LicenseNote@.len() > 0 {
        m.License@ + " ("@ + m.LicenseNote@ + ")"@
    } else {
        m.License@
    }
}

impl Model {
    pub fn FormatContext(&self) -> (r: String)
        ensures
            r@ == context_text(*self),
    {
        let mut s = fmtTokens(self.NativeContext);
        let max = self.KV.MaxContext;
        let has_method = !self.ContextMethod.as_str().is_empty();
        if max <= 0 || max == self.NativeContext {
            if has_method {
                push_str(&mut s, " (");
                push_str(&mut s, self.ContextMethod.as_str());
                push_str(&mut s, ")");
            } else {
                push_str(&mut s, " native");
            }
            return s;
        }
        push_str(&mut s, " native, ");
        let mx = fmtTokens(max);
        push_str(&mut s, mx.as_str());
        push_str(&mut s, " max");
        if has_method {
            push_str(&mut s, " (");
            push_str(&mut s, self.ContextMethod.as_str());
            push_str(&mut s, ")");
        }
        s
    }

    pub fn FormatArch(&self) -> (r: String)
        ensures
            r@ == arch_text(*self),
    {
        let mut s = String::new();
        if self.MoE {
            push_str(&mut s, "MoE");
        } else {
            push_str(&mut s, "dense");
        }
        if !self.Attention.as_str().is_empty() {
            push_str(&mut s, ", ");
            push_str(&mut s, self.Attention.as_str());
        }
        if self.Vision {
            push_str(&mut s, ", multimodal");
        }
        s
    }

    pub fn FormatLicense(&self) -> (r: String)
        ensures
            r@ == license_text(*self),
    {
        let mut s = String::new();
        push_str(&mut s, self.License.as_str());
        if !self.LicenseNote.as_str().is_empty() {
            push_str(&mut s, " (");
            push_str(&mut s, self.LicenseNote.as_str());
            push_str(&mut s, ")");
        }
        s
    }
}

/// The tag of the KV header line: the attention layout, and the KV cache
/// in fp8.
pub open spec fn kv_tag(a: KVArch) -> Seq<char> {
    if a.Kind@ == "kda"@ {
        "KDA, fp8 KV"@
    } else if a.Kind@ == "mla"@ {
        "MLA, fp8 KV"@
    } else {
        "fp8 KV"@
    }
}

/// The KV bytes of one sequence at `ctx` are computable and displayable.
pub open spec fn kv_at_ok(a: KVArch, ctx: int) -> bool {
    a.bytes_at_in_range(a.clamp_ctx(ctx)) && exact_range(a.bytes_at(a.clamp_ctx(ctx)))
}

/// The context the KV header line is given at: the native context, or
/// the maximum when no native one is recorded.
pub open spec fn kv_line_ctx(m: Model) -> int {
    if m.NativeContext <= 0 { m.KV.MaxContext as int } else { m.NativeContext as int }
}

/// The inputs on which the KV header line is computed without overflow.
pub open spec fn kv_line_ok(m: Model) -> bool {
    m.KV.Kind@.len() > 0 && kv_line_ctx(m) > 0 ==> kv_at_ok(m.KV, kv_line_ctx(m))
}

/// The model-level "KV/seq" line: per-sequence KV at the native context,
/// "8.7 GB at 256K (KDA, fp8 KV)"; empty without architecture data or a
/// context.
pub open spec fn kv_line_text(m: Model) -> Seq<char> {
    let at = kv_line_ctx(m);
    if m.KV.Kind@.len() == 0 || at <= 0 {
        seq![]
    } else {
        gb_text(m.KV.bytes_at(m.KV.clamp_ctx(at))) + " at "@ + tokens_text(at) + " ("@ + kv_tag(m.KV) + ")"@
    }
}

fn kv_tag_exec(a: &KVArch) -> (r: String)
    ensures
        r@ == kv_tag(*a),
{
    if str_eq(a.Kind.as_str(), "kda") {
        owned("KDA, fp8 KV")
    } else if str_eq(a.Kind.as_str(), "mla") {
        owned("MLA, fp8 KV")
    } else {
        owned("fp8 KV")
    }
}

/// Renders the model-level "KV/seq" header line ("" without
/// architecture data).
pub fn kvLine(m: &Model) -> (r: String)
    requires
        kv_line_ok(*m),
    ensures
        r@ == kv_line_text(*m),
{
    let mut at = m.NativeContext;
    if at <= 0 {
        at = m.KV.MaxContext;
    }
    if m.KV.Kind.as_str().is_empty() || at <= 0 {
        return String::new();
    }
    let (b, _, _) = KVCacheBytes(m, at);
    let mut s = fmtGB(b);
    push_str(&mut s, " at ");
    let t = fmtTokens(at);
    push_str(&mut s, t.as_str());
    push_str(&mut s, " (");
    let tag = kv_tag_exec(&m.KV);
    push_str(&mut s, tag.as_str());
    push_str(&mut s, ")");
    s
}

pub fn exact_range_exec(x: i64) -> (r: bool)
    ensures
        r == exact_range(x as int),
{
    -0x20_0000_0000_0000 <= x && x <= 0x20_0000_0000_0000
}

fn kv_at_ok_exec(a: &KVArch, ctx: i64) -> (r: bool)
    ensures
        r == kv_at_ok(*a, ctx as int),
{
    let mut c = ctx;
    if a.MaxContext > 0 && c > a.MaxContext {
        c = a.MaxContext;
    }
    match a.bytesAtChecked(c) {
        Some(b) => exact_range_exec(b),
        None => false,
    }
}

/// Whether `kvLine` computes the model's KV line without overflow.
pub fn kvLineReady(m: &Model) -> (r: bool)
    ensures
        r == kv_line_ok(*m),
{
    let at = if m.NativeContext <= 0 { m.KV.MaxContext } else { m.NativeContext };
    m.KV.Kind.as_str().is_empty() || at <= 0 || kv_at_ok_exec(&m.KV, at)
}

} // verus!
