//! Integer helpers: truncating division, rounding half away from zero,
//! and the decimal rendering of a value in tenths.
use vstd::prelude::*;
use crate::text::{decimal, nat_decimal, digit_char, int_to_string, push_char, push_str};

verus! {

/// Whether `x` is representable as an `i64`.
pub open spec fn fits(x: int) -> bool {
    i64::MIN <= x <= i64::MAX
}

pub open spec fn abs(x: int) -> int {
    if x < 0 { -x } else { x }
}

/// Division truncating toward zero (`/` on signed machine integers).
pub open spec fn tdiv(a: int, b: int) -> int {
    let q = abs(a) / abs(b);
    if (a < 0) != (b < 0) { -q } else { q }
}

/// `n / d` rounded to the nearest integer, halves away from zero (as
/// `f64::round` does), for a positive divisor.
pub open spec fn round_div(n: int, d: int) -> int {
    if n >= 0 {
        (2 * n + d) / (2 * d)
    } else {
        -((-2 * n + d) / (2 * d))
    }
}

/// `round_div(n, d)` is the integer nearest `n / d`: it is off by at most
/// half a unit, and on an exact half it lies away from zero; its sign is
/// that of `n` (or zero).
pub proof fn lemma_round_div_nearest(n: int, d: int)
    requires
        d > 0,
    ensures
        ({
            let r = round_div(n, d);
            &&& -d <= 2 * (n - d * r) <= d
            &&& 2 * (n - d * r) == d ==> n < 0
            &&& 2 * (n - d * r) == -d ==> n >= 0
            &&& (n >= 0 ==> r >= 0) && (n <= 0 ==> r <= 0)
        }),
{
    let r = round_div(n, d);
    if n >= 0 {
        let q = (2 * n + d) / (2 * d);
        assert(r == q);
        assert(2 * d * q <= 2 * n + d < 2 * d * q + 2 * d) by (nonlinear_arith)
            requires
                q == (2 * n + d) / (2 * d),
                d > 0,
        ;
        assert(2 * (n - d * r) == 2 * n - 2 * d * q) by (nonlinear_arith)
            requires
                r == q,
        ;
        assert(q >= 0) by (nonlinear_arith)
            requires
                2 * n + d < 2 * d * q + 2 * d,
                d > 0,
                n >= 0,
        ;
        if n == 0 {
            assert(q == 0) by (nonlinear_arith)
                requires
                    2 * d * q <= d,
                    q >= 0,
                    d > 0,
            ;
        }
    } else {
        let q = (-2 * n + d) / (2 * d);
        assert(r == -q);
        assert(2 * d * q <= -2 * n + d < 2 * d * q + 2 * d) by (nonlinear_arith)
            requires
                q == (-2 * n + d) / (2 * d),
                d > 0,
        ;
        assert(2 * (n - d * r) == 2 * n + 2 * d * q) by (nonlinear_arith)
            requires
                r == -q,
        ;
        assert(q >= 0) by (nonlinear_arith)
            requires
                -2 * n + d < 2 * d * q + 2 * d,
                d > 0,
                n < 0,
        ;
    }
}

/// Text of the number `x / 10` as Rust prints an `f64` holding it
/// ("8.7", "47", "-0.5"); `neg_zero` is the sign of a zero that came from
/// rounding a negative value, printed "-0".
pub open spec fn tenths_text(x: int, neg_zero: bool) -> Seq<char> {
    if x == 0 && neg_zero {
        seq!['-', '0']
    } else if x % 10 == 0 {
        decimal(x / 10)
    } else {
        let sign: Seq<char> = if x < 0 { seq!['-'] } else { seq![] };
        sign + nat_decimal((abs(x) / 10) as nat) + seq!['.', digit_char(abs(x) % 10)]
    }
}

/// Truncating division of `a` by `b`.
pub fn trunc_div(a: i64, b: i64) -> (q: i64)
    requires
        b != 0,
        !(a == i64::MIN && b == -1),
    ensures
        q == tdiv(a as int, b as int),
{
    let ua: i128 = if a < 0 { -(a as i128) } else { a as i128 };
    let ub: i128 = if b < 0 { -(b as i128) } else { b as i128 };
    let q: i128 = ua / ub;
    proof {
        assert(0 <= q <= ua) by (nonlinear_arith)
            requires
                ua >= 0,
                ub >= 1,
                q == ua / ub,
        ;
    }
    if (a < 0) != (b < 0) {
        (-q) as i64
    } else {
        proof {
            if ua == 0x8000_0000_0000_0000 {
                assert(q <= ua / 2) by (nonlinear_arith)
                    requires
                        ub >= 2,
                        ua >= 0,
                        q == ua / ub,
                ;
            }
        }
        q as i64
    }
}

/// `n / d` rounded half away from zero.
pub fn round_div_exec(n: i64, d: i64) -> (r: i64)
    requires
        d > 0,
    ensures
        r == round_div(n as int, d as int),
{
    let dd: i128 = 2 * (d as i128);
    if n >= 0 {
        let q: i128 = (2 * (n as i128) + (d as i128)) / dd;
        proof {
            assert(0 <= q <= 2 * n + d) by (nonlinear_arith)
                requires
                    dd >= 2,
                    n >= 0,
                    d > 0,
                    q == (2 * n + d) / (dd as int),
            ;
            assert(q <= n) by (nonlinear_arith)
                requires
                    dd == 2 * d,
                    d >= 1,
                    n >= 0,
                    q == (2 * n + d) / (dd as int),
            ;
        }
        q as i64
    } else {
        let m: i128 = -2 * (n as i128) + (d as i128);
        let q: i128 = m / dd;
        proof {
            assert(0 <= q <= -n) by (nonlinear_arith)
                requires
                    dd == 2 * d,
                    d >= 1,
                    n < 0,
                    m == -2 * n + d,
                    q == m / dd,
            ;
        }
        (-q) as i64
    }
}

/// Renders `x / 10` as Rust prints the corresponding `f64`.
pub fn tenths_to_string(x: i64, neg_zero: bool) -> (r: String)
    ensures
        r@ == tenths_text(x as int, neg_zero),
{
    if x == 0 && neg_zero {
        let mut r = String::new();
        push_char(&mut r, '-');
        push_char(&mut r, '0');
        assert(r@ =~= seq!['-', '0']);
        return r;
    }
    let q = trunc_div(x, 10);
    let ax: i128 = if x < 0 { -(x as i128) } else { x as i128 };
    let rem: i128 = ax % 10;
    if rem == 0 {
        proof {
            assert(abs(x as int) % 10 == 0 ==> x % 10 == 0 && tdiv(x as int, 10) == x / 10) by {
                if x < 0 {
                    assert(abs(x as int) == -x);
                }
            }
            assert(x % 10 == 0) by {
                assert(abs(x as int) == ax);
            }
        }
        return int_to_string(q);
    }
    proof {
        assert(x % 10 != 0) by {
            assert(abs(x as int) == ax);
        }
    }
    let mut r = String::new();
    if x < 0 {
        push_char(&mut r, '-');
    }
    let whole: i128 = ax / 10;
    let w = int_to_string(whole as i64);
    push_str(&mut r, w.as_str());
    push_char(&mut r, '.');
    let digit: char = match rem as u8 {
        1 => '1',
        2 => '2',
        3 => '3',
        4 => '4',
        5 => '5',
        6 => '6',
        7 => '7',
        8 => '8',
        _ => '9',
    };
    proof {
        assert(abs(x as int) == ax);
        assert(decimal(whole as int) == nat_decimal(whole as nat));
        assert(digit == digit_char(abs(x as int) % 10));
    }
    push_char(&mut r, digit);
    let ghost sign: Seq<char> = if x < 0 { seq!['-'] } else { seq![] };
    assert(r@ =~= sign + nat_decimal((abs(x as int) / 10) as nat) + seq!['.', digit_char(abs(x as int) % 10)]);
    r
}

} // verus!
