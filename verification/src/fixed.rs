//! Saturating fixed-point scalar arithmetic.
//!
//! A scalar is an `i128` holding a real value scaled by [`SCALE`].
//! Every operation saturates at the representable extremes (the analogue of
//! an arithmetic that runs into its infinities), and division by zero yields
//! zero; callers treat such degenerate results as "no intersection" rather
//! than fabricating a plausible hit.

use vstd::prelude::*;
use vstd::arithmetic::div_mod::lemma_div_pos_is_pos;
use vstd::arithmetic::div_mod::lemma_fundamental_div_mod;
use vstd::arithmetic::div_mod::lemma_mod_division_less_than_divisor;
use vstd::arithmetic::div_mod::lemma_remainder_lower;
use vstd::arithmetic::div_mod::lemma_div_multiples_vanish;

verus! {

/// Number of raw units per one: a scalar holds its value times `SCALE`.
pub const SCALE: i128 = 65536;

/// Magnitude of a mathematical integer.
pub open spec fn mag(a: int) -> int {
    if a < 0 {
        -a
    } else {
        a
    }
}

/// Clamp a mathematical integer into the `i128` range.
pub open spec fn sat(a: int) -> int {
    if a > i128::MAX as int {
        i128::MAX as int
    } else if a < i128::MIN as int {
        i128::MIN as int
    } else {
        a
    }
}

/// `sat` as an `i128` value.
pub open spec fn sati(a: int) -> i128 {
    sat(a) as i128
}

/// Truncating (round-toward-zero) division; 0 when the divisor is 0.
pub open spec fn divt(a: int, b: int) -> int {
    if b == 0 || a == 0 {
        0
    } else if a > 0 && b > 0 {
        a / b
    } else if a < 0 && b < 0 {
        (a * -1) / (b * -1)
    } else if a < 0 {
        ((a * -1) / b) * -1
    } else {
        (a / (b * -1)) * -1
    }
}

/// Fixed-point product: `(a * b) / SCALE`, truncated.
pub open spec fn mulfx(a: int, b: int) -> int {
    divt(sat(a * b), SCALE as int)
}

/// Fixed-point quotient: `(a * SCALE) / b`, truncated; 0 when `b == 0`.
pub open spec fn divfx(a: int, b: int) -> int {
    divt(sat(a * SCALE as int), b)
}

/// Integer square root, by primitive recursion.
pub open spec fn isqrt(n: int) -> int
    decreases n,
{
    if n <= 0 {
        0
    } else {
        let r = isqrt(n - 1);
        if (r + 1) * (r + 1) <= n {
            r + 1
        } else {
            r
        }
    }
}

/// Fixed-point square root of a nonnegative scalar; 0 for a negative one.
pub open spec fn sqrtfx(a: int) -> int {
    if a <= 0 {
        0
    } else {
        isqrt(sat(a * SCALE as int))
    }
}

/// The larger of a value and zero.
pub open spec fn max0(a: int) -> int {
    if a < 0 {
        0
    } else {
        a
    }
}

/// Fixed-point power with a whole-number exponent; `powfx(b, 0)` is one.
pub open spec fn powfx(b: int, e: nat) -> int
    decreases e,
{
    if e == 0 {
        SCALE as int
    } else {
        mulfx(powfx(b, (e - 1) as nat), b)
    }
}

/// Truncating division scales the magnitude down by the divisor's.
pub proof fn lemma_divt_mul_bound(a: int, b: int)
    requires
        b != 0,
    ensures
        mag(divt(a, b)) >= 0,
        mag(divt(a, b)) * mag(b) <= mag(a),
{
    if a != 0 {
        let x = mag(a);
        let d = mag(b);
        lemma_div_pos_is_pos(x, d);
        lemma_fundamental_div_mod(x, d);
        lemma_mod_division_less_than_divisor(x, d);
        lemma_remainder_lower(x, d);
        assert(x % d >= 0);
        assert(d * (x / d) <= x);
        assert(mag(divt(a, b)) == x / d);
        assert(d * (x / d) == (x / d) * d) by (nonlinear_arith);
    } else {
        assert(divt(a, b) == 0);
        assert(mag(divt(a, b)) * mag(b) == 0) by (nonlinear_arith)
            requires
                mag(divt(a, b)) == 0,
        ;
    }
}

/// Dividing an exact multiple by its (positive) factor recovers the value.
pub proof fn lemma_divt_multiples(a: int, k: int)
    requires
        k > 0,
    ensures
        divt(a * k, k) == a,
{
    if a > 0 {
        assert(a * k > 0) by (nonlinear_arith)
            requires
                a > 0,
                k > 0,
        ;
        lemma_div_multiples_vanish(a, k);
        assert(a * k == k * a) by (nonlinear_arith);
    } else if a < 0 {
        assert(a * k < 0) by (nonlinear_arith)
            requires
                a < 0,
                k > 0,
        ;
        lemma_div_multiples_vanish(-a, k);
        assert((a * k) * -1 == k * (-a)) by (nonlinear_arith);
    }
}

/// A fixed-point product stays inside the `i128` range.
pub broadcast proof fn lemma_mulfx_range(a: int, b: int)
    ensures
        i128::MIN as int <= #[trigger] mulfx(a, b) <= i128::MAX as int,
{
    lemma_divt_mul_bound(sat(a * b), SCALE as int);
}

/// `isqrt` is the exact integer square root.
pub proof fn lemma_isqrt(n: int)
    requires
        n >= 0,
    ensures
        isqrt(n) >= 0,
        isqrt(n) * isqrt(n) <= n,
        n < (isqrt(n) + 1) * (isqrt(n) + 1),
    decreases n,
{
    if n > 0 {
        lemma_isqrt(n - 1);
        let r = isqrt(n - 1);
        if (r + 1) * (r + 1) <= n {
            assert((r + 2) * (r + 2) > (r + 1) * (r + 1)) by (nonlinear_arith)
                requires
                    r >= 0,
            ;
        }
    }
}

/// Any nonnegative `r` with `r*r <= n < (r+1)*(r+1)` is `isqrt(n)`.
pub proof fn lemma_isqrt_unique(n: int, r: int)
    requires
        n >= 0,
        r >= 0,
        r * r <= n,
        n < (r + 1) * (r + 1),
    ensures
        r == isqrt(n),
{
    lemma_isqrt(n);
    let s = isqrt(n);
    if r < s {
        assert((r + 1) * (r + 1) <= s * s) by (nonlinear_arith)
            requires
                0 <= r,
                r < s,
        ;
    }
    if s < r {
        assert((s + 1) * (s + 1) <= r * r) by (nonlinear_arith)
            requires
                0 <= s,
                s < r,
        ;
    }
}

/// A fixed-point square root stays inside the `i128` range.
pub broadcast proof fn lemma_sqrtfx_range(a: int)
    ensures
        0 <= #[trigger] sqrtfx(a) <= i128::MAX as int,
{
    if a > 0 {
        let n = sat(a * SCALE as int);
        lemma_isqrt(n);
        let r = isqrt(n);
        if r > i128::MAX as int {
            assert(r * r > n) by (nonlinear_arith)
                requires
                    r > i128::MAX as int,
                    n <= i128::MAX as int,
            ;
        }
    }
}

/// A fixed-point power stays inside the `i128` range.
pub broadcast proof fn lemma_powfx_range(b: int, e: nat)
    ensures
        i128::MIN as int <= #[trigger] powfx(b, e) <= i128::MAX as int,
    decreases e,
{
    if e != 0 {
        lemma_powfx_range(b, (e - 1) as nat);
        lemma_mulfx_range(powfx(b, (e - 1) as nat), b);
    }
}

/// `a + b`, saturating.
pub fn add_fx(a: i128, b: i128) -> (r: i128)
    ensures
        r == sati(a + b),
{
    match a.checked_add(b) {
        Some(v) => v,
        None => if a > 0 {
            i128::MAX
        } else {
            i128::MIN
        },
    }
}

/// `a - b`, saturating.
pub fn sub_fx(a: i128, b: i128) -> (r: i128)
    ensures
        r == sati(a - b),
{
    match a.checked_sub(b) {
        Some(v) => v,
        None => if a >= 0 {
            i128::MAX
        } else {
            i128::MIN
        },
    }
}

/// Raw (unscaled) product `a * b`, saturating.
pub fn mul_sat(a: i128, b: i128) -> (r: i128)
    ensures
        r == sati(a * b),
{
    match a.checked_mul(b) {
        Some(v) => v,
        None => {
            proof {
                if a > 0 && b > 0 {
                    assert(a * b > 0) by (nonlinear_arith)
                        requires
                            a > 0,
                            b > 0,
                    ;
                } else if a < 0 && b < 0 {
                    assert(a * b > 0) by (nonlinear_arith)
                        requires
                            a < 0,
                            b < 0,
                    ;
                } else if a > 0 && b < 0 {
                    assert(a * b < 0) by (nonlinear_arith)
                        requires
                            a > 0,
                            b < 0,
                    ;
                } else if a < 0 && b > 0 {
                    assert(a * b < 0) by (nonlinear_arith)
                        requires
                            a < 0,
                            b > 0,
                    ;
                }
            }
            if (a > 0) == (b > 0) {
                i128::MAX
            } else {
                i128::MIN
            }
        },
    }
}

/// Truncating division of raw values; 0 when `b == 0`, saturating at the
/// single overflowing case.
pub fn div_t(a: i128, b: i128) -> (r: i128)
    ensures
        r == sati(divt(a as int, b as int)),
{
    if b == 0 {
        0
    } else {
        match a.checked_div(b) {
            Some(v) => v,
            None => i128::MAX,
        }
    }
}

/// Fixed-point product.
pub fn mul_fx(a: i128, b: i128) -> (r: i128)
    ensures
        r == sati(mulfx(a as int, b as int)),
{
    let p: i128 = mul_sat(a, b);
    div_t(p, SCALE)
}

/// Fixed-point quotient; 0 when `b == 0`.
pub fn div_fx(a: i128, b: i128) -> (r: i128)
    ensures
        r == sati(divfx(a as int, b as int)),
{
    let p: i128 = mul_sat(a, SCALE);
    div_t(p, b)
}

/// Integer square root of a `u128`, by binary search.
pub fn isqrt_u128(n: u128) -> (r: u128)
    ensures
        r as int == isqrt(n as int),
{
    let mut lo: u128 = 0;
    let mut hi: u128 = 0x1_0000_0000_0000_0000;
    proof {
        assert((hi as int) * (hi as int) > n as int) by (nonlinear_arith)
            requires
                hi as int == 0x1_0000_0000_0000_0000,
                n as int <= u128::MAX as int,
        ;
    }
    while hi - lo > 1
        invariant
            lo < hi,
            hi <= 0x1_0000_0000_0000_0000,
            (lo as int) * (lo as int) <= n as int,
            (n as int) < (hi as int) * (hi as int),
        decreases hi - lo,
    {
        let mid: u128 = lo + (hi - lo) / 2;
        proof {
            assert((mid as int) * (mid as int) <= u128::MAX as int) by (nonlinear_arith)
                requires
                    (mid as int) < 0x1_0000_0000_0000_0000,
            ;
        }
        if mid * mid <= n {
            lo = mid;
        } else {
            hi = mid;
        }
    }
    proof {
        lemma_isqrt_unique(n as int, lo as int);
    }
    lo
}

/// Fixed-point square root; 0 for a nonpositive input.
pub fn sqrt_fx(a: i128) -> (r: i128)
    ensures
        r == sati(sqrtfx(a as int)),
{
    if a <= 0 {
        return 0;
    }
    let m: u128 = a as u128;
    let p: u128 = match m.checked_mul(65536) {
        Some(v) => if v > i128::MAX as u128 {
            i128::MAX as u128
        } else {
            v
        },
        None => i128::MAX as u128,
    };
    proof {
        assert(p as int == sat(a as int * SCALE as int));
        lemma_isqrt(p as int);
        if isqrt(p as int) >= 0x1_0000_0000_0000_0000 {
            assert(isqrt(p as int) * isqrt(p as int) > p as int) by (nonlinear_arith)
                requires
                    isqrt(p as int) >= 0x1_0000_0000_0000_0000,
                    p as int <= i128::MAX as int,
            ;
        }
    }
    let r: u128 = isqrt_u128(p);
    r as i128
}

/// Fixed-point power with a whole-number exponent.
pub fn pow_fx(b: i128, e: u32) -> (r: i128)
    ensures
        r == sati(powfx(b as int, e as nat)),
{
    let mut acc: i128 = SCALE;
    let mut i: u32 = 0;
    while i < e
        invariant
            i <= e,
            acc == sati(powfx(b as int, i as nat)),
        decreases e - i,
    {
        proof {
            lemma_powfx_range(b as int, i as nat);
            lemma_mulfx_range(powfx(b as int, i as nat), b as int);
        }
        acc = mul_fx(acc, b);
        i = i + 1;
    }
    acc
}

} // verus!
