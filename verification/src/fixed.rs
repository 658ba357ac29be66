//! Saturating fixed-point scalars.
//!
//! Every quantity of the tracer (coordinates, distances, colors) is a real
//! number carried as an `i64` holding the value scaled by [`FIX_ONE`].
//! Multiplication and division truncate toward zero, and every result
//! saturates at [`FIX_LIMIT`], so all operations are total: no input makes
//! them overflow or panic.

use vstd::prelude::*;

verus! {

/// The number 1 in the fixed-point encoding: a scalar `v: i64` stands for
/// the real number `v / FIX_ONE`.
pub const FIX_ONE: i64 = 1_000_000;

/// The number 1/2 in the fixed-point encoding.
pub const FIX_HALF: i64 = 500_000;

/// Largest magnitude any arithmetic result may take; results beyond it
/// saturate here, keeping every operation total.
pub const FIX_LIMIT: i64 = 1_000_000_000_000_000_000;

/// Magnitude of an integer.
pub open spec fn iabs(a: int) -> int {
    if a < 0 {
        -a
    } else {
        a
    }
}

/// Division truncated toward zero, the rounding rule of all fixed-point
/// operations. A zero divisor saturates by the dividend's sign.
pub open spec fn tdiv(a: int, b: int) -> int {
    if b == 0 {
        if a > 0 {
            FIX_LIMIT as int
        } else if a < 0 {
            -(FIX_LIMIT as int)
        } else {
            0
        }
    } else {
        let q = iabs(a) / iabs(b);
        if (a < 0) != (b < 0) {
            -q
        } else {
            q
        }
    }
}

/// Clamp a mathematical result into the representable window.
pub open spec fn sat(v: int) -> int {
    if v > FIX_LIMIT as int {
        FIX_LIMIT as int
    } else if v < -(FIX_LIMIT as int) {
        -(FIX_LIMIT as int)
    } else {
        v
    }
}

/// Fixed-point product.
pub open spec fn fmul(a: int, b: int) -> int {
    sat(tdiv(a * b, FIX_ONE as int))
}

/// Fixed-point quotient.
pub open spec fn fdiv(a: int, b: int) -> int {
    sat(tdiv(a * FIX_ONE, b))
}

/// Saturating sum.
pub open spec fn fadd(a: int, b: int) -> int {
    sat(a + b)
}

/// Saturating difference.
pub open spec fn fsub(a: int, b: int) -> int {
    sat(a - b)
}

/// Saturating negation.
pub open spec fn fneg(a: int) -> int {
    sat(-a)
}

/// Quotient of a fixed-point value by a plain integer count.
pub open spec fn idiv(a: int, n: int) -> int {
    sat(tdiv(a, n))
}

/// `r` is the floor of the square root of `n`.
pub open spec fn is_sqrt(n: int, r: int) -> bool {
    0 <= r && r * r <= n && n < (r + 1) * (r + 1)
}

/// Floor of the square root of a non-negative integer.
pub open spec fn sqrt_floor(n: int) -> int {
    choose|r: int| is_sqrt(n, r)
}

/// Fixed-point square root: the scaled square root of a scaled value.
/// Non-positive inputs give 0.
pub open spec fn fsqrt(x: int) -> int {
    if x <= 0 {
        0
    } else {
        sqrt_floor(x * FIX_ONE)
    }
}

pub proof fn lemma_sqrt_exists(n: int)
    requires
        n >= 0,
    ensures
        is_sqrt(n, sqrt_floor(n)),
    decreases n,
{
    if n == 0 {
        assert(is_sqrt(0, 0));
    } else {
        lemma_sqrt_exists(n - 1);
        let r = sqrt_floor(n - 1);
        if (r + 1) * (r + 1) <= n {
            assert(is_sqrt(n, r + 1)) by (nonlinear_arith)
                requires
                    is_sqrt(n - 1, r),
                    (r + 1) * (r + 1) <= n,
            ;
        } else {
            assert(is_sqrt(n, r));
        }
    }
}

pub proof fn lemma_sqrt_unique(n: int, r1: int, r2: int)
    requires
        is_sqrt(n, r1),
        is_sqrt(n, r2),
    ensures
        r1 == r2,
{
    assert(r1 == r2) by (nonlinear_arith)
        requires
            is_sqrt(n, r1),
            is_sqrt(n, r2),
    ;
}

/// The product of two machine scalars always fits well inside an `i128`.
proof fn lemma_i64_product_in_i128(a: int, b: int)
    requires
        i64::MIN <= a <= i64::MAX,
        i64::MIN <= b <= i64::MAX,
    ensures
        i128::MIN < a * b,
        a * b <= i128::MAX,
{
    assert(i128::MIN < a * b <= i128::MAX) by (nonlinear_arith)
        requires
            -0x8000000000000000 <= a <= 0x7fffffffffffffff,
            -0x8000000000000000 <= b <= 0x7fffffffffffffff,
    ;
}

/// Truncated division on wide integers, the executable form of [`tdiv`].
fn tdiv_i128(a: i128, b: i128) -> (q: i128)
    requires
        a > i128::MIN,
        b > i128::MIN,
    ensures
        q == tdiv(a as int, b as int),
{
    if b == 0 {
        if a > 0 {
            FIX_LIMIT as i128
        } else if a < 0 {
            -(FIX_LIMIT as i128)
        } else {
            0
        }
    } else {
        let na: u128 = if a < 0 {
            (-a) as u128
        } else {
            a as u128
        };
        let nb: u128 = if b < 0 {
            (-b) as u128
        } else {
            b as u128
        };
        let q: u128 = na / nb;
        assert(q <= na) by (nonlinear_arith)
            requires
                nb >= 1,
                q == na as int / nb as int,
        ;
        let qi: i128 = q as i128;
        if (a < 0) != (b < 0) {
            -qi
        } else {
            qi
        }
    }
}

/// Clamp a wide result back into an `i64`, the executable form of [`sat`].
pub fn sat_wide(v: i128) -> (r: i64)
    ensures
        r as int == sat(v as int),
{
    if v > FIX_LIMIT as i128 {
        FIX_LIMIT
    } else if v < -(FIX_LIMIT as i128) {
        -FIX_LIMIT
    } else {
        v as i64
    }
}

/// Fixed-point product of two scalars.
pub fn mul_fix(a: i64, b: i64) -> (r: i64)
    ensures
        r as int == fmul(a as int, b as int),
{
    proof {
        lemma_i64_product_in_i128(a as int, b as int);
    }
    let p: i128 = (a as i128) * (b as i128);
    let q: i128 = tdiv_i128(p, FIX_ONE as i128);
    sat_wide(q)
}

/// Fixed-point quotient of two scalars.
pub fn div_fix(a: i64, b: i64) -> (r: i64)
    ensures
        r as int == fdiv(a as int, b as int),
{
    proof {
        lemma_i64_product_in_i128(a as int, FIX_ONE as int);
    }
    let p: i128 = (a as i128) * (FIX_ONE as i128);
    let q: i128 = tdiv_i128(p, b as i128);
    sat_wide(q)
}

/// Saturating sum of two scalars.
pub fn add_fix(a: i64, b: i64) -> (r: i64)
    ensures
        r as int == fadd(a as int, b as int),
{
    let s: i128 = (a as i128) + (b as i128);
    sat_wide(s)
}

/// Saturating difference of two scalars.
pub fn sub_fix(a: i64, b: i64) -> (r: i64)
    ensures
        r as int == fsub(a as int, b as int),
{
    let s: i128 = (a as i128) - (b as i128);
    sat_wide(s)
}

/// Saturating negation.
pub fn neg_fix(a: i64) -> (r: i64)
    ensures
        r as int == fneg(a as int),
{
    let s: i128 = -(a as i128);
    sat_wide(s)
}

/// Quotient of a fixed-point value by a plain integer count.
pub fn div_int(a: i64, n: i64) -> (r: i64)
    ensures
        r as int == idiv(a as int, n as int),
{
    let q: i128 = tdiv_i128(a as i128, n as i128);
    sat_wide(q)
}

/// Floor square root by binary search on wide integers.
fn isqrt_u128(n: u128) -> (r: u128)
    requires
        n < 0x10000000000000000000000000u128,
    ensures
        is_sqrt(n as int, r as int),
{
    let mut lo: u128 = 0;
    let mut hi: u128 = 0x4000000000000u128;
    proof {
        assert(n < (hi + 1) * (hi + 1)) by (nonlinear_arith)
            requires
                n < 0x10000000000000000000000000u128,
                hi == 0x4000000000000u128,
        ;
    }
    while lo < hi
        invariant
            lo <= hi,
            hi <= 0x4000000000000u128,
            lo * lo <= n,
            n < (hi + 1) * (hi + 1),
        decreases hi - lo,
    {
        let mid: u128 = lo + (hi - lo + 1) / 2;
        assert(lo < mid <= hi);
        proof {
            assert(mid * mid <= u128::MAX) by (nonlinear_arith)
                requires
                    mid <= 0x4000000000000u128,
            ;
        }
        let sq: u128 = mid * mid;
        if sq <= n {
            lo = mid;
        } else {
            hi = mid - 1;
        }
    }
    lo
}

/// Fixed-point square root of a scalar.
pub fn sqrt_fix(x: i64) -> (r: i64)
    ensures
        r as int == fsqrt(x as int),
        r >= 0,
{
    if x <= 0 {
        return 0;
    }
    proof {
        assert(x as int * FIX_ONE as int <= u128::MAX) by (nonlinear_arith)
            requires
                0 < x <= i64::MAX,
        ;
    }
    let n: u128 = (x as u128) * (FIX_ONE as u128);
    proof {
        assert(n < 0x10000000000000000000000000u128) by (nonlinear_arith)
            requires
                n == x as int * FIX_ONE as int,
                0 < x <= i64::MAX,
        ;
    }
    let s: u128 = isqrt_u128(n);
    proof {
        lemma_sqrt_exists(n as int);
        lemma_sqrt_unique(n as int, s as int, sqrt_floor(n as int));
        assert(s as int <= i64::MAX) by (nonlinear_arith)
            requires
                is_sqrt(n as int, s as int),
                n < 0x10000000000000000000000000u128,
        ;
    }
    s as i64
}


/// Truncated division of a non-negative value by a non-negative value is
/// non-negative.
pub proof fn lemma_tdiv_nonneg(a: int, b: int)
    requires
        a >= 0,
        b >= 0,
    ensures
        tdiv(a, b) >= 0,
{
    if b != 0 {
        vstd::arithmetic::div_mod::lemma_div_pos_is_pos(a, b);
    }
}

/// Truncated division of a non-positive value by a non-negative value is
/// non-positive.
pub proof fn lemma_tdiv_nonpos(a: int, b: int)
    requires
        a <= 0,
        b >= 0,
    ensures
        tdiv(a, b) <= 0,
{
    if b != 0 && a < 0 {
        vstd::arithmetic::div_mod::lemma_div_pos_is_pos(-a, b);
    }
}

/// Truncated division by a non-negative divisor is monotone in the
/// dividend.
pub proof fn lemma_tdiv_monotone(a1: int, a2: int, b: int)
    requires
        a1 <= a2,
        b >= 0,
    ensures
        tdiv(a1, b) <= tdiv(a2, b),
{
    if b == 0 {
        // saturated by sign, and signs are ordered
    } else if a1 >= 0 {
        vstd::arithmetic::div_mod::lemma_div_is_ordered(a1, a2, b);
    } else if a2 <= 0 {
        vstd::arithmetic::div_mod::lemma_div_is_ordered(-a2, -a1, b);
    } else {
        lemma_tdiv_nonpos(a1, b);
        lemma_tdiv_nonneg(a2, b);
    }
}

/// A dividend of at least `c` times the divisor has quotient at least `c`.
pub proof fn lemma_tdiv_lower(a: int, b: int, c: int)
    requires
        b > 0,
        c >= 0,
        a >= c * b,
    ensures
        tdiv(a, b) >= c,
{
    assert(c * b >= 0) by (nonlinear_arith)
        requires
            c >= 0,
            b > 0,
    ;
    vstd::arithmetic::div_mod::lemma_div_is_ordered(c * b, a, b);
    vstd::arithmetic::div_mod::lemma_div_by_multiple(c, b);
}

} // verus!
