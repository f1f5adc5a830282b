//! Saturating `Q47.16` fixed-point arithmetic.
//!
//! A fixed-point number is an `i64` holding `real_value * FP_ONE`. Every
//! operation clamps its result into `[-FP_MAX, FP_MAX]`, so arithmetic is
//! total: no overflow, no panic, no undefined value. Division by zero is
//! defined to return zero (an explicit guard in place of a poison value).
//! Each executable operation is specified exactly against a spec-level model.

use vstd::prelude::*;

verus! {

/// Fixed-point scale: one unit of real value is `FP_ONE` raw units.
pub const FP_ONE: i64 = 65536;

/// Saturation bound (2^47) of every fixed-point value the library produces.
pub const FP_MAX: i64 = 140737488355328;

/// Magnitude of the mathematical absolute value.
pub open spec fn fp_abs(a: int) -> int {
    if a < 0 { -a } else { a }
}

/// `a` lies in the representable fixed-point range.
pub open spec fn in_fp(a: int) -> bool {
    -FP_MAX <= a <= FP_MAX
}

/// `a` lies in the `i64` range.
pub open spec fn fits_i64(a: int) -> bool {
    -0x8000000000000000 <= a <= 0x7fffffffffffffff
}

/// Truncating division (round toward zero), the rounding rule of every
/// fixed-point operation. Unspecified intent for `b == 0`; callers guard.
pub open spec fn tdiv(a: int, b: int) -> int {
    let q = fp_abs(a) / fp_abs(b);
    if (a < 0) == (b < 0) { q } else { -q }
}

/// Saturation into the representable range.
pub open spec fn fp_clamp(a: int) -> int {
    if a > FP_MAX { FP_MAX as int } else if a < -FP_MAX { -(FP_MAX as int) } else { a }
}

/// Model of fixed-point addition.
pub open spec fn fp_add_s(a: int, b: int) -> int {
    fp_clamp(a + b)
}

/// Model of fixed-point subtraction.
pub open spec fn fp_sub_s(a: int, b: int) -> int {
    fp_clamp(a - b)
}

/// Model of fixed-point multiplication.
pub open spec fn fp_mul_s(a: int, b: int) -> int {
    fp_clamp(tdiv(a * b, FP_ONE as int))
}

/// Model of fixed-point division; division by zero yields zero.
pub open spec fn fp_div_s(a: int, b: int) -> int {
    if b == 0 { 0 } else { fp_clamp(tdiv(a * FP_ONE, b)) }
}

/// Model of fixed-point negation.
pub open spec fn fp_neg_s(a: int) -> int {
    fp_clamp(-a)
}

/// Saturate a wide intermediate into an `i64` fixed-point value.
pub(crate) fn clamp_i128(v: i128) -> (r: i64)
    ensures
        r == fp_clamp(v as int),
        in_fp(r as int),
{
    if v > FP_MAX as i128 {
        FP_MAX
    } else if v < -(FP_MAX as i128) {
        -FP_MAX
    } else {
        v as i64
    }
}

/// Truncating division on wide intermediates, matching `tdiv`.
pub(crate) fn tdiv_i128(a: i128, b: i128) -> (r: i128)
    requires
        b != 0,
        fp_abs(a as int) <= 0x40000000000000000000000000000000,
        fp_abs(b as int) <= 0x40000000000000000000000000000000,
    ensures
        r == tdiv(a as int, b as int),
        fp_abs(r as int) <= fp_abs(a as int),
{
    let na: u128 = if a < 0 { (-a) as u128 } else { a as u128 };
    let nb: u128 = if b < 0 { (-b) as u128 } else { b as u128 };
    let q: u128 = na / nb;
    assert(q <= na) by {
        assert(na / nb <= na) by (nonlinear_arith)
            requires nb >= 1,
        ;
    };
    if (a < 0) != (b < 0) {
        -(q as i128)
    } else {
        q as i128
    }
}

/// Fixed-point addition, saturating.
pub fn fp_add(a: i64, b: i64) -> (r: i64)
    ensures
        r == fp_add_s(a as int, b as int),
        in_fp(r as int),
{
    clamp_i128(a as i128 + b as i128)
}

/// Fixed-point subtraction, saturating.
pub fn fp_sub(a: i64, b: i64) -> (r: i64)
    ensures
        r == fp_sub_s(a as int, b as int),
        in_fp(r as int),
{
    clamp_i128(a as i128 - b as i128)
}

/// Fixed-point multiplication, saturating.
pub fn fp_mul(a: i64, b: i64) -> (r: i64)
    ensures
        r == fp_mul_s(a as int, b as int),
        in_fp(r as int),
{
    proof {
        assert(fp_abs((a as int) * (b as int)) <= 0x40000000000000000000000000000000) by (nonlinear_arith)
            requires
                -0x8000000000000000 <= (a as int) <= 0x7fffffffffffffff,
                -0x8000000000000000 <= (b as int) <= 0x7fffffffffffffff,
        ;
    }
    let p: i128 = (a as i128) * (b as i128);
    let q = tdiv_i128(p, FP_ONE as i128);
    clamp_i128(q)
}

/// Fixed-point division, saturating; division by zero yields zero.
pub fn fp_div(a: i64, b: i64) -> (r: i64)
    ensures
        r == fp_div_s(a as int, b as int),
        in_fp(r as int),
{
    if b == 0 {
        return 0;
    }
    proof {
        assert(fp_abs((a as int) * (FP_ONE as int)) <= 0x40000000000000000000000000000000) by (nonlinear_arith)
            requires
                -0x8000000000000000 <= (a as int) <= 0x7fffffffffffffff,
        ;
    }
    let p: i128 = (a as i128) * (FP_ONE as i128);
    let q = tdiv_i128(p, b as i128);
    clamp_i128(q)
}

/// Fixed-point negation, saturating.
pub fn fp_neg(a: i64) -> (r: i64)
    ensures
        r == fp_neg_s(a as int),
        in_fp(r as int),
{
    clamp_i128(-(a as i128))
}

/// Binary-search step of the integer square root, the model of `isqrt`.
pub open spec fn isqrt_rec(n: int, lo: int, hi: int) -> int
    decreases hi - lo,
{
    if lo >= hi {
        lo
    } else {
        let mid = (lo + hi + 1) / 2;
        if mid * mid <= n {
            isqrt_rec(n, mid, hi)
        } else {
            isqrt_rec(n, lo, mid - 1)
        }
    }
}

/// Floor of the square root of a nonnegative integer below `2^126`.
pub open spec fn isqrt_s(n: int) -> int {
    isqrt_rec(n, 0, 0x8000000000000000)
}

/// The binary search returns the unique floor square root.
proof fn lemma_isqrt_rec(n: int, lo: int, hi: int)
    requires
        0 <= lo <= hi,
        lo * lo <= n,
        n < (hi + 1) * (hi + 1),
    ensures
        lo <= isqrt_rec(n, lo, hi) <= hi,
        isqrt_rec(n, lo, hi) * isqrt_rec(n, lo, hi) <= n,
        n < (isqrt_rec(n, lo, hi) + 1) * (isqrt_rec(n, lo, hi) + 1),
    decreases hi - lo,
{
    if lo >= hi {
    } else {
        let mid = (lo + hi + 1) / 2;
        if mid * mid <= n {
            lemma_isqrt_rec(n, mid, hi);
        } else {
            lemma_isqrt_rec(n, lo, mid - 1);
        }
    }
}

/// `isqrt_s(n)` is the floor square root of `n`.
pub proof fn lemma_isqrt(n: int)
    requires
        0 <= n <= 0x40000000000000000000000000000000,
    ensures
        0 <= isqrt_s(n) <= 0x8000000000000000,
        isqrt_s(n) * isqrt_s(n) <= n,
        n < (isqrt_s(n) + 1) * (isqrt_s(n) + 1),
{
    assert(n < (0x8000000000000000 + 1) * (0x8000000000000000 + 1)) by (nonlinear_arith)
        requires n <= 0x40000000000000000000000000000000,
    ;
    lemma_isqrt_rec(n, 0, 0x8000000000000000);
}

/// Any value with the floor-square-root property equals `isqrt_s(n)`.
pub proof fn lemma_isqrt_unique(n: int, r: int)
    requires
        0 <= n <= 0x40000000000000000000000000000000,
        0 <= r,
        r * r <= n,
        n < (r + 1) * (r + 1),
    ensures
        r == isqrt_s(n),
{
    lemma_isqrt(n);
    let s = isqrt_s(n);
    if r < s {
        assert((r + 1) * (r + 1) <= s * s) by (nonlinear_arith)
            requires 0 <= r, r + 1 <= s,
        ;
    }
    if s < r {
        assert((s + 1) * (s + 1) <= r * r) by (nonlinear_arith)
            requires 0 <= s, s + 1 <= r,
        ;
    }
}

/// Integer square root of a wide operand by binary search.
pub(crate) fn isqrt_u128(n: u128) -> (r: u64)
    requires
        n <= 0x40000000000000000000000000000000,
    ensures
        r == isqrt_s(n as int),
        (r as int) * (r as int) <= n as int,
        (n as int) < (r as int + 1) * (r as int + 1),
{
    let mut lo: u128 = 0;
    let mut hi: u128 = 0x8000000000000000;
    proof {
        assert((n as int) < (0x8000000000000000 + 1) * (0x8000000000000000 + 1)) by (nonlinear_arith)
            requires n <= 0x40000000000000000000000000000000,
        ;
    }
    while lo < hi
        invariant
            0 <= lo <= hi <= 0x8000000000000000,
            (lo as int) * (lo as int) <= n as int,
            (n as int) < (hi as int + 1) * (hi as int + 1),
            n <= 0x40000000000000000000000000000000,
        decreases hi - lo,
    {
        let mid: u128 = (lo + hi + 1) / 2;
        proof {
            assert(mid * mid <= 0x8000000000000000 * 0x8000000000000000) by (nonlinear_arith)
                requires mid <= 0x8000000000000000,
            ;
        }
        if mid * mid <= n {
            lo = mid;
        } else {
            hi = mid - 1;
        }
    }
    proof {
        lemma_isqrt_unique(n as int, lo as int);
    }
    lo as u64
}

/// Bounded factors give a bounded product.
pub proof fn lemma_mul_bound(a: int, b: int, m: int, n: int)
    by (nonlinear_arith)
    requires
        fp_abs(a) <= m,
        fp_abs(b) <= n,
    ensures
        fp_abs(a * b) <= m * n,
{
}

/// Truncating division by a positive divisor is monotone in the dividend.
pub proof fn lemma_tdiv_mono(a1: int, a2: int, b: int)
    requires
        a1 <= a2,
        b > 0,
    ensures
        tdiv(a1, b) <= tdiv(a2, b),
{
    if a1 >= 0 {
        vstd::arithmetic::div_mod::lemma_div_is_ordered(a1, a2, b);
    } else if a2 < 0 {
        vstd::arithmetic::div_mod::lemma_div_is_ordered(-a2, -a1, b);
    } else {
        vstd::arithmetic::div_mod::lemma_div_pos_is_pos(-a1, b);
        vstd::arithmetic::div_mod::lemma_div_pos_is_pos(a2, b);
    }
}

/// Truncating division cancels an exact multiple.
pub proof fn lemma_tdiv_mul_cancel(n: int, b: int)
    requires
        b > 0,
    ensures
        tdiv(n * b, b) == n,
{
    if n >= 0 {
        assert(n * b >= 0) by (nonlinear_arith)
            requires n >= 0, b > 0,
        ;
        vstd::arithmetic::div_mod::lemma_div_multiples_vanish(n, b);
        assert(b * n == n * b);
    } else {
        assert(n * b < 0 && fp_abs(n * b) == (-n) * b) by (nonlinear_arith)
            requires n < 0, b > 0,
        ;
        vstd::arithmetic::div_mod::lemma_div_multiples_vanish(-n, b);
        assert(b * (-n) == (-n) * b);
    }
}

/// Model of the fixed-point square root: nonpositive inputs map to zero.
pub open spec fn fp_sqrt_s(a: int) -> int {
    if a <= 0 { 0 } else { isqrt_s(a * FP_ONE) }
}

/// Fixed-point square root; nonpositive inputs yield zero.
pub fn fp_sqrt(a: i64) -> (r: i64)
    ensures
        r == fp_sqrt_s(a as int),
        0 <= r,
        in_fp(r as int),
{
    if a <= 0 {
        0
    } else {
        proof {
            assert((a as int) * (FP_ONE as int) <= 0x40000000000000000000000000000000) by (nonlinear_arith)
                requires
                    0 <= (a as int) <= 0x7fffffffffffffff,
            ;
        }
        let wide: u128 = (a as u128) * (FP_ONE as u128);
        let r = isqrt_u128(wide);
        proof {
            assert(r < 0x10000000000) by (nonlinear_arith)
                requires
                    (r as int) * (r as int) <= wide as int,
                    (wide as int) < 0x100000000000000000000,
                    (r as int) >= 0,
            ;
        }
        r as i64
    }
}

} // verus!
