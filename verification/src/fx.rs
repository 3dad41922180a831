//! Fixed-point scalar arithmetic.
//!
//! A scalar is an `i128` holding the real value multiplied by `SCALE`
//! (so one stored unit is `1 / SCALE` in real terms). Every operation is
//! total: a division truncates toward zero, and a result whose magnitude
//! would exceed the saturation bound is clamped to that bound. The spec
//! functions below are the exact semantics of the executable operations.

use vstd::prelude::*;
use vstd::arithmetic::div_mod::{lemma_div_is_ordered_by_denominator, lemma_div_pos_is_pos};
use vstd::arithmetic::mul::{lemma_mul_nonnegative, lemma_mul_upper_bound};

verus! {

/// Number of stored units per real unit.
pub const SCALE: i128 = 1_000_000_000;

/// Saturation bound for general scalars (velocities, vorticities, norms).
pub const LIM: i128 = 1_000_000_000_000_000_000;

/// Saturation bound for point coordinates. Kept well under `LIM` so that
/// grids padded around any set of points still produce in-range cell centers.
pub const POS_LIM: i128 = 100_000_000_000_000_000;

/// Half the general saturation bound. Point differences stay within `LIM`
/// whenever both coordinates are within this bound.
pub const HALF_LIM: i128 = 500_000_000_000_000_000;

/// The circle constant scaled by `SCALE`, rounded to the nearest unit.
pub const PI: i128 = 3_141_592_654;

/// Largest argument magnitude the binary products in this module accept
/// without overflowing `i128`.
pub const MUL_ARG_LIM: i128 = 10_000_000_000_000_000_000;

/// Largest dividend magnitude `fdiv` accepts (its product with `SCALE`
/// must fit in `i128`).
pub const DIV_ARG_LIM: i128 = 100_000_000_000_000_000_000_000_000_000;

/// Largest argument `isqrt` accepts.
pub const SQRT_ARG_LIM: i128 = 4_000_000_000_000_000_000_000_000_000_000_000_000;

/// Clamp `x` into `[-lim, lim]`.
pub open spec fn sat_at(x: int, lim: int) -> int {
    if x > lim {
        lim
    } else if x < -lim {
        -lim
    } else {
        x
    }
}

/// Clamp a general scalar into `[-LIM, LIM]`.
pub open spec fn sat(x: int) -> int {
    sat_at(x, LIM as int)
}

/// Clamp a coordinate into `[-POS_LIM, POS_LIM]`.
pub open spec fn sat_pos(x: int) -> int {
    sat_at(x, POS_LIM as int)
}

/// Division truncating toward zero (the value a hardware signed division
/// returns), defined for positive divisors.
pub open spec fn tdiv(a: int, b: int) -> int {
    if a >= 0 {
        a / b
    } else {
        -((-a) / b)
    }
}

/// Saturating scalar addition.
pub open spec fn spec_fadd(a: int, b: int) -> int {
    sat(a + b)
}

/// Saturating scalar subtraction.
pub open spec fn spec_fsub(a: int, b: int) -> int {
    sat(a - b)
}

/// Saturating fixed-point multiplication: the product of the real values,
/// truncated to the stored resolution.
pub open spec fn spec_fmul(a: int, b: int) -> int {
    sat(tdiv(a * b, SCALE as int))
}

/// Saturating fixed-point division: the quotient of the real values,
/// truncated to the stored resolution. Defined for positive divisors.
pub open spec fn spec_fdiv(a: int, b: int) -> int {
    sat(tdiv(a * SCALE, b))
}

pub open spec fn spec_fmax(a: int, b: int) -> int {
    if a >= b {
        a
    } else {
        b
    }
}

pub open spec fn spec_fmin(a: int, b: int) -> int {
    if a <= b {
        a
    } else {
        b
    }
}

pub open spec fn spec_fabs(a: int) -> int {
    if a >= 0 {
        a
    } else {
        -a
    }
}

/// Saturating counter addition: clamp at the largest `usize`.
pub open spec fn sat_usize(x: int) -> int {
    if x > usize::MAX {
        usize::MAX as int
    } else {
        x
    }
}

/// `r` is the integer square root of `n`.
pub open spec fn is_sqrt(n: int, r: int) -> bool {
    0 <= r && r * r <= n && n < (r + 1) * (r + 1)
}

/// The integer square root (meaningful for `n >= 0`).
pub open spec fn sqrt(n: int) -> int {
    choose|r: int| is_sqrt(n, r)
}

/// The integer square root is unique: any witness equals `sqrt(n)`.
pub proof fn lemma_sqrt_unique(n: int, r: int)
    requires
        is_sqrt(n, r),
    ensures
        r == sqrt(n),
{
    assert(is_sqrt(n, sqrt(n)));
    let s = sqrt(n);
    assert(r == s) by {
        if r < s {
            assert((r + 1) * (r + 1) <= s * s) by (nonlinear_arith)
                requires
                    0 <= r,
                    r + 1 <= s,
            ;
        }
        if s < r {
            assert((s + 1) * (s + 1) <= r * r) by (nonlinear_arith)
                requires
                    0 <= s,
                    s + 1 <= r,
            ;
        }
    }
}

/// Truncating division shrinks magnitude and keeps sign.
pub proof fn lemma_tdiv_bounds(a: int, b: int)
    requires
        b >= 1,
    ensures
        a >= 0 ==> 0 <= tdiv(a, b) <= a,
        a < 0 ==> a <= tdiv(a, b) <= 0,
{
    if a >= 0 {
        lemma_div_pos_is_pos(a, b);
        lemma_div_is_ordered_by_denominator(a, 1, b);
    } else {
        lemma_div_pos_is_pos(-a, b);
        lemma_div_is_ordered_by_denominator(-a, 1, b);
    }
}

/// Clamp `x` into `[-lim, lim]`.
pub fn sat_lim(x: i128, lim: i128) -> (r: i128)
    requires
        0 < lim,
    ensures
        r == sat_at(x as int, lim as int),
{
    if x > lim {
        lim
    } else if x < -lim {
        -lim
    } else {
        x
    }
}

/// Truncating division of `a` by the positive divisor `b`.
pub fn tdiv_x(a: i128, b: i128) -> (r: i128)
    requires
        b >= 1,
    ensures
        r == tdiv(a as int, b as int),
{
    proof {
        lemma_tdiv_bounds(a as int, b as int);
    }
    match a.checked_div(b) {
        Some(q) => q,
        None => 0,
    }
}

/// Saturating scalar addition.
pub fn fadd(a: i128, b: i128) -> (r: i128)
    requires
        -DIV_ARG_LIM <= a <= DIV_ARG_LIM,
        -DIV_ARG_LIM <= b <= DIV_ARG_LIM,
    ensures
        r == spec_fadd(a as int, b as int),
        -LIM <= r <= LIM,
{
    sat_lim(a + b, LIM)
}

/// Saturating scalar subtraction.
pub fn fsub(a: i128, b: i128) -> (r: i128)
    requires
        -DIV_ARG_LIM <= a <= DIV_ARG_LIM,
        -DIV_ARG_LIM <= b <= DIV_ARG_LIM,
    ensures
        r == spec_fsub(a as int, b as int),
        -LIM <= r <= LIM,
{
    sat_lim(a - b, LIM)
}

/// Saturating fixed-point multiplication.
pub fn fmul(a: i128, b: i128) -> (r: i128)
    requires
        -MUL_ARG_LIM <= a <= MUL_ARG_LIM,
        -MUL_ARG_LIM <= b <= MUL_ARG_LIM,
    ensures
        r == spec_fmul(a as int, b as int),
        -LIM <= r <= LIM,
{
    proof {
        lemma_mul_abs_le(a as int, b as int, MUL_ARG_LIM as int, MUL_ARG_LIM as int);
    }
    let p: i128 = a * b;
    sat_lim(tdiv_x(p, SCALE), LIM)
}

/// Saturating fixed-point division by a positive divisor.
pub fn fdiv(a: i128, b: i128) -> (r: i128)
    requires
        -DIV_ARG_LIM <= a <= DIV_ARG_LIM,
        b >= 1,
    ensures
        r == spec_fdiv(a as int, b as int),
        -LIM <= r <= LIM,
{
    proof {
        lemma_mul_abs_le(a as int, SCALE as int, DIV_ARG_LIM as int, SCALE as int);
    }
    let p: i128 = a * SCALE;
    sat_lim(tdiv_x(p, b), LIM)
}

/// Larger of two scalars.
pub fn fmax(a: i128, b: i128) -> (r: i128)
    ensures
        r == spec_fmax(a as int, b as int),
{
    if a >= b {
        a
    } else {
        b
    }
}

/// Smaller of two scalars.
pub fn fmin(a: i128, b: i128) -> (r: i128)
    ensures
        r == spec_fmin(a as int, b as int),
{
    if a <= b {
        a
    } else {
        b
    }
}

/// Absolute value.
pub fn fabs(a: i128) -> (r: i128)
    requires
        a > i128::MIN,
    ensures
        r == spec_fabs(a as int),
{
    if a >= 0 {
        a
    } else {
        -a
    }
}

/// Saturating addition of two counters.
pub fn usize_sat_add(a: usize, b: usize) -> (r: usize)
    ensures
        r == sat_usize(a + b),
{
    if a > usize::MAX - b {
        usize::MAX
    } else {
        a + b
    }
}

/// A fixed-point product of nonnegative scalars is nonnegative.
pub proof fn lemma_fmul_nonneg(a: int, b: int)
    requires
        a >= 0,
        b >= 0,
    ensures
        0 <= spec_fmul(a, b) <= LIM,
{
    lemma_mul_nonnegative(a, b);
    lemma_tdiv_bounds(a * b, SCALE as int);
}

/// A fixed-point quotient of a nonnegative scalar by a positive one is
/// nonnegative.
pub proof fn lemma_fdiv_nonneg(a: int, b: int)
    requires
        a >= 0,
        b >= 1,
    ensures
        0 <= spec_fdiv(a, b) <= LIM,
{
    lemma_mul_nonnegative(a, SCALE as int);
    lemma_tdiv_bounds(a * SCALE, b);
}

/// Magnitude of a product is bounded by the product of the bounds.
pub proof fn lemma_mul_abs_le(a: int, b: int, abound: int, bbound: int)
    requires
        -abound <= a <= abound,
        -bbound <= b <= bbound,
        0 <= abound,
        0 <= bbound,
    ensures
        -(abound * bbound) <= a * b <= abound * bbound,
{
    lemma_mul_upper_bound(spec_fabs(a), abound, spec_fabs(b), bbound);
    assert(-(abound * bbound) <= a * b <= abound * bbound) by (nonlinear_arith)
        requires
            spec_fabs(a) * spec_fabs(b) <= abound * bbound,
            -abound <= a <= abound,
            -bbound <= b <= bbound,
            0 <= abound,
            0 <= bbound,
    ;
}

/// Integer square root by binary search.
pub fn isqrt(n: i128) -> (r: i128)
    requires
        0 <= n <= SQRT_ARG_LIM,
    ensures
        is_sqrt(n as int, r as int),
        r == sqrt(n as int),
        0 <= r <= 2_000_000_000_000_000_000,
{
    let mut lo: i128 = 0;
    let mut hi: i128 = 2_000_000_000_000_000_001;
    proof {
        assert(hi * hi > SQRT_ARG_LIM) by (nonlinear_arith)
            requires
                hi == 2_000_000_000_000_000_001i128,
        ;
    }
    while lo + 1 < hi
        invariant
            0 <= lo < hi <= 2_000_000_000_000_000_001,
            lo * lo <= n,
            n < hi * hi,
        decreases hi - lo,
    {
        let mid: i128 = lo + tdiv_x(hi - lo, 2);
        proof {
            lemma_tdiv_bounds((hi - lo) as int, 2);
            assert(lo < mid < hi);
            lemma_mul_abs_le(mid as int, mid as int, hi as int, hi as int);
            lemma_mul_abs_le(hi as int, hi as int, 2_000_000_000_000_000_001,
                2_000_000_000_000_000_001);
            assert(
                2_000_000_000_000_000_001 * 2_000_000_000_000_000_001 < i128::MAX
            ) by (nonlinear_arith);
        }
        if mid * mid <= n {
            lo = mid;
        } else {
            hi = mid;
        }
    }
    proof {
        lemma_sqrt_unique(n as int, lo as int);
    }
    lo
}

} // verus!
