//! Fixed-point arithmetic core.
//!
//! A quantity is stored as an `i64` counting units of `1 / SCALE`, so twelve
//! decimal digits of fraction are kept. The operations here are the building
//! blocks of the layout generators and the thread-tolerance formulas:
//! rounding multiplication and division, and floor square and cube roots.

use vstd::prelude::*;

verus! {

/// One whole unit (an inch, a degree) in fixed-point form.
pub const SCALE: i64 = 1_000_000_000_000;

/// Half of `SCALE`, the bias that makes a truncating division round to nearest.
pub const HALF_SCALE: i64 = 500_000_000_000;

/// Largest magnitude accepted for a coordinate, an angle, or a spacing bound.
pub const MAX_COORD: i64 = 1_000_000_000_000_000_000;

/// Largest magnitude accepted for a grid or spacing step.
pub const MAX_STEP: i64 = 10_000_000_000_000;

/// Largest point count accepted by the generators.
pub const MAX_COUNT: u32 = 10_000;

/// Largest nominal diameter accepted by the thread calculator.
pub const MAX_DIAMETER: i64 = 100_000_000_000_000;

/// Largest length of engagement accepted by the thread calculator.
pub const MAX_ENGAGEMENT: i64 = 1_000_000_000_000_000;

/// Quotient of `a` by `b`, rounded to the nearest integer (ties upward).
pub open spec fn div_round_spec(a: int, b: int) -> int {
    (a + b / 2) / b
}

/// Product of two fixed-point values, rescaled and rounded to nearest.
pub open spec fn mul_fp_spec(a: int, b: int) -> int {
    (a * b + HALF_SCALE) / (SCALE as int)
}

/// `r` is the floor of the real square root of `n`.
pub open spec fn is_sqrt_floor(n: int, r: int) -> bool {
    0 <= r && r * r <= n && n < (r + 1) * (r + 1)
}

/// The floor of the real square root of `n`.
pub open spec fn sqrt_floor(n: int) -> int {
    choose|r: int| is_sqrt_floor(n, r)
}

/// `r` is the floor of the real cube root of `n`.
pub open spec fn is_cbrt_floor(n: int, r: int) -> bool {
    0 <= r && r * r * r <= n && n < (r + 1) * (r + 1) * (r + 1)
}

/// The floor of the real cube root of `n`.
pub open spec fn cbrt_floor(n: int) -> int {
    choose|r: int| is_cbrt_floor(n, r)
}

/// Square root of a fixed-point value, as a fixed-point value rounded down.
pub open spec fn sqrt_fp_spec(x: int) -> int {
    sqrt_floor(x * SCALE)
}

/// Cube root of a fixed-point value, as a fixed-point value rounded down.
pub open spec fn cbrt_fp_spec(x: int) -> int {
    cbrt_floor(x * SCALE * SCALE)
}

/// At most one integer is the floor of the square root of `n`.
pub proof fn lemma_sqrt_floor_unique(n: int, r: int)
    requires
        is_sqrt_floor(n, r),
    ensures
        sqrt_floor(n) == r,
{
    let c = sqrt_floor(n);
    assert(is_sqrt_floor(n, c));
    if c < r {
        assert((c + 1) * (c + 1) <= r * r) by (nonlinear_arith)
            requires
                0 <= c,
                c < r,
        ;
        assert(false);
    }
    if r < c {
        assert((r + 1) * (r + 1) <= c * c) by (nonlinear_arith)
            requires
                0 <= r,
                r < c,
        ;
        assert(false);
    }
}

/// At most one integer is the floor of the cube root of `n`.
pub proof fn lemma_cbrt_floor_unique(n: int, r: int)
    requires
        is_cbrt_floor(n, r),
    ensures
        cbrt_floor(n) == r,
{
    let c = cbrt_floor(n);
    assert(is_cbrt_floor(n, c));
    if c < r {
        assert((c + 1) * (c + 1) * (c + 1) <= r * r * r) by (nonlinear_arith)
            requires
                0 <= c,
                c < r,
        ;
        assert(false);
    }
    if r < c {
        assert((r + 1) * (r + 1) * (r + 1) <= c * c * c) by (nonlinear_arith)
            requires
                0 <= r,
                r < c,
        ;
        assert(false);
    }
}

/// Quotient rounded to nearest; the result never exceeds the dividend.
pub fn div_round(a: i64, b: i64) -> (r: i64)
    requires
        0 <= a,
        1 <= b,
        a + b / 2 <= i64::MAX,
    ensures
        r == div_round_spec(a as int, b as int),
        0 <= r <= a,
{
    let au = a as u64;
    let bu = b as u64;
    let q = (au + bu / 2) / bu;
    proof {
        assert(((a as int) + (b as int) / 2) / (b as int) <= a) by (nonlinear_arith)
            requires
                0 <= a,
                1 <= b,
        ;
        assert(((a as int) + (b as int) / 2) / (b as int) >= 0) by (nonlinear_arith)
            requires
                0 <= a,
                1 <= b,
        ;
    }
    q as i64
}

/// Fixed-point product, rounded to nearest. A factor at most `SCALE` cannot
/// grow the other factor.
pub fn mul_fp(a: i64, b: i64) -> (r: i64)
    requires
        0 <= a <= 2 * SCALE,
        0 <= b <= MAX_DIAMETER,
    ensures
        r == mul_fp_spec(a as int, b as int),
        0 <= r <= 2 * MAX_DIAMETER,
        a <= SCALE ==> r <= b,
{
    proof {
        assert((a as int) * (b as int) <= 200_000_000_000_000_000_000_000_000int) by (nonlinear_arith)
            requires
                0 <= a <= 2_000_000_000_000i64,
                0 <= b <= 100_000_000_000_000i64,
        ;
    }
    let p = (a as u128) * (b as u128) + (HALF_SCALE as u128);
    let q = p / (SCALE as u128);
    proof {
        assert((a * b + HALF_SCALE) / (SCALE as int) >= 0) by (nonlinear_arith)
            requires
                0 <= a,
                0 <= b,
        ;
        assert((a * b + HALF_SCALE) / (SCALE as int) <= 2 * MAX_DIAMETER) by (nonlinear_arith)
            requires
                0 <= a <= 2 * SCALE,
                0 <= b <= MAX_DIAMETER,
        ;
        assert(a <= SCALE ==> (a * b + HALF_SCALE) / (SCALE as int) <= b) by (nonlinear_arith)
            requires
                0 <= a,
                0 <= b,
        ;
    }
    q as i64
}

/// Floor of the integer square root, by bisection.
pub fn isqrt(n: u128) -> (r: u128)
    requires
        n <= 1_000_000_000_000_000_000_000_000_000_000,
    ensures
        is_sqrt_floor(n as int, r as int),
        r as int == sqrt_floor(n as int),
{
    let mut lo: u128 = 0;
    let mut hi: u128 = 1_000_000_000_000_001;
    proof {
        assert(1_000_000_000_000_001int * 1_000_000_000_000_001int
            > 1_000_000_000_000_000_000_000_000_000_000int) by (nonlinear_arith);
    }
    while lo + 1 < hi
        invariant
            (lo as int) * (lo as int) <= n as int,
            (n as int) < (hi as int) * (hi as int),
            lo < hi,
            hi <= 1_000_000_000_000_001,
        decreases hi - lo,
    {
        let mid = lo + (hi - lo) / 2;
        proof {
            assert((mid as int) * (mid as int) <= u128::MAX) by (nonlinear_arith)
                requires
                    mid <= 1_000_000_000_000_001u128,
            ;
        }
        if mid * mid <= n {
            lo = mid;
        } else {
            hi = mid;
        }
    }
    proof {
        lemma_sqrt_floor_unique(n as int, lo as int);
    }
    lo
}

/// Floor of the integer cube root, by bisection.
pub fn icbrt(n: u128) -> (r: u128)
    requires
        n <= 100_000_000_000_000_000_000_000_000_000_000_000_000,
    ensures
        is_cbrt_floor(n as int, r as int),
        r as int == cbrt_floor(n as int),
{
    let mut lo: u128 = 0;
    let mut hi: u128 = 5_000_000_000_001;
    proof {
        assert(5_000_000_000_001int * 5_000_000_000_001int * 5_000_000_000_001int
            > 100_000_000_000_000_000_000_000_000_000_000_000_000int) by (nonlinear_arith);
    }
    while lo + 1 < hi
        invariant
            (lo as int) * (lo as int) * (lo as int) <= n as int,
            (n as int) < (hi as int) * (hi as int) * (hi as int),
            lo < hi,
            hi <= 5_000_000_000_001,
        decreases hi - lo,
    {
        let mid = lo + (hi - lo) / 2;
        proof {
            assert((mid as int) * (mid as int) <= 25_000_000_000_010_000_000_000_001int
                && (mid as int) * (mid as int) * (mid as int)
                    <= 125_000_000_000_075_000_000_000_015_000_000_000_001int) by (nonlinear_arith)
                requires
                    mid <= 5_000_000_000_001u128,
            ;
        }
        if mid * mid * mid <= n {
            lo = mid;
        } else {
            hi = mid;
        }
    }
    proof {
        lemma_cbrt_floor_unique(n as int, lo as int);
    }
    lo
}

/// Square root of a fixed-point value, rounded down to the fixed-point grid.
pub fn sqrt_fp(x: i64) -> (r: i64)
    requires
        0 <= x <= MAX_ENGAGEMENT,
    ensures
        r == sqrt_fp_spec(x as int),
        0 <= r <= 40_000_000_000_000,
{
    proof {
        assert((x as int) * (SCALE as int) <= 1_000_000_000_000_000_000_000_000_000int) by (nonlinear_arith)
            requires
                0 <= x <= 1_000_000_000_000_000i64,
                SCALE == 1_000_000_000_000i64,
        ;
    }
    let n = (x as u128) * (SCALE as u128);
    let r = isqrt(n);
    proof {
        assert(is_sqrt_floor(n as int, r as int));
        assert(r as int <= 40_000_000_000_000) by (nonlinear_arith)
            requires
                is_sqrt_floor(n as int, r as int),
                n as int <= 1_000_000_000_000_000_000_000_000_000int,
        ;
    }
    r as i64
}

/// Cube root of a fixed-point value, rounded down to the fixed-point grid.
pub fn cbrt_fp(x: i64) -> (r: i64)
    requires
        0 <= x <= MAX_DIAMETER,
    ensures
        r == cbrt_fp_spec(x as int),
        0 <= r <= 5_000_000_000_000,
{
    proof {
        assert((x as int) * (SCALE as int) * (SCALE as int)
            <= 100_000_000_000_000_000_000_000_000_000_000_000_000int) by (nonlinear_arith)
            requires
                0 <= x <= 100_000_000_000_000i64,
                SCALE == 1_000_000_000_000i64,
        ;
    }
    let n = (x as u128) * (SCALE as u128) * (SCALE as u128);
    let r = icbrt(n);
    proof {
        assert(is_cbrt_floor(n as int, r as int));
        assert(r as int <= 5_000_000_000_000) by (nonlinear_arith)
            requires
                is_cbrt_floor(n as int, r as int),
                n as int <= 100_000_000_000_000_000_000_000_000_000_000_000_000int,
        ;
    }
    r as i64
}

} // verus!
