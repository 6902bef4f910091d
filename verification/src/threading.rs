//! Unified Thread Standard (UTS) external-thread tolerance dimensioning.
//!
//! Given a nominal diameter, threads per inch, a fit class and a length of
//! engagement, these functions compute the allowance, the base tolerance, the
//! class-dependent diameter tolerances, and the derived minimum and maximum
//! major, pitch and minor diameters of an external thread. All values are
//! fixed-point inches in units of `fixed::SCALE`.

use vstd::prelude::*;
use crate::fixed::SCALE;
use crate::fixed::MAX_DIAMETER;
use crate::fixed::MAX_ENGAGEMENT;
use crate::fixed::div_round;
use crate::fixed::div_round_spec;
use crate::fixed::mul_fp;
use crate::fixed::mul_fp_spec;
use crate::fixed::sqrt_fp;
use crate::fixed::sqrt_fp_spec;
use crate::fixed::cbrt_fp;
use crate::fixed::cbrt_fp_spec;

verus! {

/// Fit class of an external thread.
///
/// - `A1`: loose fit, allowance applied.
/// - `A2`: general fit, allowance applied.
/// - `A3`: precision fit, no allowance.
#[derive(Clone, Copy, Debug, PartialEq, Eq, Structural)]
pub enum ThreadClass {
    A1,
    A2,
    A3,
}

/// `0.0015`, the coefficient of the diameter and engagement terms.
pub const K1: i64 = 1_500_000_000;

/// `0.015`, the coefficient of the pitch term.
pub const K2: i64 = 15_000_000_000;

/// `0.3`, the allowance share of the base tolerance for classes 1A and 2A.
pub const ALLOW_FACTOR: i64 = 300_000_000_000;

/// `0.3`, the class 1A major-diameter tolerance share of the base tolerance.
pub const TD_A1_FACTOR: i64 = 300_000_000_000;

/// `0.06`, the classes 2A/3A major-diameter tolerance coefficient.
pub const TD_A23_FACTOR: i64 = 60_000_000_000;

/// `1.5`, the class 1A pitch-diameter tolerance share of the base tolerance.
pub const TD2_A1_FACTOR: i64 = 1_500_000_000_000;

/// `0.75`, the class 3A pitch-diameter tolerance share of the base tolerance.
pub const TD2_A3_FACTOR: i64 = 750_000_000_000;

/// `0.866025404`, the height of the fundamental thread triangle per unit
/// pitch for a 60 degree profile.
pub const H_FACTOR: i64 = 866_025_404_000;

/// `3/8`, the share of the triangle height between major and pitch diameter.
pub const EIGHTH_3: i64 = 375_000_000_000;

/// `5/8`, the share of the triangle height between major and minor diameter.
pub const EIGHTH_5: i64 = 625_000_000_000;

/// `1.19078493`, maximum external UNR diameter per unit pitch.
pub const UNR_FACTOR: i64 = 1_190_784_930_000;

/// `1.08253175`, maximum external UN diameter per unit pitch.
pub const UN_FACTOR: i64 = 1_082_531_750_000;

/// `0.64951905`, external thread addendum per unit pitch.
pub const ADDENDUM_FACTOR: i64 = 649_519_050_000;

/// The length of engagement actually used: the given one, or five pitches.
pub open spec fn le_or_default_spec(le: Option<i64>, p: int) -> int {
    match le {
        Some(l) => l as int,
        None => 5 * p,
    }
}

/// The base tolerance `T = 0.0015 cbrt(D) + 0.0015 sqrt(LE) + 0.015 cbrt(P^2)`.
pub open spec fn base_tolerance_spec(d: int, p: int, le: int) -> int {
    mul_fp_spec(K1 as int, cbrt_fp_spec(d)) + mul_fp_spec(K1 as int, sqrt_fp_spec(le))
        + mul_fp_spec(K2 as int, cbrt_fp_spec(mul_fp_spec(p, p)))
}

/// The allowance `es`: `0.3 T` for classes 1A and 2A, zero for class 3A.
pub open spec fn allowance_spec(d: int, p: int, class: ThreadClass, le: int) -> int {
    match class {
        ThreadClass::A1 => mul_fp_spec(ALLOW_FACTOR as int, base_tolerance_spec(d, p, le)),
        ThreadClass::A2 => mul_fp_spec(ALLOW_FACTOR as int, base_tolerance_spec(d, p, le)),
        ThreadClass::A3 => 0,
    }
}

/// The major-diameter tolerance `Td`: `0.3 T` for class 1A, and the
/// pitch-only `0.06 cbrt(P^2)` for classes 2A and 3A.
pub open spec fn major_tolerance_spec(d: int, p: int, class: ThreadClass, le: int) -> int {
    match class {
        ThreadClass::A1 => mul_fp_spec(TD_A1_FACTOR as int, base_tolerance_spec(d, p, le)),
        ThreadClass::A2 => mul_fp_spec(TD_A23_FACTOR as int, cbrt_fp_spec(mul_fp_spec(p, p))),
        ThreadClass::A3 => mul_fp_spec(TD_A23_FACTOR as int, cbrt_fp_spec(mul_fp_spec(p, p))),
    }
}

/// The pitch-diameter tolerance `Td2`: `1.5 T`, `T`, or `0.75 T` by class.
pub open spec fn pitch_tolerance_spec(d: int, p: int, class: ThreadClass, le: int) -> int {
    match class {
        ThreadClass::A1 => mul_fp_spec(TD2_A1_FACTOR as int, base_tolerance_spec(d, p, le)),
        ThreadClass::A2 => base_tolerance_spec(d, p, le),
        ThreadClass::A3 => mul_fp_spec(TD2_A3_FACTOR as int, base_tolerance_spec(d, p, le)),
    }
}

/// Compute the base tolerance from which the diameter tolerances derive.
fn calc_uts_base_tolerance(d: i64, p: i64, le: i64) -> (t: i64)
    requires
        0 <= d <= MAX_DIAMETER,
        0 <= p <= SCALE,
        0 <= le <= MAX_ENGAGEMENT,
    ensures
        t as int == base_tolerance_spec(d as int, p as int, le as int),
        0 <= t <= 50_000_000_000_000,
{
    let cd = cbrt_fp(d);
    let sl = sqrt_fp(le);
    let pp = mul_fp(p, p);
    let cp = cbrt_fp(pp);
    let t1 = mul_fp(K1, cd);
    let t2 = mul_fp(K1, sl);
    let t3 = mul_fp(K2, cp);
    t1 + t2 + t3
}

/// Compute the UTS external-thread allowance `es` for the given nominal
/// diameter, pitch, fit class, and length of engagement (five pitches when
/// not supplied). Class 3A has no allowance and yields exactly zero.
pub fn calc_uts_allowance(d: i64, p: i64, class: &ThreadClass, le: Option<i64>) -> (es: i64)
    requires
        0 <= d <= MAX_DIAMETER,
        0 <= p <= SCALE,
        0 <= le_or_default_spec(le, p as int) <= MAX_ENGAGEMENT,
    ensures
        es as int == allowance_spec(d as int, p as int, *class, le_or_default_spec(le, p as int)),
        0 <= es <= 50_000_000_000_000,
        *class == ThreadClass::A3 ==> es == 0,
{
    let le_v = match le {
        Some(l) => l,
        None => 5 * p,
    };
    let n = match class {
        ThreadClass::A1 | ThreadClass::A2 => ALLOW_FACTOR,
        ThreadClass::A3 => {
            return 0;
        },
    };
    let t = calc_uts_base_tolerance(d, p, le_v);
    mul_fp(n, t)
}

/// Compute the base, major-diameter and pitch-diameter tolerances.
fn calc_uts_extern_tolerances(d: i64, p: i64, class: &ThreadClass, le: i64) -> (r: (i64, i64, i64))
    requires
        0 <= d <= MAX_DIAMETER,
        0 <= p <= SCALE,
        0 <= le <= MAX_ENGAGEMENT,
    ensures
        r.0 as int == base_tolerance_spec(d as int, p as int, le as int),
        r.1 as int == major_tolerance_spec(d as int, p as int, *class, le as int),
        r.2 as int == pitch_tolerance_spec(d as int, p as int, *class, le as int),
        0 <= r.0 <= 50_000_000_000_000,
        0 <= r.1 <= 200_000_000_000_000,
        0 <= r.2 <= 200_000_000_000_000,
{
    let t = calc_uts_base_tolerance(d, p, le);
    let td = match class {
        ThreadClass::A1 => mul_fp(TD_A1_FACTOR, t),
        ThreadClass::A2 | ThreadClass::A3 => mul_fp(TD_A23_FACTOR, cbrt_fp(mul_fp(p, p))),
    };
    let td2 = match class {
        ThreadClass::A1 => mul_fp(TD2_A1_FACTOR, t),
        ThreadClass::A2 => t,
        ThreadClass::A3 => mul_fp(TD2_A3_FACTOR, t),
    };
    (t, td, td2)
}

/// The properties of one unified external thread calculation: pitch,
/// diameters with their minima and maxima, tolerances, triangle height,
/// allowance, and length of engagement.
#[derive(Clone, Copy, Debug, PartialEq, Eq, Structural)]
pub struct UnifiedThreadCalc {
    /// Pitch.
    pub p: i64,
    /// Minimum major diameter.
    pub d_min: i64,
    /// Maximum major diameter.
    pub d_max: i64,
    /// Minor diameter.
    pub d1: i64,
    /// External pitch diameter.
    pub d2: i64,
    /// Minimum pitch diameter.
    pub d2_min: i64,
    /// Maximum pitch diameter.
    pub d2_max: i64,
    /// Height of the fundamental triangle.
    pub h: i64,
    /// Allowance.
    pub es: i64,
    /// Base tolerance.
    pub t: i64,
    /// Major-diameter tolerance.
    pub td: i64,
    /// Pitch-diameter tolerance.
    pub td2: i64,
    /// Length of engagement.
    pub le: i64,
    /// Maximum external UNR diameter.
    pub d_unr_max: i64,
    /// Maximum external UN diameter.
    pub d_un_max: i64,
    /// External thread addendum.
    pub h_as: i64,
}

/// The engagement-length multiple actually used: the given one, or nine.
pub open spec fn le_mult_spec(le: Option<u32>) -> int {
    match le {
        Some(m) => m as int,
        None => 9,
    }
}

/// Every field of `r` as the thread formulas derive it from a nominal
/// diameter `d`, `tpi` threads per inch, a fit class, and an engagement
/// length of `le_mult` pitches.
pub open spec fn thread_calc_matches(r: UnifiedThreadCalc, d: int, tpi: int, class: ThreadClass, le_mult: int) -> bool {
    let p = div_round_spec(SCALE as int, tpi);
    let le = le_mult * p;
    let es = allowance_spec(d, p, class, le);
    let td = major_tolerance_spec(d, p, class, le);
    let td2 = pitch_tolerance_spec(d, p, class, le);
    let h = mul_fp_spec(H_FACTOR as int, p);
    let d_max = d - es;
    let d2 = d - 2 * mul_fp_spec(EIGHTH_3 as int, h);
    let d2_max = d2 - es;
    let d_bsc_min = d - 2 * mul_fp_spec(EIGHTH_5 as int, h);
    &&& r.p == p
    &&& r.le == le
    &&& r.es == es
    &&& r.t == base_tolerance_spec(d, p, le)
    &&& r.td == td
    &&& r.td2 == td2
    &&& r.h == h
    &&& r.d_max == d_max
    &&& r.d_min == d_max - td
    &&& r.d2 == d2
    &&& r.d2_max == d2_max
    &&& r.d2_min == d2_max - td2
    &&& r.d1 == (match class {
        ThreadClass::A1 => d_bsc_min - es,
        ThreadClass::A2 => d_bsc_min - es,
        ThreadClass::A3 => d_bsc_min,
    })
    &&& r.d_unr_max == mul_fp_spec(UNR_FACTOR as int, p)
    &&& r.d_un_max == mul_fp_spec(UN_FACTOR as int, p)
    &&& r.h_as == mul_fp_spec(ADDENDUM_FACTOR as int, p)
}

/// Compute the full set of UTS external-thread dimensions for a nominal
/// diameter, threads per inch, fit class, and engagement length given as a
/// multiple of the pitch (nine pitches when not supplied). The tolerances
/// are non-negative by construction, so each minimum diameter is at most its
/// maximum.
pub fn calc_uts_extern_thread(d: i64, tpi: u32, class: &ThreadClass, le: Option<u32>) -> (r: UnifiedThreadCalc)
    requires
        0 <= d <= MAX_DIAMETER,
        1 <= tpi,
        le_mult_spec(le) <= 1000,
    ensures
        thread_calc_matches(r, d as int, tpi as int, *class, le_mult_spec(le)),
        r.d_min <= r.d_max,
        r.d2_min <= r.d2_max,
        *class == ThreadClass::A3 ==> r.es == 0,
{
    let p = div_round(SCALE, tpi as i64);
    let le_m: u32 = match le {
        Some(m) => m,
        None => 9,
    };
    proof {
        assert(0 <= (le_m as int) * (p as int) <= 1_000_000_000_000_000int) by (nonlinear_arith)
            requires
                0 <= le_m <= 1000u32,
                0 <= p <= 1_000_000_000_000i64,
        ;
    }
    let le_v = (le_m as i64) * p;
    let es = calc_uts_allowance(d, p, class, Some(le_v));
    let d_max = d - es;
    let (t, td, td2) = calc_uts_extern_tolerances(d, p, class, le_v);
    let d_min = d_max - td;
    let h = mul_fp(H_FACTOR, p);
    let d2 = d - 2 * mul_fp(EIGHTH_3, h);
    let d2_max = d2 - es;
    let d2_min = d2_max - td2;
    let d_bsc_min = d - 2 * mul_fp(EIGHTH_5, h);
    let d1 = match class {
        ThreadClass::A1 | ThreadClass::A2 => d_bsc_min - es,
        ThreadClass::A3 => d_bsc_min,
    };
    UnifiedThreadCalc {
        p,
        le: le_v,
        es,
        d_min,
        d_max,
        t,
        td,
        td2,
        d2,
        d2_min,
        d2_max,
        h,
        d1,
        d_unr_max: mul_fp(UNR_FACTOR, p),
        d_un_max: mul_fp(UN_FACTOR, p),
        h_as: mul_fp(ADDENDUM_FACTOR, p),
    }
}

/// The allowance is a function of its inputs: two results for the same
/// diameter, pitch, class and engagement length are equal.
pub proof fn lemma_allowance_deterministic(es1: int, es2: int, d: int, p: int, class: ThreadClass, le: int)
    requires
        es1 == allowance_spec(d, p, class, le),
        es2 == allowance_spec(d, p, class, le),
    ensures
        es1 == es2,
{
}

/// The thread calculation is a function of its inputs: two results that both
/// match the same diameter, threads per inch, class and engagement multiple
/// are equal in every field.
pub proof fn lemma_extern_thread_deterministic(r1: UnifiedThreadCalc, r2: UnifiedThreadCalc, d: int, tpi: int, class: ThreadClass, le_mult: int)
    requires
        thread_calc_matches(r1, d, tpi, class, le_mult),
        thread_calc_matches(r2, d, tpi, class, le_mult),
    ensures
        r1 == r2,
{
}

} // verus!
