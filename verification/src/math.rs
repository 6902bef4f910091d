//! Rounding a fixed-point value to a number of decimal digits.
//!
//! `round` keeps `digits` decimal digits and rounds the rest half away from
//! zero, the convention usually wanted for display and for comparing results
//! at a stated precision. The formulas of the other modules never round; they
//! keep full fixed-point precision throughout.

use vstd::prelude::*;
use vstd::arithmetic::div_mod::lemma_fundamental_div_mod_converse;
use vstd::arithmetic::div_mod::lemma_div_pos_is_pos;

verus! {

/// Ten raised to the power `n`.
pub open spec fn pow10_spec(n: nat) -> int
    decreases n,
{
    if n == 0 {
        1
    } else {
        10 * pow10_spec((n - 1) as nat)
    }
}

/// `v` rounded to the nearest multiple of `f`, ties away from zero.
pub open spec fn round_half_spec(v: int, f: int) -> int {
    if v >= 0 {
        ((v + f / 2) / f) * f
    } else {
        -((((-v) + f / 2) / f) * f)
    }
}

/// A fixed-point value rounded to `digits` decimal digits. Beyond the twelve
/// digits the representation carries, rounding changes nothing.
pub open spec fn round_to_spec(v: int, digits: int) -> int {
    if digits >= 12 {
        v
    } else {
        round_half_spec(v, pow10_spec((12 - digits) as nat))
    }
}

/// Powers of ten are at least one.
pub proof fn lemma_pow10_pos(n: nat)
    ensures
        pow10_spec(n) >= 1,
    decreases n,
{
    if n > 0 {
        lemma_pow10_pos((n - 1) as nat);
    }
}

/// Powers of ten grow with the exponent.
pub proof fn lemma_pow10_monotonic(i: nat, j: nat)
    requires
        i <= j,
    ensures
        pow10_spec(i) <= pow10_spec(j),
    decreases j,
{
    if i < j {
        lemma_pow10_monotonic(i, (j - 1) as nat);
        lemma_pow10_pos((j - 1) as nat);
    }
}

/// The first thirteen powers of ten, written out.
pub proof fn lemma_pow10_values()
    ensures
        pow10_spec(0) == 1,
        pow10_spec(1) == 10,
        pow10_spec(2) == 100,
        pow10_spec(3) == 1000,
        pow10_spec(4) == 10_000,
        pow10_spec(5) == 100_000,
        pow10_spec(6) == 1_000_000,
        pow10_spec(7) == 10_000_000,
        pow10_spec(8) == 100_000_000,
        pow10_spec(9) == 1_000_000_000,
        pow10_spec(10) == 10_000_000_000,
        pow10_spec(11) == 100_000_000_000,
        pow10_spec(12) == 1_000_000_000_000,
{
    assert(pow10_spec(0) == 1);
    assert(pow10_spec(1) == 10);
    assert(pow10_spec(2) == 100);
    assert(pow10_spec(3) == 1000);
    assert(pow10_spec(4) == 10_000);
    assert(pow10_spec(5) == 100_000);
    assert(pow10_spec(6) == 1_000_000);
    assert(pow10_spec(7) == 10_000_000);
    assert(pow10_spec(8) == 100_000_000);
    assert(pow10_spec(9) == 1_000_000_000);
    assert(pow10_spec(10) == 10_000_000_000);
    assert(pow10_spec(11) == 100_000_000_000);
    assert(pow10_spec(12) == 1_000_000_000_000);
}

/// Ten to the power `n`, executable.
fn pow10(n: u32) -> (f: u64)
    requires
        n <= 12,
    ensures
        f as int == pow10_spec(n as nat),
        1 <= f <= 1_000_000_000_000,
{
    let mut f: u64 = 1;
    let mut i: u32 = 0;
    while i < n
        invariant
            i <= n,
            n <= 12,
            f as int == pow10_spec(i as nat),
            1 <= f <= 1_000_000_000_000,
        decreases n - i,
    {
        proof {
            lemma_pow10_monotonic(i as nat, 11);
            lemma_pow10_values();
        }
        f = f * 10;
        i = i + 1;
    }
    proof {
        lemma_pow10_monotonic(n as nat, 12);
        lemma_pow10_values();
        lemma_pow10_pos(n as nat);
    }
    f
}

/// Round a fixed-point value to `digits` decimal digits, half away from zero.
pub fn round(value: i64, digits: u32) -> (r: i64)
    requires
        -4_000_000_000_000_000_000 <= value <= 4_000_000_000_000_000_000,
    ensures
        r as int == round_to_spec(value as int, digits as int),
{
    if digits >= 12 {
        return value;
    }
    let f = pow10(12 - digits);
    let half = f / 2;
    if value >= 0 {
        let q = ((value as u64) + half) / f;
        proof {
            assert(((value + f / 2) / (f as int)) * (f as int) <= value + f / 2) by (nonlinear_arith)
                requires
                    0 <= value,
                    1 <= f,
            ;
            assert(((value + f / 2) / (f as int)) * (f as int) >= 0) by (nonlinear_arith)
                requires
                    0 <= value,
                    1 <= f,
            ;
        }
        (q * f) as i64
    } else {
        let m = (-value) as u64;
        let q = (m + half) / f;
        proof {
            assert((((m as int) + f / 2) / (f as int)) * (f as int) <= (m as int) + f / 2)
                by (nonlinear_arith)
                requires
                    1 <= f,
            ;
            assert((((m as int) + f / 2) / (f as int)) * (f as int) >= 0) by (nonlinear_arith)
                requires
                    1 <= f,
            ;
        }
        -((q * f) as i64)
    }
}

/// Rounding is a function of its inputs: two results for the same value and
/// precision are equal.
pub proof fn lemma_round_deterministic(r1: int, r2: int, v: int, digits: int)
    requires
        r1 == round_to_spec(v, digits),
        r2 == round_to_spec(v, digits),
    ensures
        r1 == r2,
{
}

/// Rounding an already rounded value at the same precision changes nothing:
/// `round` at `digits` digits is idempotent for every value and precision.
pub proof fn lemma_round_to_idempotent(v: int, digits: int)
    ensures
        round_to_spec(round_to_spec(v, digits), digits) == round_to_spec(v, digits),
{
    if digits < 12 {
        let f = pow10_spec((12 - digits) as nat);
        lemma_pow10_pos((12 - digits) as nat);
        lemma_round_half_multiple(v, f);
    }
}

/// Rounding to a multiple of `f` lands on a multiple of `f`, and a multiple of
/// `f` rounds to itself.
proof fn lemma_round_half_multiple(v: int, f: int)
    requires
        1 <= f,
    ensures
        round_half_spec(round_half_spec(v, f), f) == round_half_spec(v, f),
{
    let w = round_half_spec(v, f);
    if v >= 0 {
        let q = (v + f / 2) / f;
        lemma_div_pos_is_pos(v + f / 2, f);
        assert(w == q * f);
        assert(q * f >= 0) by (nonlinear_arith)
            requires
                q >= 0,
                f >= 1,
        ;
        lemma_fundamental_div_mod_converse(q * f + f / 2, f, q, f / 2);
        assert((q * f + f / 2) / f == q);
    } else {
        let q = ((-v) + f / 2) / f;
        lemma_div_pos_is_pos((-v) + f / 2, f);
        assert(w == -(q * f));
        assert(q * f >= 0) by (nonlinear_arith)
            requires
                q >= 0,
                f >= 1,
        ;
        lemma_fundamental_div_mod_converse(q * f + f / 2, f, q, f / 2);
        assert((q * f + f / 2) / f == q);
        if w == 0 {
            assert(round_half_spec(0, f) == (f / 2 / f) * f);
            lemma_fundamental_div_mod_converse(f / 2, f, 0, f / 2);
        }
    }
}

} // verus!
