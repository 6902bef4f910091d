//! Precision helper shared by callers that compare values at a fixed number
//! of decimal digits.

use vstd::prelude::*;
use crate::math::round;
use crate::math::round_to_spec;

verus! {

/// Round a fixed-point value to `n` decimal digits, half away from zero.
/// Same operation as `math::round`, kept under the name its callers use.
pub fn truncate_float(f: i64, n: u32) -> (r: i64)
    requires
        -4_000_000_000_000_000_000 <= f <= 4_000_000_000_000_000_000,
    ensures
        r as int == round_to_spec(f as int, n as int),
{
    round(f, n)
}

} // verus!
