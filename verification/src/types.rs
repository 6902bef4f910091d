//! Value types produced by the layout generators.

use vstd::prelude::*;

verus! {

/// A generated point, in fixed-point units of `fixed::SCALE`.
///
/// `z` is reserved for a later 3D extension and is never set by the current
/// generators; `angle` is set (in fixed-point degrees) by the bolt-circle
/// generator only.
#[derive(Clone, Copy, Debug, PartialEq, Eq)]
pub struct Coord {
    pub x: i64,
    pub y: i64,
    pub z: Option<i64>,
    pub angle: Option<i64>,
}

} // verus!
