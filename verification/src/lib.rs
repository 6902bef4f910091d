//! Geometry layout and Unified Thread Standard (UTS) dimensioning library.
//!
//! All quantities are carried in fixed-point form: an `i64` holds a value in
//! units of one trillionth (twelve decimal digits of fraction), so `1` inch or
//! degree is `SCALE`. The fixed-point core, the layout generators, and the
//! thread-tolerance calculator are verified; callers that prefer `f64` can
//! convert at the boundary.

pub mod fixed;
pub mod layout;
pub mod math;
pub mod threading;
pub mod types;
pub mod util;
