//! The fixed-point unit shared by matrix entries, vertex coordinates and
//! color channels: values are counts of millionths of a unit.

use vstd::prelude::*;

verus! {

/// One, in millionths of a unit.
pub const FIXED_ONE: i64 = 1_000_000;

/// Minus one, in millionths of a unit.
pub const FIXED_NEG_ONE: i64 = -1_000_000;

} // verus!
