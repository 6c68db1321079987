//! CO2 thresholds (ppm) from indoor air-quality guidance.

use vstd::prelude::*;

verus! {

/// Green below this level.
pub const GOOD: u16 = 800;

/// Yellow below this level.
pub const MODERATE: u16 = 1000;

/// Orange below this level; red at and above it.
pub const POOR: u16 = 1500;

} // verus!
