//! Radon thresholds (Bq/m³) from EPA guidance (4 pCi/L is about 148 Bq/m³).

use vstd::prelude::*;

verus! {

/// Green below this level (about 2 pCi/L).
pub const GOOD: u32 = 74;

/// Yellow below this level (about 4 pCi/L); red at and above it.
pub const MODERATE: u32 = 148;

} // verus!
