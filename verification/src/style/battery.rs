//! Battery thresholds (percent).

use vstd::prelude::*;

verus! {

/// Red below this level.
pub const LOW: u8 = 20;

/// Yellow below this level; green at and above it.
pub const MEDIUM: u8 = 40;

} // verus!
