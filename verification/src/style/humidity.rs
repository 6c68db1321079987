//! Humidity comfort thresholds (percent).

use vstd::prelude::*;

verus! {

/// Too dry below this level.
pub const LOW: u8 = 30;

/// Too humid above this level.
pub const HIGH: u8 = 70;

} // verus!
