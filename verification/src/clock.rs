//! Access to the monotonic clock.
//!
//! Elapsed times are read here and handed, as plain nanosecond counts, to
//! verified functions that decide what to do with them.

use std::time::Instant;
use vstd::prelude::*;

verus! {

/// `std::time::Instant`, carried through the library as an opaque value.
#[verifier::external_type_specification]
#[verifier::external_body]
pub struct ExInstant(Instant);

/// `Instant::clone`.
///
/// Trusted: `Instant` is `Copy`, so a clone is the same instant.
pub assume_specification[ <Instant as Clone>::clone ](i: &Instant) -> (r: Instant)
    ensures
        r == *i,
;

/// The current instant (`Instant::now`).
///
/// Trusted: nothing is promised of the value; it depends on the clock.
#[verifier::external_body]
pub(crate) fn instant_now() -> Instant {
    Instant::now()
}

/// Nanoseconds elapsed since `start` (`Instant::elapsed`, read as nanoseconds).
///
/// Trusted: nothing is promised of the value; it depends on the clock.
#[verifier::external_body]
pub(crate) fn nanos_since(start: &Instant) -> u128 {
    start.elapsed().as_nanos()
}

} // verus!
