//! The monotonic clock of std.

use vstd::prelude::*;

verus! {

/// A reading of the monotonic clock; opaque.
#[verifier::external_type_specification]
#[verifier::external_body]
pub struct ExInstant(std::time::Instant);

/// Relies on `Instant::now`: a reading of the monotonic clock, of which nothing is known.
pub assume_specification[ std::time::Instant::now ]() -> std::time::Instant;

/// Relies on `Instant`'s `Clone`, which copies the reading (the type is `Copy`).
pub assume_specification[ <std::time::Instant as Clone>::clone ](i: &std::time::Instant) -> (r:
    std::time::Instant)
    ensures
        r == *i,
;

/// Relies on `Instant::elapsed`: the time since a reading, of which nothing is known.
pub assume_specification[ std::time::Instant::elapsed ](i: &std::time::Instant) -> std::time::Duration;

/// Relies on `Duration::as_millis`: whole milliseconds of a duration, of which nothing is known.
pub assume_specification[ std::time::Duration::as_millis ](d: &std::time::Duration) -> u128;

/// Whole milliseconds since `origin`, saturated at `u64::MAX`.
pub fn millis_since(origin: &std::time::Instant) -> u64 {
    let ms = origin.elapsed().as_millis();
    if ms > u64::MAX as u128 {
        u64::MAX
    } else {
        ms as u64
    }
}

} // verus!
