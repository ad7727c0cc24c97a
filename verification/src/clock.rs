//! Trusted boundary to the platform's monotonic clock.
//!
//! The `instant` crate supplies the timestamp type (on native targets it is
//! `std::time::Instant`); readings are opaque here, and nothing is assumed
//! about how far apart two readings lie.

use vstd::prelude::*;

verus! {

/// Relies on the `instant` crate's `Instant` (`std::time::Instant` on
/// native targets): an opaque reading of the monotonic clock.
#[verifier::external_type_specification]
#[verifier::external_body]
pub struct ExInstant(instant::Instant);

/// Relies on `instant::Instant::now`: reads the monotonic clock. The result
/// depends on when the call happens, so nothing is stated about it.
#[verifier::external_body]
pub(crate) fn monotonic_now() -> (r: instant::Instant) {
    instant::Instant::now()
}

/// Relies on `instant::Instant::elapsed`: milliseconds between `since` and
/// now, saturating at zero if the clock reads earlier than `since`. The
/// result depends on when the call happens, so nothing is stated about it.
#[verifier::external_body]
pub(crate) fn millis_elapsed(since: &instant::Instant) -> (r: u128) {
    since.elapsed().as_millis()
}

} // verus!
