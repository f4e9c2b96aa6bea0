//! The monotonic clock of the standard library, as far as the flag needs it.
//!
//! Everything in this file is taken on trust: the verifier reads the
//! contracts below and not the bodies.

use std::time::{Duration, Instant};
use vstd::prelude::*;

verus! {

/// `std::time::Instant`, a point on the monotonic clock. Nothing is known of
/// what a value of it holds.
#[verifier::external_type_specification]
#[verifier::external_body]
pub struct ExInstant(std::time::Instant);

/// The number of nanoseconds in a `Duration`, as `Duration::as_nanos` gives it.
pub uninterp spec fn duration_nanos(d: Duration) -> nat;

/// Calls `Instant::now`. The result is the reading of a clock, so nothing is
/// claimed of it.
#[verifier::external_body]
pub(crate) fn instant_now() -> (now: Instant) {
    Instant::now()
}

/// Calls `Instant::saturating_duration_since`, which gives the time from
/// `earlier` to `later`, and zero where `earlier` is the later of the two.
/// Instants are not modelled, so nothing is claimed of the result.
#[verifier::external_body]
pub(crate) fn duration_between(later: &Instant, earlier: &Instant) -> (d: Duration) {
    later.saturating_duration_since(*earlier)
}

/// Calls `Duration::as_nanos`: the whole length of `d` in nanoseconds.
#[verifier::external_body]
pub(crate) fn as_nanos(d: &Duration) -> (n: u128)
    ensures
        n == duration_nanos(*d),
{
    d.as_nanos()
}

} // verus!
