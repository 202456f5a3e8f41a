use vstd::prelude::*;
use std::time::{Duration, Instant};

verus! {

#[verifier::external_type_specification]
#[verifier::external_body]
pub struct ExInstant(Instant);

/// `Instant::now`: the current instant of the monotonic clock. Nothing is
/// stated of its value, which depends on when it is called.
#[verifier::external_body]
pub(crate) fn instant_now() -> (now: Instant) {
    Instant::now()
}

/// `Instant::elapsed`: the time passed since `earlier`. Nothing is stated of
/// its value, which depends on when it is called.
#[verifier::external_body]
pub(crate) fn elapsed_since(earlier: &Instant) -> (elapsed: Duration) {
    earlier.elapsed()
}

/// `Instant::checked_add`: `instant` moved `seconds` into the future, or
/// `None` where the platform cannot represent that instant. Nothing more is
/// stated, since instants are opaque.
#[verifier::external_body]
pub(crate) fn instant_after_seconds(instant: &Instant, seconds: u64) -> (later: Option<Instant>) {
    instant.checked_add(Duration::from_secs(seconds))
}

/// `Instant::ge`: whether `instant` is not earlier than `other`. Nothing is
/// stated of the result, since instants are opaque.
#[verifier::external_body]
pub(crate) fn instant_ge(instant: &Instant, other: &Instant) -> (r: bool) {
    instant.ge(other)
}

/// `Instant::duration_since` in whole seconds (`Duration::as_secs`): how long
/// after `earlier` the instant `instant` lies, rounded down, and 0 when it
/// lies before. Nothing is stated of the value, since instants are opaque.
#[verifier::external_body]
pub(crate) fn seconds_since(instant: &Instant, earlier: &Instant) -> (seconds: u64) {
    instant.duration_since(*earlier).as_secs()
}

/// A point in time.
#[derive(Clone, Copy, Debug)]
pub struct Time(pub Instant);

impl Time {
    /// The current time.
    pub fn now() -> Time {
        Time(instant_now())
    }
}

} // verus!
