//! What the engine takes from outside: chance and the clock. Nothing is
//! promised of what they give, so nothing is proved from it.

use rand::rngs::ThreadRng;
use rand::Rng;
use std::time::{Duration, Instant};
use vstd::prelude::*;

verus! {

/// `rand::rngs::ThreadRng`, the generator of the running thread, carried
/// through unread.
#[verifier::external_type_specification]
#[verifier::external_body]
pub struct ExThreadRng(ThreadRng);

/// `std::time::Instant`, a reading of the monotonic clock, carried through
/// unread.
#[verifier::external_type_specification]
#[verifier::external_body]
pub struct ExInstant(Instant);

/// Calls `rand::thread_rng`, which hands out the generator of the running
/// thread. Nothing is claimed of it.
#[verifier::external_body]
pub(crate) fn thread_rng() -> ThreadRng {
    rand::thread_rng()
}

/// Calls `Rng::gen` for a `usize`. Every value may come back, so nothing is
/// claimed of the result.
#[verifier::external_body]
pub(crate) fn next_usize(rng: &mut ThreadRng) -> usize {
    rng.gen()
}

/// Calls `Instant::now`. Nothing is claimed of the reading.
#[verifier::external_body]
pub(crate) fn now() -> Instant {
    Instant::now()
}

/// Calls `Instant::elapsed`, the span since the reading was taken. Nothing
/// is claimed of the span.
#[verifier::external_body]
pub(crate) fn elapsed(since: &Instant) -> Duration {
    since.elapsed()
}

/// Calls `Duration::as_nanos`, the span in nanoseconds. Nothing is claimed
/// of the number.
#[verifier::external_body]
pub(crate) fn as_nanos(span: &Duration) -> u128 {
    span.as_nanos()
}

/// Calls `Duration::as_secs`, the whole seconds of the span. Nothing is
/// claimed of the number.
#[verifier::external_body]
pub(crate) fn as_secs(span: &Duration) -> u64 {
    span.as_secs()
}

} // verus!
