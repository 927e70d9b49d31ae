//! The monotonic clock behind the frame-rate throttle.
//!
//! The canvas stores the instant of its last presentation and asks
//! how much time has passed since. Both operations come from the
//! standard library and are taken on trust: nothing can be promised
//! of a reading of the clock, so the canvas states what holds of its
//! buffer whatever the clock returns.

use vstd::prelude::*;

verus! {

/// Declares the standard library's opaque monotonic timestamp so
/// that it can sit in a field; nothing is known of its inside.
#[verifier::external_type_specification]
#[verifier::external_body]
pub struct ExInstant(std::time::Instant);

/// Relies on `std::time::Instant::now`: an opaque reading of the
/// monotonic clock, about which nothing is promised.
#[verifier::external_body]
pub fn instant_now() -> std::time::Instant {
    std::time::Instant::now()
}

/// Relies on `std::time::Instant::elapsed`: the microseconds that
/// passed since `earlier`, a quantity that depends on the clock, so
/// nothing is promised of it.
#[verifier::external_body]
pub fn micros_since(earlier: &std::time::Instant) -> u64 {
    earlier.elapsed().as_micros() as u64
}

} // verus!
