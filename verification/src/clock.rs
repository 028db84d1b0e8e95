//! The time source. The engine asks a `Clock` for the current unix
//! seconds at each decision point, so runs can be driven by the system
//! clock or, in tests, by a fixed one.

use vstd::prelude::*;

verus! {

/// A source of the current time, in unix seconds.
pub trait Clock {
    /// The current time. Nothing is promised of the value: every decision
    /// downstream is specified for whatever instant comes back.
    fn now_seconds(&mut self) -> i64;
}

/// Relies on std::time::SystemTime::now, read as unix seconds. Nothing is
/// promised of the value. The body is total: a system clock before the
/// epoch yields negated seconds, and out-of-range durations clamp.
#[verifier::external_body]
fn system_now_seconds() -> i64 {
    match std::time::SystemTime::now().duration_since(std::time::UNIX_EPOCH) {
        Ok(since) => i64::try_from(since.as_secs()).unwrap_or(i64::MAX),
        Err(before) => i64::try_from(before.duration().as_secs())
            .map(|s| s.saturating_neg())
            .unwrap_or(i64::MIN),
    }
}

/// The system clock.
pub struct SystemClock;

impl Clock for SystemClock {
    fn now_seconds(&mut self) -> i64 {
        system_now_seconds()
    }
}

} // verus!
