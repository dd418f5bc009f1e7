//! The uptime operation: the current wall-clock time minus a fixed
//! reference instant, in whole seconds. The reference is chosen once by the
//! caller as a count of whole seconds since the Unix epoch (the instant the
//! process started, or zero for time since the epoch itself), so the same
//! arithmetic serves either reading of "uptime". A clock that reads earlier
//! than the reference is reported as absence, never as a panic or a
//! negative count.

use vstd::prelude::*;

verus! {

/// The uptime that a clock reading `now` yields against `reference`, both
/// in whole seconds since the Unix epoch: their difference, or nothing when
/// the clock reads earlier than the reference.
pub open spec fn uptime_spec(now: u64, reference: u64) -> Option<u64> {
    if now >= reference {
        Some((now - reference) as u64)
    } else {
        None
    }
}

/// Whole seconds elapsed from `reference` to the clock reading `now`.
/// Exactly when the clock has not fallen behind the reference, the count
/// exists, and it is their difference — never negative.
pub fn uptime_since(now: u64, reference: u64) -> (r: Option<u64>)
    ensures
        r == uptime_spec(now, reference),
{
    if now >= reference {
        Some(now - reference)
    } else {
        None
    }
}

/// With a fixed reference, uptime never runs backwards: a later clock
/// reading yields a count at least as large, so two successive queries
/// under normal clock conditions are non-decreasing.
pub proof fn lemma_uptime_monotonic(reference: u64, first: u64, second: u64)
    requires
        reference <= first,
        first <= second,
    ensures
        uptime_spec(first, reference) is Some,
        uptime_spec(second, reference) is Some,
        uptime_spec(first, reference).unwrap() <= uptime_spec(second, reference).unwrap(),
{
}

#[verifier::external_type_specification]
#[verifier::external_body]
pub struct ExSystemTime(std::time::SystemTime);

/// Relies on std::time::SystemTime::now: the current wall-clock instant.
/// The reading depends on the machine's clock, so nothing is promised of
/// it.
#[verifier::external_body]
fn clock_now() -> (t: std::time::SystemTime) {
    std::time::SystemTime::now()
}

/// Relies on std::time::SystemTime::duration_since, measured against the
/// fixed reference std::time::UNIX_EPOCH: whole seconds from the epoch to
/// `t` (rounding down) on success, and the stringified error when `t` is
/// earlier than the epoch.
#[verifier::external_body]
fn seconds_since_epoch(t: std::time::SystemTime) -> (r: Result<u64, String>) {
    match t.duration_since(std::time::UNIX_EPOCH) {
        Ok(d) => Ok(d.as_secs()),
        Err(e) => Err(e.to_string()),
    }
}

/// Read the wall clock and return the whole seconds elapsed since
/// `reference` (itself whole seconds since the Unix epoch). Whatever the
/// clock reports, the call never panics and never yields a negative count:
/// when the clock reads earlier than the reference — or earlier than the
/// epoch — the count is absent.
pub fn query_uptime(reference: u64) -> (r: Option<u64>)
    ensures
        (r matches Some(secs) ==> secs + reference <= u64::MAX),
{
    match seconds_since_epoch(clock_now()) {
        Ok(now) => uptime_since(now, reference),
        Err(_) => None,
    }
}

} // verus!
