//! The idle-time operation: ask the operating system how long ago the last
//! global user-input event (keyboard or mouse) was observed, in whole
//! seconds, and translate the outcome into the facade's uniform result.

use vstd::prelude::*;

use crate::outcome::SystemControlError;

verus! {

/// Translate one raw idle-time reading into the facade's uniform outcome:
/// a successful reading passes through unchanged, and a failed one becomes
/// the `IdleQueryFailure` arm carrying the underlying message verbatim.
pub fn idle_outcome(raw: Result<u64, String>) -> (r: Result<u64, SystemControlError>)
    ensures
        (raw matches Ok(secs) ==> r == Ok::<u64, SystemControlError>(secs)),
        (raw matches Err(m) ==> r == Err::<u64, SystemControlError>(
            SystemControlError::IdleQueryFailure(m),
        )),
{
    match raw {
        Ok(secs) => Ok(secs),
        Err(m) => Err(SystemControlError::IdleQueryFailure(m)),
    }
}

/// Relies on user_idle_time::get_idle_time: asks the operating system for
/// the elapsed time since the last user-input event. A `Duration` on
/// success, converted here to whole seconds (rounding down); on failure,
/// the stringified underlying cause. The reading depends on the machine's
/// state, so nothing is promised of the value.
#[verifier::external_body]
fn os_idle_seconds() -> (r: Result<u64, String>) {
    match user_idle_time::get_idle_time() {
        Ok(d) => Ok(d.as_secs()),
        Err(e) => Err(e.to_string()),
    }
}

/// Ask the operating system how long the user has been idle, in whole
/// seconds. Whatever the platform reports, the call never panics: success
/// carries the non-negative second count, and every failure is the
/// `IdleQueryFailure` arm carrying the underlying cause.
pub fn query_idle_time() -> (r: Result<u64, SystemControlError>)
    ensures
        (r matches Err(e) ==> e is IdleQueryFailure),
{
    idle_outcome(os_idle_seconds())
}

} // verus!
