//! The uniform failure type of the facade. Every failure an operation can
//! signal is one of these variants, and each renders to a human-readable
//! message string for the caller; no failure is ever dropped or panicked.

use vstd::prelude::*;

verus! {

/// A failure signalled by one of the facade's operations.
#[derive(Clone, Debug, PartialEq, Eq)]
pub enum SystemControlError {
    /// The operating system's idle-time facility could not be read; carries
    /// the stringified underlying cause.
    IdleQueryFailure(String),
    /// The requested privileged action has no implementation on the running
    /// platform; returned before any operating-system call is attempted.
    UnsupportedPlatform,
    /// The platform is capable, but launching the privileged call itself
    /// failed; carries the stringified underlying cause.
    ShutdownSpawnFailure(String),
}

impl SystemControlError {
    /// The human-readable message this failure renders to.
    pub open spec fn message_spec(self) -> Seq<char> {
        match self {
            SystemControlError::IdleQueryFailure(m) => m@,
            SystemControlError::UnsupportedPlatform => "Shutdown is only supported on Windows"@,
            SystemControlError::ShutdownSpawnFailure(m) => m@,
        }
    }

    /// Render the failure as a plain message string.
    pub fn message(&self) -> (r: String)
        ensures
            r@ == self.message_spec(),
    {
        match self {
            SystemControlError::IdleQueryFailure(m) => m.clone(),
            SystemControlError::UnsupportedPlatform => String::from_str(
                "Shutdown is only supported on Windows",
            ),
            SystemControlError::ShutdownSpawnFailure(m) => m.clone(),
        }
    }
}

} // verus!
