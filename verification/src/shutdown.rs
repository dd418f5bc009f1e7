//! The shutdown operation: decide, from the running platform, whether an
//! immediate power-off request may be issued and exactly which command
//! carries it, and translate the launch outcome into the facade's uniform
//! result. The decision is pure: on an unsupported platform it refuses
//! before any operating-system call is planned, and the caller who performs
//! the launch hands the outcome back to be classified. The launch itself is
//! fire-and-forget: success means the request was handed to the operating
//! system, not that the machine has powered off.

use vstd::prelude::*;

use crate::outcome::SystemControlError;

verus! {

/// The platforms the facade distinguishes: the one with an implemented
/// shutdown path, and every other.
#[derive(Clone, Copy, Debug, PartialEq, Eq, Structural)]
pub enum Platform {
    Windows,
    Unsupported,
}

/// A command line for the platform's privileged shutdown facility, to be
/// launched detached by the caller.
#[derive(Clone, Debug, PartialEq, Eq)]
pub struct ShutdownCommand {
    /// The program to launch.
    pub program: String,
    /// Its arguments, in order.
    pub args: Vec<String>,
}

/// What a shutdown request must do on a given platform.
#[derive(Debug, PartialEq, Eq)]
pub enum ShutdownPlan {
    /// Launch this command, detached, and do not wait for the machine to
    /// power off.
    Spawn(ShutdownCommand),
    /// Make no operating-system call; report this failure.
    Refuse(SystemControlError),
}

/// Decide what a shutdown request does on `platform`. On the supported
/// platform the plan is to launch its shutdown facility for an immediate,
/// unconditional power-off; on every other platform the plan refuses with
/// `UnsupportedPlatform` and plans no operating-system call at all.
pub fn plan_shutdown(platform: Platform) -> (r: ShutdownPlan)
    ensures
        platform is Windows ==> (r matches ShutdownPlan::Spawn(c)
            && c.program@ == "shutdown"@
            && c.args@.len() == 3
            && c.args@[0]@ == "/s"@
            && c.args@[1]@ == "/t"@
            && c.args@[2]@ == "0"@),
        platform is Unsupported ==> r == ShutdownPlan::Refuse(
            SystemControlError::UnsupportedPlatform,
        ),
{
    match platform {
        Platform::Windows => {
            let mut args: Vec<String> = Vec::new();
            args.push(String::from_str("/s"));
            args.push(String::from_str("/t"));
            args.push(String::from_str("0"));
            ShutdownPlan::Spawn(ShutdownCommand {
                program: String::from_str("shutdown"),
                args,
            })
        },
        Platform::Unsupported => ShutdownPlan::Refuse(SystemControlError::UnsupportedPlatform),
    }
}

/// Translate the outcome of launching a planned shutdown command into the
/// facade's uniform result: a successful launch is plain success, and a
/// failed one becomes the `ShutdownSpawnFailure` arm carrying the
/// underlying message verbatim.
pub fn shutdown_outcome(raw: Result<(), String>) -> (r: Result<(), SystemControlError>)
    ensures
        (raw matches Ok(u) ==> r == Ok::<(), SystemControlError>(u)),
        (raw matches Err(m) ==> r == Err::<(), SystemControlError>(
            SystemControlError::ShutdownSpawnFailure(m),
        )),
{
    match raw {
        Ok(u) => Ok(u),
        Err(m) => Err(SystemControlError::ShutdownSpawnFailure(m)),
    }
}

} // verus!
