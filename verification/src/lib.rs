//! A small system-control facade: query how long the user has been idle,
//! query wall-clock uptime against a fixed reference instant, format a
//! greeting, and plan an operating-system shutdown request. Every operation
//! translates its outcome into a uniform success/failure result and never
//! panics; platform-dependent decisions are made from an explicit
//! [`Platform`] value chosen once by the caller, so tests can exercise any
//! platform's behaviour.

mod greet;
mod idle;
mod outcome;
mod shutdown;
mod uptime;

pub use greet::greet;
pub use greet::greet_spec;
pub use greet::lemma_greet_contains_name;
pub use idle::idle_outcome;
pub use idle::query_idle_time;
pub use outcome::SystemControlError;
pub use shutdown::plan_shutdown;
pub use shutdown::shutdown_outcome;
pub use shutdown::Platform;
pub use shutdown::ShutdownCommand;
pub use shutdown::ShutdownPlan;
pub use uptime::lemma_uptime_monotonic;
pub use uptime::query_uptime;
pub use uptime::uptime_since;
pub use uptime::uptime_spec;
