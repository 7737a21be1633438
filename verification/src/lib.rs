//! A process-identity wrapper library: it decides how an argument vector is
//! dispatched (help, usage error, or launching a child command), and how a
//! child's termination outcome is translated into the wrapper's own exit code.
//!
//! The wrapper consumes a leading uniqueness token so that concurrent
//! invocations of the same command differ in their visible command line; the
//! token is never passed to the child. Spawning and waiting are the caller's
//! business; this library holds the decisions and the exit-code arithmetic.

pub mod cli;
pub mod outcome;
