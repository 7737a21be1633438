//! Translation of a child's termination outcome into the wrapper's exit code.

use vstd::prelude::*;

verus! {

/// How the awaited child ended: a normal exit carrying a code, termination
/// by a signal carrying the signal number, or neither (an anomalous outcome
/// that the operating system can in principle report).
#[derive(Clone, Copy, Debug, PartialEq, Eq, Structural)]
pub enum Termination {
    Exited(i32),
    Signaled(i32),
    Unknown,
}

/// The wrapper's exit code for a given termination outcome: a normal exit is
/// mirrored unchanged, termination by signal `s` becomes `127 + s`, and the
/// anomalous outcome becomes `127`.
pub open spec fn exit_code_spec(t: Termination) -> int {
    match t {
        Termination::Exited(c) => c as int,
        Termination::Signaled(s) => 127 + s as int,
        Termination::Unknown => 127,
    }
}

/// How the raw pair reported by the operating system for an awaited child
/// (its exit code, if any; the terminating signal, if any) is classified:
/// an exit code takes precedence, then a signal, then neither.
pub open spec fn classify_spec(code: Option<i32>, signal: Option<i32>) -> Termination {
    match code {
        Some(c) => Termination::Exited(c),
        None => match signal {
            Some(s) => Termination::Signaled(s),
            None => Termination::Unknown,
        },
    }
}

/// Tags the raw (exit code, signal) pair of an awaited child.
pub fn classify(code: Option<i32>, signal: Option<i32>) -> (t: Termination)
    ensures
        t == classify_spec(code, signal),
{
    match code {
        Some(c) => Termination::Exited(c),
        None => match signal {
            Some(s) => Termination::Signaled(s),
            None => Termination::Unknown,
        },
    }
}

/// The wrapper's exit code for a tagged termination outcome.
pub fn exit_code(t: Termination) -> (ec: i32)
    requires
        t matches Termination::Signaled(s) ==> s <= i32::MAX - 127,
    ensures
        ec as int == exit_code_spec(t),
{
    match t {
        Termination::Exited(c) => c,
        Termination::Signaled(s) => 127 + s,
        Termination::Unknown => 127,
    }
}

/// The wrapper's exit code, straight from what the operating system reported
/// of the awaited child: its exit code, if any, and the signal that
/// terminated it, if any.
pub fn exec(code: Option<i32>, signal: Option<i32>) -> (ec: i32)
    requires
        classify_spec(code, signal) matches Termination::Signaled(s) ==> s <= i32::MAX - 127,
    ensures
        ec as int == exit_code_spec(classify_spec(code, signal)),
{
    exit_code(classify(code, signal))
}

/// The wrapper's exit code when the child could not be spawned at all: the
/// raw operating-system error number when the failure carries one, else 127.
pub open spec fn spawn_failure_code_spec(raw_os_error: Option<i32>) -> int {
    match raw_os_error {
        Some(e) => e as int,
        None => 127,
    }
}

/// Maps a spawn failure to the wrapper's exit code.
pub fn spawn_failure_exit_code(raw_os_error: Option<i32>) -> (ec: i32)
    ensures
        ec as int == spawn_failure_code_spec(raw_os_error),
{
    match raw_os_error {
        Some(e) => e,
        None => 127,
    }
}

/// A child that exits normally with code `c` has the wrapper itself exit
/// with `c`, whatever signal the operating system reports beside it.
pub proof fn lemma_normal_exit_is_mirrored(code: i32, signal: Option<i32>)
    requires
        0 <= code <= 255,
    ensures
        exit_code_spec(classify_spec(Some(code), signal)) == code,
{
}

/// A child terminated by signal `s` with no exit code has the wrapper exit
/// with `127 + s`.
pub proof fn lemma_signal_exit_code(s: i32)
    ensures
        exit_code_spec(classify_spec(None, Some(s))) == 127 + s,
{
}

} // verus!
