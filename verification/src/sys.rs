//! What this library takes from the C library bindings: wait-status decoding,
//! and the signal and tracer constants.
//!
//! Nothing in this module is proved. Each item states what the named outside
//! item computes, and the rest of the library is verified against these
//! statements. The numbers are those of Linux on x86-64 and on AArch64, the
//! two architectures whose registers this library knows.

use vstd::prelude::*;

verus! {

/// `libc::WIFSTOPPED`: the low byte of a wait status is `0x7f` exactly when the
/// process is stopped.
pub assume_specification[ libc::WIFSTOPPED ](status: libc::c_int) -> (r: bool)
    ensures
        r == ((status & 0xff) == 0x7f),
;

/// `libc::WSTOPSIG`: the second byte of a wait status, which names the signal
/// that stopped the process.
pub assume_specification[ libc::WSTOPSIG ](status: libc::c_int) -> (r: libc::c_int)
    ensures
        r == ((status >> 8) & 0xff),
;

/// `libc::WIFEXITED`: the low seven bits of a wait status are zero exactly when
/// the process exited normally.
pub assume_specification[ libc::WIFEXITED ](status: libc::c_int) -> (r: bool)
    ensures
        r == ((status & 0x7f) == 0),
;

/// `libc::WIFSIGNALED`: the process was ended by a signal exactly when the low
/// seven bits of the wait status are neither zero (a normal exit) nor `0x7f`
/// (a stop). The outside function computes this as "one more than the low
/// seven bits, read as a signed byte, is at least two".
pub assume_specification[ libc::WIFSIGNALED ](status: libc::c_int) -> (r: bool)
    ensures
        r == ((status & 0x7f) != 0 && (status & 0x7f) != 0x7f),
;

/// `libc::SIGTRAP`, the signal of a tracer stop.
#[verifier::external_body]
pub(crate) fn sigtrap() -> (r: i32)
    ensures
        r == 5,
{
    libc::SIGTRAP
}

/// `libc::SIGKILL`, the signal that ends a process unconditionally.
#[verifier::external_body]
pub(crate) fn sigkill() -> (r: i32)
    ensures
        r == 9,
{
    libc::SIGKILL
}

/// `libc::SIGSTOP`, the signal with which the tracee reports that it is ready.
#[verifier::external_body]
pub(crate) fn sigstop() -> (r: i32)
    ensures
        r == 19,
{
    libc::SIGSTOP
}

/// `libc::ECHILD`, the error code of a wait on a process that is gone.
#[verifier::external_body]
pub(crate) fn echild() -> (r: i32)
    ensures
        r == 10,
{
    libc::ECHILD
}

/// `libc::PTRACE_EVENT_SECCOMP`, the event code of a stop that a filter rule
/// asked for.
#[verifier::external_body]
pub(crate) fn ptrace_event_seccomp() -> (r: i32)
    ensures
        r == 7,
{
    libc::PTRACE_EVENT_SECCOMP
}

/// `libc::PTRACE_O_TRACESECCOMP`, the tracer option that turns filter traps
/// into stops.
#[verifier::external_body]
pub(crate) fn ptrace_o_traceseccomp() -> (r: i32)
    ensures
        r == 0x80,
{
    libc::PTRACE_O_TRACESECCOMP
}

/// `libc::PTRACE_O_TRACESYSGOOD`, the tracer option that marks system call
/// stops with bit 7 of the stop signal.
#[verifier::external_body]
pub(crate) fn ptrace_o_tracesysgood() -> (r: i32)
    ensures
        r == 1,
{
    libc::PTRACE_O_TRACESYSGOOD
}

} // verus!
