//! The errors that building and applying a policy can report.

use crate::syscall::Syscall;
use vstd::prelude::*;
use vstd::std_specs::convert::FromSpecImpl;

verus! {

/// Why an operation on the operating system's side failed.
#[derive(Debug, Clone, Copy, PartialEq, Eq, Structural)]
pub enum IoFailure {
    /// The operating system reported this error code.
    Os(i32),
    /// The tracee stopped or ended on something other than the awaited signal.
    UnexpectedSignal,
}

/// The errors of the filter compiler, of the tracer and of the policy builder.
#[derive(Debug, Clone, PartialEq, Eq)]
pub enum SeccompError {
    /// Initialising a filter failed.
    InitFailed,
    /// Adding the rule for this system call to the filter failed.
    AddRuleFailed(Syscall),
    /// No system call has this name.
    UnsupportedSyscall(String),
    /// The filter compiler returned this error code.
    LibSeccompError(i32),
    /// Loading system call metadata failed.
    MetadataError,
    /// An error of unknown cause, such as a register name that does not exist.
    Unknown,
    /// Creating the filter context failed.
    InitContextFailed,
    /// The policy holds no filter context: it was applied before.
    EmptyContext,
    /// Loading the filter into the kernel failed.
    LoadError,
    /// `deny` was asked for while the default already denies.
    RedundantDenyRule(Syscall),
    /// `allow` was asked for while the default already allows.
    RedundantAllowRule(Syscall),
    /// Setting the tracer options for this tracee failed with this error code.
    PtraceOptionsSet(i32, i32),
    /// Arming tracing for this process failed with this error code.
    PtraceSyscall(i32, i32),
    /// Creating the tracee process failed.
    Fork,
    /// An operation on the tracee failed.
    IO(IoFailure),
    /// No system call has this number.
    UnsupportedSyscallID(i32),
}

impl From<IoFailure> for SeccompError {
    /// A failed operation on the tracee, as an error of the library.
    fn from(failure: IoFailure) -> (e: SeccompError) {
        SeccompError::IO(failure)
    }
}

impl FromSpecImpl<IoFailure> for SeccompError {
    open spec fn obeys_from_spec() -> bool {
        true
    }

    open spec fn from_spec(failure: IoFailure) -> SeccompError {
        SeccompError::IO(failure)
    }
}

} // verus!
