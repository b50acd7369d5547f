//! The two sides of the fork that tracing needs.

use crate::error::SeccompError;
use crate::policy::Policy;
use crate::wrapper::ForkResult;
use crate::wrapper::PtraceWrapper;
use vstd::prelude::*;

verus! {

/// Which process of the pair the caller is after the fork.
#[derive(Debug, Copy, Clone, PartialEq, Eq, Structural)]
pub enum TracingHandle {
    /// The confined process.
    Child,
    /// The supervising process.
    Parent {
        /// The process id of the confined process.
        child_pid: i32,
    },
}

impl<T, H> Policy<T, H> {
    /// Reads the outcome of the fork that splits the caller into tracee and
    /// tracer: `fork_ret` is what the fork returned in the calling process.
    ///
    /// Fails with `Fork` exactly when `fork_ret` is negative. In the child,
    /// where it is zero, the next step is to ask to be traced; in the parent
    /// it is the child's process id.
    pub fn spawn_traced(&mut self, fork_ret: i32) -> (r: Result<TracingHandle, SeccompError>)
        ensures
            *final(self) == *old(self),
            fork_ret < 0 ==> r == Err::<TracingHandle, SeccompError>(SeccompError::Fork),
            fork_ret == 0 ==> r == Ok::<TracingHandle, SeccompError>(TracingHandle::Child),
            fork_ret > 0 ==> r == Ok::<TracingHandle, SeccompError>(
                TracingHandle::Parent { child_pid: fork_ret },
            ),
    {
        let result = match PtraceWrapper::fork(fork_ret) {
            Ok(result) => result,
            Err(e) => {
                return Err(e);
            },
        };
        match result.get_process() {
            ForkResult::Child => Ok(TracingHandle::Child),
            ForkResult::Parent(pid) => Ok(TracingHandle::Parent { child_pid: *pid }),
        }
    }
}

} // verus!
