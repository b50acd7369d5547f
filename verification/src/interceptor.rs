//! What an interceptor is handed when a system call of its kind stops the
//! tracee.

use crate::registers::RegisterWrite;
use crate::registers::Registers;
use crate::syscall::Syscall;
use vstd::prelude::*;

verus! {

/// One stop of the tracee, as an interceptor sees it: the system call, a
/// snapshot of the registers, and the tracee's process id.
///
/// The snapshot is the interceptor's own. What it changes there reaches the
/// tracee only through the write that [`Interceptor::commit_regs`] gives.
#[derive(Debug, Clone, PartialEq, Eq)]
pub struct Interceptor {
    /// The system call that stopped the tracee.
    pub syscall: Syscall,
    /// The registers of the tracee at the stop.
    pub registers: Registers,
    /// The process id of the tracee.
    pub child_pid: i32,
}

impl Interceptor {
    /// The interceptor's view of a stop of `child_pid` in the system call `sc`
    /// with the registers `regs`.
    pub fn new(sc: Syscall, regs: Registers, child_pid: i32) -> (r: Self)
        ensures
            r.syscall == sc,
            r.registers == regs,
            r.child_pid == child_pid,
    {
        Self { syscall: sc, registers: regs, child_pid }
    }

    /// The write that carries every register of the snapshot, as it is now,
    /// back into the tracee.
    pub fn commit_regs(&self) -> (w: RegisterWrite)
        ensures
            w == self.registers.spec_commit_regs(self.child_pid),
            w.child_pid == self.child_pid,
            w.registers == self.registers@,
    {
        self.registers.commit_regs(self.child_pid)
    }
}

} // verus!
