//! Rules for the kernel filter.

use crate::filter::RestrictFilter;
use crate::syscall::Syscall;
use crate::wrapper::Action;
use vstd::prelude::*;

verus! {

/// A rule of the kernel filter: what the kernel does with one system call.
#[derive(Debug, Clone, Copy, PartialEq, Eq, Structural)]
pub struct SeccompFilter {
    pub syscall: Syscall,
    pub action: Action,
}

impl SeccompFilter {
    /// The rule that answers `syscall` with `action`.
    pub fn new(syscall: Syscall, action: Action) -> (r: Self)
        ensures
            r == (SeccompFilter { syscall, action }),
    {
        Self { syscall, action }
    }

    /// The system call that this rule is about.
    pub fn syscall(&self) -> (s: Syscall)
        ensures
            s == self.syscall,
    {
        self.syscall
    }

    /// What the kernel does with the system call.
    pub fn action(&self) -> (a: Action)
        ensures
            a == self.action,
    {
        self.action
    }
}

impl RestrictFilter for SeccompFilter {
    open spec fn spec_apply(&self) -> SeccompFilter {
        *self
    }

    fn apply(&self) -> (rule: SeccompFilter) {
        *self
    }
}

} // verus!
