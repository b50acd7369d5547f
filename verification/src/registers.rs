//! Register snapshots of a stopped tracee.
//!
//! A [`Registers`] value owns the registers of a tracee as they were at one
//! stop. Registers are read and written by name, and the slots that the
//! system call ABI gives a meaning (the system call number, the arguments, the
//! return value) have accessors of their own. The two register layouts,
//! [`UserRegs::X86_64`] and [`UserRegs::Aarch64`], answer to the same calls.
//!
//! Changing a snapshot changes nothing in the tracee:
//! [`Registers::commit_regs`] gives the one write that carries the whole
//! snapshot back.

pub mod aarch64;
pub mod x86_64;

use crate::error::SeccompError;
use crate::registers::aarch64::Aarch64Register;
use crate::registers::aarch64::Aarch64UserRegs;
use crate::registers::x86_64::X86Register;
use crate::registers::x86_64::X86UserRegs;
use vstd::prelude::*;

verus! {

/// A raw register set, in the layout of one architecture.
#[derive(Debug, Clone, Copy, PartialEq, Eq)]
pub enum UserRegs {
    /// The registers of an x86-64 process.
    X86_64(X86UserRegs),
    /// The registers of an AArch64 process.
    Aarch64(Aarch64UserRegs),
}

/// The write that carries a whole register set back into a stopped tracee.
#[derive(Debug, Clone, Copy, PartialEq, Eq)]
pub struct RegisterWrite {
    /// The process id of the tracee.
    pub child_pid: i32,
    /// Every register of the tracee, as it is to be after the write.
    pub registers: UserRegs,
}

impl UserRegs {
    /// The value of the register that `name` names; `None` if there is no
    /// such register.
    pub open spec fn spec_get(self, name: Seq<char>) -> Option<u64> {
        match self {
            UserRegs::X86_64(regs) => match X86Register::spec_from_name(name) {
                Some(reg) => Some(regs.spec_read(reg)),
                None => None,
            },
            UserRegs::Aarch64(regs) => match Aarch64Register::spec_from_name(name) {
                Some(reg) => Some(regs.spec_read(reg)),
                None => None,
            },
        }
    }

    /// These registers with `val` in the register that `name` names; `None`
    /// if there is no such register.
    pub open spec fn spec_set(self, name: Seq<char>, val: u64) -> Option<UserRegs> {
        match self {
            UserRegs::X86_64(regs) => match X86Register::spec_from_name(name) {
                Some(reg) => Some(UserRegs::X86_64(regs.spec_write(reg, val))),
                None => None,
            },
            UserRegs::Aarch64(regs) => match Aarch64Register::spec_from_name(name) {
                Some(reg) => Some(UserRegs::Aarch64(regs.spec_write(reg, val))),
                None => None,
            },
        }
    }

    /// Whether `a` and `b` name the same register of this register set.
    pub open spec fn spec_same_register(self, a: Seq<char>, b: Seq<char>) -> bool {
        match self {
            UserRegs::X86_64(_) => X86Register::spec_from_name(a) is Some
                && X86Register::spec_from_name(a) == X86Register::spec_from_name(b),
            UserRegs::Aarch64(_) => Aarch64Register::spec_from_name(a) is Some
                && Aarch64Register::spec_from_name(a) == Aarch64Register::spec_from_name(b),
        }
    }

    /// The number of the system call that the tracee is in: `orig_rax` on
    /// x86-64, `x8` on AArch64.
    pub open spec fn spec_syscall_number(self) -> u64 {
        match self {
            UserRegs::X86_64(regs) => regs.orig_rax,
            UserRegs::Aarch64(regs) => regs.regs[8],
        }
    }

    /// The register that carries a system call's result: `rax` on x86-64,
    /// `x0` on AArch64.
    pub open spec fn spec_return_value(self) -> u64 {
        match self {
            UserRegs::X86_64(regs) => regs.rax,
            UserRegs::Aarch64(regs) => regs.regs[0],
        }
    }

    /// These registers with `val` as the system call's result.
    pub open spec fn spec_with_return_value(self, val: u64) -> UserRegs {
        match self {
            UserRegs::X86_64(regs) => UserRegs::X86_64(regs.spec_write(X86Register::Rax, val)),
            UserRegs::Aarch64(regs) => UserRegs::Aarch64(
                regs.spec_write(Aarch64Register::General(0), val),
            ),
        }
    }

    /// The system call argument in slot `index`, for the four slots 0 to 3:
    /// `rdi`, `rsi`, `rdx`, `r10` on x86-64 and `x0` to `x3` on AArch64.
    pub open spec fn spec_arg(self, index: int) -> Option<u64> {
        match self {
            UserRegs::X86_64(regs) => if index == 0 {
                Some(regs.rdi)
            } else if index == 1 {
                Some(regs.rsi)
            } else if index == 2 {
                Some(regs.rdx)
            } else if index == 3 {
                Some(regs.r10)
            } else {
                None
            },
            UserRegs::Aarch64(regs) => if 0 <= index < 4 {
                Some(regs.regs[index])
            } else {
                None
            },
        }
    }

    /// The named registers with their values, in a fixed order.
    pub open spec fn spec_as_map(self) -> Seq<(Seq<char>, u64)> {
        match self {
            UserRegs::X86_64(regs) => Seq::new(
                18,
                |i: int|
                    (
                        X86Register::spec_listed(i).spec_name(),
                        regs.spec_read(X86Register::spec_listed(i)),
                    ),
            ),
            UserRegs::Aarch64(regs) => Seq::new(
                34,
                |i: int|
                    (
                        Aarch64Register::spec_listed(i).spec_name(),
                        regs.spec_read(Aarch64Register::spec_listed(i)),
                    ),
            ),
        }
    }

    /// Every name of the listing reads the value that the listing shows
    /// beside it.
    pub proof fn lemma_listed_names_read_back(self, i: int)
        requires
            0 <= i < self.spec_as_map().len(),
        ensures
            self.spec_get(self.spec_as_map()[i].0) == Some(self.spec_as_map()[i].1),
    {
        match self {
            UserRegs::X86_64(_) => {
                X86Register::lemma_name_resolves(X86Register::spec_listed(i));
            },
            UserRegs::Aarch64(_) => {
                Aarch64Register::lemma_name_resolves(Aarch64Register::spec_listed(i));
            },
        }
    }

    /// A register can be written by a name exactly when it can be read by
    /// that name, and it then holds what was written.
    pub proof fn lemma_get_after_set(self, name: Seq<char>, val: u64)
        ensures
            self.spec_set(name, val) is Some <==> self.spec_get(name) is Some,
            self.spec_set(name, val) matches Some(after) ==> after.spec_get(name) == Some(val),
    {
        broadcast use vstd::array::axiom_spec_array_update;

    }

    /// Writing a register by name changes the value under no name but those
    /// of that register.
    pub proof fn lemma_set_keeps_others(self, name: Seq<char>, val: u64, other: Seq<char>)
        requires
            self.spec_set(name, val) is Some,
            !self.spec_same_register(name, other),
        ensures
            self.spec_set(name, val).unwrap().spec_get(other) == self.spec_get(other),
    {
        broadcast use vstd::array::axiom_spec_array_update;

    }

    /// Writing a register by name never changes the system call number on
    /// x86-64, where that number has no name.
    pub proof fn lemma_set_keeps_syscall_number(self, name: Seq<char>, val: u64)
        requires
            self is X86_64,
            self.spec_set(name, val) is Some,
        ensures
            self.spec_set(name, val).unwrap().spec_syscall_number() == self.spec_syscall_number(),
    {
    }

    /// The system call's result is what was last set as the result.
    pub proof fn lemma_return_value_after_set(self, val: u64)
        ensures
            self.spec_with_return_value(val).spec_return_value() == val,
            self.spec_with_return_value(val).spec_syscall_number() == self.spec_syscall_number(),
    {
        broadcast use vstd::array::axiom_spec_array_update;

    }
}

/// The registers of a stopped tracee at one point in time.
#[derive(Debug, Clone, PartialEq, Eq)]
pub struct Registers {
    inner: UserRegs,
}

impl View for Registers {
    type V = UserRegs;

    closed spec fn view(&self) -> UserRegs {
        self.inner
    }
}

impl Registers {
    /// The snapshot that holds `raw`.
    pub closed spec fn spec_from_raw(raw: UserRegs) -> Registers {
        Registers { inner: raw }
    }

    /// The write that carries this snapshot into the tracee `child_pid`.
    pub open spec fn spec_commit_regs(&self, child_pid: i32) -> RegisterWrite {
        RegisterWrite { child_pid, registers: self@ }
    }

    /// Wraps a raw register set.
    pub fn from_raw(raw: UserRegs) -> (r: Self)
        ensures
            r@ == raw,
            r == Registers::spec_from_raw(raw),
    {
        Registers { inner: raw }
    }

    /// The write that carries every register of this snapshot back into the
    /// tracee `child_pid`. Nothing reaches the tracee before this write is
    /// made.
    pub fn commit_regs(&self, child_pid: i32) -> (w: RegisterWrite)
        ensures
            w == self.spec_commit_regs(child_pid),
    {
        RegisterWrite { child_pid, registers: self.inner }
    }

    /// The named registers with their values, in a fixed order.
    pub fn as_map(&self) -> (r: Vec<(&'static str, u64)>)
        ensures
            r@.len() == self@.spec_as_map().len(),
            forall|i: int|
                0 <= i < r@.len() ==> ((#[trigger] r@[i]).0@, r@[i].1) == self@.spec_as_map()[i],
    {
        match &self.inner {
            UserRegs::X86_64(regs) => regs.listing(),
            UserRegs::Aarch64(regs) => regs.listing(),
        }
    }

    /// The value of the register that `reg_name` names, or `None` if there
    /// is no such register.
    pub fn get(&self, reg_name: &str) -> (r: Option<u64>)
        ensures
            r == self@.spec_get(reg_name@),
    {
        match &self.inner {
            UserRegs::X86_64(regs) => match X86Register::from_name(reg_name) {
                Some(reg) => Some(regs.read(reg)),
                None => None,
            },
            UserRegs::Aarch64(regs) => match Aarch64Register::from_name(reg_name) {
                Some(reg) => Some(regs.read(reg)),
                None => None,
            },
        }
    }

    /// Puts `val` into the register that `name` names and leaves the others
    /// unchanged. Fails with `Unknown`, changing nothing, if there is no such
    /// register.
    pub fn set(&mut self, name: &str, val: u64) -> (r: Result<(), SeccompError>)
        ensures
            match old(self)@.spec_set(name@, val) {
                Some(after) => r is Ok && final(self)@ == after,
                None => r == Err::<(), SeccompError>(SeccompError::Unknown) && final(self)@ == old(
                    self,
                )@,
            },
    {
        match &mut self.inner {
            UserRegs::X86_64(regs) => match X86Register::from_name(name) {
                Some(reg) => {
                    regs.write(reg, val);
                    Ok(())
                },
                None => Err(SeccompError::Unknown),
            },
            UserRegs::Aarch64(regs) => match Aarch64Register::from_name(name) {
                Some(reg) => {
                    regs.write(reg, val);
                    Ok(())
                },
                None => Err(SeccompError::Unknown),
            },
        }
    }

    /// Unwraps the raw register set.
    pub fn into_raw(self) -> (raw: UserRegs)
        ensures
            raw == self@,
    {
        self.inner
    }

    /// The number of the system call that the tracee is in.
    pub fn syscall_number(&self) -> (n: u64)
        ensures
            n == self@.spec_syscall_number(),
    {
        match &self.inner {
            UserRegs::X86_64(regs) => regs.orig_rax,
            UserRegs::Aarch64(regs) => regs.regs[8],
        }
    }

    /// The system call argument in slot `index`; `None` beyond the four
    /// slots 0 to 3.
    pub fn arg(&self, index: usize) -> (r: Option<u64>)
        ensures
            r == self@.spec_arg(index as int),
    {
        match &self.inner {
            UserRegs::X86_64(regs) => match index {
                0 => Some(regs.rdi),
                1 => Some(regs.rsi),
                2 => Some(regs.rdx),
                3 => Some(regs.r10),
                _ => None,
            },
            UserRegs::Aarch64(regs) => if index < 4 {
                Some(regs.regs[index])
            } else {
                None
            },
        }
    }

    /// The value in the register that carries a system call's result.
    pub fn return_value(&self) -> (val: u64)
        ensures
            val == self@.spec_return_value(),
    {
        match &self.inner {
            UserRegs::X86_64(regs) => regs.rax,
            UserRegs::Aarch64(regs) => regs.regs[0],
        }
    }

    /// Puts `val` into the register that carries a system call's result.
    pub fn set_return_value(&mut self, val: u64)
        ensures
            final(self)@ == old(self)@.spec_with_return_value(val),
    {
        match &mut self.inner {
            UserRegs::X86_64(regs) => {
                regs.write(X86Register::Rax, val);
            },
            UserRegs::Aarch64(regs) => {
                regs.write(Aarch64Register::General(0), val);
            },
        }
    }

    /// Two snapshots that hold the same registers are the same snapshot.
    pub proof fn lemma_view_is_whole(a: Registers, b: Registers)
        requires
            a@ == b@,
        ensures
            a == b,
    {
    }

    /// The snapshot made from a raw register set holds that register set.
    pub proof fn lemma_from_raw_holds_raw(raw: UserRegs)
        ensures
            Registers::spec_from_raw(raw)@ == raw,
    {
    }

    /// What a commit writes is the whole snapshot: a snapshot taken from the
    /// written registers is the committed one, and committing that snapshot
    /// again makes the same write.
    pub proof fn lemma_commit_round_trip(regs: Registers, child_pid: i32)
        ensures
            Registers::spec_from_raw(regs.spec_commit_regs(child_pid).registers) == regs,
            Registers::spec_from_raw(regs.spec_commit_regs(child_pid).registers)@ == regs@,
            Registers::spec_from_raw(
                regs.spec_commit_regs(child_pid).registers,
            ).spec_commit_regs(child_pid) == regs.spec_commit_regs(child_pid),
    {
    }
}

} // verus!
