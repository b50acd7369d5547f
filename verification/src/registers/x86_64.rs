//! The register file of a stopped tracee on x86-64.

use crate::text::same_text;
use vstd::prelude::*;

verus! {

/// The general purpose registers of an x86-64 process, in the layout in which
/// the tracing primitive reads and writes them.
#[derive(Debug, Clone, Copy, PartialEq, Eq, Structural)]
pub struct X86UserRegs {
    pub r15: u64,
    pub r14: u64,
    pub r13: u64,
    pub r12: u64,
    pub rbp: u64,
    pub rbx: u64,
    pub r11: u64,
    pub r10: u64,
    pub r9: u64,
    pub r8: u64,
    pub rax: u64,
    pub rcx: u64,
    pub rdx: u64,
    pub rsi: u64,
    pub rdi: u64,
    pub orig_rax: u64,
    pub rip: u64,
    pub cs: u64,
    pub eflags: u64,
    pub rsp: u64,
    pub ss: u64,
    pub fs_base: u64,
    pub gs_base: u64,
    pub ds: u64,
    pub es: u64,
    pub fs: u64,
    pub gs: u64,
}

impl Default for X86UserRegs {
    /// The register set with zero in every register.
    fn default() -> (r: Self)
        ensures
            r == X86UserRegs::spec_zeroed(),
    {
        X86UserRegs {
            r15: 0,
            r14: 0,
            r13: 0,
            r12: 0,
            rbp: 0,
            rbx: 0,
            r11: 0,
            r10: 0,
            r9: 0,
            r8: 0,
            rax: 0,
            rcx: 0,
            rdx: 0,
            rsi: 0,
            rdi: 0,
            orig_rax: 0,
            rip: 0,
            cs: 0,
            eflags: 0,
            rsp: 0,
            ss: 0,
            fs_base: 0,
            gs_base: 0,
            ds: 0,
            es: 0,
            fs: 0,
            gs: 0,
        }
    }
}

/// The registers of an x86-64 process that can be read and written by name.
///
/// `orig_rax`, the segment registers and the segment bases have no name here.
#[derive(Debug, Clone, Copy, PartialEq, Eq, Structural)]
pub enum X86Register {
    Rax,
    Rbx,
    Rcx,
    Rdx,
    Rsi,
    Rdi,
    Rbp,
    Rsp,
    R8,
    R9,
    R10,
    R11,
    R12,
    R13,
    R14,
    R15,
    Rip,
    Eflags,
}

impl X86Register {
    /// The register that `name` names, if any.
    pub open spec fn spec_from_name(name: Seq<char>) -> Option<X86Register> {
        if name == "rax"@ {
            Some(X86Register::Rax)
        } else if name == "rbx"@ {
            Some(X86Register::Rbx)
        } else if name == "rcx"@ {
            Some(X86Register::Rcx)
        } else if name == "rdx"@ {
            Some(X86Register::Rdx)
        } else if name == "rsi"@ {
            Some(X86Register::Rsi)
        } else if name == "rdi"@ {
            Some(X86Register::Rdi)
        } else if name == "rbp"@ {
            Some(X86Register::Rbp)
        } else if name == "rsp"@ {
            Some(X86Register::Rsp)
        } else if name == "r8"@ {
            Some(X86Register::R8)
        } else if name == "r9"@ {
            Some(X86Register::R9)
        } else if name == "r10"@ {
            Some(X86Register::R10)
        } else if name == "r11"@ {
            Some(X86Register::R11)
        } else if name == "r12"@ {
            Some(X86Register::R12)
        } else if name == "r13"@ {
            Some(X86Register::R13)
        } else if name == "r14"@ {
            Some(X86Register::R14)
        } else if name == "r15"@ {
            Some(X86Register::R15)
        } else if name == "rip"@ {
            Some(X86Register::Rip)
        } else if name == "eflags"@ {
            Some(X86Register::Eflags)
        } else {
            None
        }
    }

    /// The name of this register.
    pub open spec fn spec_name(self) -> Seq<char> {
        match self {
            X86Register::Rax => "rax"@,
            X86Register::Rbx => "rbx"@,
            X86Register::Rcx => "rcx"@,
            X86Register::Rdx => "rdx"@,
            X86Register::Rsi => "rsi"@,
            X86Register::Rdi => "rdi"@,
            X86Register::Rbp => "rbp"@,
            X86Register::Rsp => "rsp"@,
            X86Register::R8 => "r8"@,
            X86Register::R9 => "r9"@,
            X86Register::R10 => "r10"@,
            X86Register::R11 => "r11"@,
            X86Register::R12 => "r12"@,
            X86Register::R13 => "r13"@,
            X86Register::R14 => "r14"@,
            X86Register::R15 => "r15"@,
            X86Register::Rip => "rip"@,
            X86Register::Eflags => "eflags"@,
        }
    }

    /// The register at position `i` of the listing that `as_map` gives.
    pub open spec fn spec_listed(i: int) -> X86Register {
        if i == 0 {
            X86Register::Rax
        } else if i == 1 {
            X86Register::Rbx
        } else if i == 2 {
            X86Register::Rcx
        } else if i == 3 {
            X86Register::Rdx
        } else if i == 4 {
            X86Register::Rsi
        } else if i == 5 {
            X86Register::Rdi
        } else if i == 6 {
            X86Register::Rbp
        } else if i == 7 {
            X86Register::Rsp
        } else if i == 8 {
            X86Register::R8
        } else if i == 9 {
            X86Register::R9
        } else if i == 10 {
            X86Register::R10
        } else if i == 11 {
            X86Register::R11
        } else if i == 12 {
            X86Register::R12
        } else if i == 13 {
            X86Register::R13
        } else if i == 14 {
            X86Register::R14
        } else if i == 15 {
            X86Register::R15
        } else if i == 16 {
            X86Register::Rip
        } else {
            X86Register::Eflags
        }
    }

    /// The register that `name` names, if any.
    pub fn from_name(name: &str) -> (r: Option<X86Register>)
        ensures
            r == X86Register::spec_from_name(name@),
    {
        if same_text(name, "rax") {
            Some(X86Register::Rax)
        } else if same_text(name, "rbx") {
            Some(X86Register::Rbx)
        } else if same_text(name, "rcx") {
            Some(X86Register::Rcx)
        } else if same_text(name, "rdx") {
            Some(X86Register::Rdx)
        } else if same_text(name, "rsi") {
            Some(X86Register::Rsi)
        } else if same_text(name, "rdi") {
            Some(X86Register::Rdi)
        } else if same_text(name, "rbp") {
            Some(X86Register::Rbp)
        } else if same_text(name, "rsp") {
            Some(X86Register::Rsp)
        } else if same_text(name, "r8") {
            Some(X86Register::R8)
        } else if same_text(name, "r9") {
            Some(X86Register::R9)
        } else if same_text(name, "r10") {
            Some(X86Register::R10)
        } else if same_text(name, "r11") {
            Some(X86Register::R11)
        } else if same_text(name, "r12") {
            Some(X86Register::R12)
        } else if same_text(name, "r13") {
            Some(X86Register::R13)
        } else if same_text(name, "r14") {
            Some(X86Register::R14)
        } else if same_text(name, "r15") {
            Some(X86Register::R15)
        } else if same_text(name, "rip") {
            Some(X86Register::Rip)
        } else if same_text(name, "eflags") {
            Some(X86Register::Eflags)
        } else {
            None
        }
    }

    /// The name of this register.
    pub fn name(self) -> (r: &'static str)
        ensures
            r@ == self.spec_name(),
    {
        match self {
            X86Register::Rax => "rax",
            X86Register::Rbx => "rbx",
            X86Register::Rcx => "rcx",
            X86Register::Rdx => "rdx",
            X86Register::Rsi => "rsi",
            X86Register::Rdi => "rdi",
            X86Register::Rbp => "rbp",
            X86Register::Rsp => "rsp",
            X86Register::R8 => "r8",
            X86Register::R9 => "r9",
            X86Register::R10 => "r10",
            X86Register::R11 => "r11",
            X86Register::R12 => "r12",
            X86Register::R13 => "r13",
            X86Register::R14 => "r14",
            X86Register::R15 => "r15",
            X86Register::Rip => "rip",
            X86Register::Eflags => "eflags",
        }
    }

    /// A register's own name names that register.
    pub proof fn lemma_name_resolves(reg: X86Register)
        ensures
            X86Register::spec_from_name(reg.spec_name()) == Some(reg),
    {
        reveal_strlit("rax");
        assert("rax"@.len() == 3);
        assert("rax"@[0] == 'r');
        assert("rax"@[1] == 'a');
        assert("rax"@[2] == 'x');
        reveal_strlit("rbx");
        assert("rbx"@.len() == 3);
        assert("rbx"@[0] == 'r');
        assert("rbx"@[1] == 'b');
        assert("rbx"@[2] == 'x');
        reveal_strlit("rcx");
        assert("rcx"@.len() == 3);
        assert("rcx"@[0] == 'r');
        assert("rcx"@[1] == 'c');
        assert("rcx"@[2] == 'x');
        reveal_strlit("rdx");
        assert("rdx"@.len() == 3);
        assert("rdx"@[0] == 'r');
        assert("rdx"@[1] == 'd');
        assert("rdx"@[2] == 'x');
        reveal_strlit("rsi");
        assert("rsi"@.len() == 3);
        assert("rsi"@[0] == 'r');
        assert("rsi"@[1] == 's');
        assert("rsi"@[2] == 'i');
        reveal_strlit("rdi");
        assert("rdi"@.len() == 3);
        assert("rdi"@[0] == 'r');
        assert("rdi"@[1] == 'd');
        assert("rdi"@[2] == 'i');
        reveal_strlit("rbp");
        assert("rbp"@.len() == 3);
        assert("rbp"@[0] == 'r');
        assert("rbp"@[1] == 'b');
        assert("rbp"@[2] == 'p');
        reveal_strlit("rsp");
        assert("rsp"@.len() == 3);
        assert("rsp"@[0] == 'r');
        assert("rsp"@[1] == 's');
        assert("rsp"@[2] == 'p');
        reveal_strlit("r8");
        assert("r8"@.len() == 2);
        assert("r8"@[0] == 'r');
        assert("r8"@[1] == '8');
        reveal_strlit("r9");
        assert("r9"@.len() == 2);
        assert("r9"@[0] == 'r');
        assert("r9"@[1] == '9');
        reveal_strlit("r10");
        assert("r10"@.len() == 3);
        assert("r10"@[0] == 'r');
        assert("r10"@[1] == '1');
        assert("r10"@[2] == '0');
        reveal_strlit("r11");
        assert("r11"@.len() == 3);
        assert("r11"@[0] == 'r');
        assert("r11"@[1] == '1');
        assert("r11"@[2] == '1');
        reveal_strlit("r12");
        assert("r12"@.len() == 3);
        assert("r12"@[0] == 'r');
        assert("r12"@[1] == '1');
        assert("r12"@[2] == '2');
        reveal_strlit("r13");
        assert("r13"@.len() == 3);
        assert("r13"@[0] == 'r');
        assert("r13"@[1] == '1');
        assert("r13"@[2] == '3');
        reveal_strlit("r14");
        assert("r14"@.len() == 3);
        assert("r14"@[0] == 'r');
        assert("r14"@[1] == '1');
        assert("r14"@[2] == '4');
        reveal_strlit("r15");
        assert("r15"@.len() == 3);
        assert("r15"@[0] == 'r');
        assert("r15"@[1] == '1');
        assert("r15"@[2] == '5');
        reveal_strlit("rip");
        assert("rip"@.len() == 3);
        assert("rip"@[0] == 'r');
        assert("rip"@[1] == 'i');
        assert("rip"@[2] == 'p');
        reveal_strlit("eflags");
        assert("eflags"@.len() == 6);
        assert("eflags"@[0] == 'e');
        assert("eflags"@[1] == 'f');
        assert("eflags"@[2] == 'l');
        assert("eflags"@[3] == 'a');
        assert("eflags"@[4] == 'g');
        assert("eflags"@[5] == 's');
    }
}

impl X86UserRegs {
    /// The register set with zero in every register.
    pub open spec fn spec_zeroed() -> X86UserRegs {
        X86UserRegs {
            r15: 0,
            r14: 0,
            r13: 0,
            r12: 0,
            rbp: 0,
            rbx: 0,
            r11: 0,
            r10: 0,
            r9: 0,
            r8: 0,
            rax: 0,
            rcx: 0,
            rdx: 0,
            rsi: 0,
            rdi: 0,
            orig_rax: 0,
            rip: 0,
            cs: 0,
            eflags: 0,
            rsp: 0,
            ss: 0,
            fs_base: 0,
            gs_base: 0,
            ds: 0,
            es: 0,
            fs: 0,
            gs: 0,
        }
    }

    /// The value that `reg` holds.
    pub open spec fn spec_read(self, reg: X86Register) -> u64 {
        match reg {
            X86Register::Rax => self.rax,
            X86Register::Rbx => self.rbx,
            X86Register::Rcx => self.rcx,
            X86Register::Rdx => self.rdx,
            X86Register::Rsi => self.rsi,
            X86Register::Rdi => self.rdi,
            X86Register::Rbp => self.rbp,
            X86Register::Rsp => self.rsp,
            X86Register::R8 => self.r8,
            X86Register::R9 => self.r9,
            X86Register::R10 => self.r10,
            X86Register::R11 => self.r11,
            X86Register::R12 => self.r12,
            X86Register::R13 => self.r13,
            X86Register::R14 => self.r14,
            X86Register::R15 => self.r15,
            X86Register::Rip => self.rip,
            X86Register::Eflags => self.eflags,
        }
    }

    /// These registers with `val` in `reg` and every other register unchanged.
    pub open spec fn spec_write(self, reg: X86Register, val: u64) -> X86UserRegs {
        match reg {
            X86Register::Rax => X86UserRegs { rax: val, ..self },
            X86Register::Rbx => X86UserRegs { rbx: val, ..self },
            X86Register::Rcx => X86UserRegs { rcx: val, ..self },
            X86Register::Rdx => X86UserRegs { rdx: val, ..self },
            X86Register::Rsi => X86UserRegs { rsi: val, ..self },
            X86Register::Rdi => X86UserRegs { rdi: val, ..self },
            X86Register::Rbp => X86UserRegs { rbp: val, ..self },
            X86Register::Rsp => X86UserRegs { rsp: val, ..self },
            X86Register::R8 => X86UserRegs { r8: val, ..self },
            X86Register::R9 => X86UserRegs { r9: val, ..self },
            X86Register::R10 => X86UserRegs { r10: val, ..self },
            X86Register::R11 => X86UserRegs { r11: val, ..self },
            X86Register::R12 => X86UserRegs { r12: val, ..self },
            X86Register::R13 => X86UserRegs { r13: val, ..self },
            X86Register::R14 => X86UserRegs { r14: val, ..self },
            X86Register::R15 => X86UserRegs { r15: val, ..self },
            X86Register::Rip => X86UserRegs { rip: val, ..self },
            X86Register::Eflags => X86UserRegs { eflags: val, ..self },
        }
    }

    /// The value that `reg` holds.
    pub fn read(&self, reg: X86Register) -> (val: u64)
        ensures
            val == self.spec_read(reg),
    {
        match reg {
            X86Register::Rax => self.rax,
            X86Register::Rbx => self.rbx,
            X86Register::Rcx => self.rcx,
            X86Register::Rdx => self.rdx,
            X86Register::Rsi => self.rsi,
            X86Register::Rdi => self.rdi,
            X86Register::Rbp => self.rbp,
            X86Register::Rsp => self.rsp,
            X86Register::R8 => self.r8,
            X86Register::R9 => self.r9,
            X86Register::R10 => self.r10,
            X86Register::R11 => self.r11,
            X86Register::R12 => self.r12,
            X86Register::R13 => self.r13,
            X86Register::R14 => self.r14,
            X86Register::R15 => self.r15,
            X86Register::Rip => self.rip,
            X86Register::Eflags => self.eflags,
        }
    }

    /// Puts `val` into `reg` and leaves every other register unchanged.
    pub fn write(&mut self, reg: X86Register, val: u64)
        ensures
            *final(self) == old(self).spec_write(reg, val),
    {
        match reg {
            X86Register::Rax => {
                self.rax = val;
            },
            X86Register::Rbx => {
                self.rbx = val;
            },
            X86Register::Rcx => {
                self.rcx = val;
            },
            X86Register::Rdx => {
                self.rdx = val;
            },
            X86Register::Rsi => {
                self.rsi = val;
            },
            X86Register::Rdi => {
                self.rdi = val;
            },
            X86Register::Rbp => {
                self.rbp = val;
            },
            X86Register::Rsp => {
                self.rsp = val;
            },
            X86Register::R8 => {
                self.r8 = val;
            },
            X86Register::R9 => {
                self.r9 = val;
            },
            X86Register::R10 => {
                self.r10 = val;
            },
            X86Register::R11 => {
                self.r11 = val;
            },
            X86Register::R12 => {
                self.r12 = val;
            },
            X86Register::R13 => {
                self.r13 = val;
            },
            X86Register::R14 => {
                self.r14 = val;
            },
            X86Register::R15 => {
                self.r15 = val;
            },
            X86Register::Rip => {
                self.rip = val;
            },
            X86Register::Eflags => {
                self.eflags = val;
            },
        }
    }

    /// The named registers with their values, in the order in which `as_map`
    /// lists them.
    pub fn listing(&self) -> (r: Vec<(&'static str, u64)>)
        ensures
            r@.len() == 18,
            forall|i: int|
                0 <= i < 18 ==> (#[trigger] r@[i]).0@ == X86Register::spec_listed(i).spec_name()
                    && r@[i].1 == self.spec_read(X86Register::spec_listed(i)),
    {
        vec![
            ("rax", self.rax),
            ("rbx", self.rbx),
            ("rcx", self.rcx),
            ("rdx", self.rdx),
            ("rsi", self.rsi),
            ("rdi", self.rdi),
            ("rbp", self.rbp),
            ("rsp", self.rsp),
            ("r8", self.r8),
            ("r9", self.r9),
            ("r10", self.r10),
            ("r11", self.r11),
            ("r12", self.r12),
            ("r13", self.r13),
            ("r14", self.r14),
            ("r15", self.r15),
            ("rip", self.rip),
            ("eflags", self.eflags),
        ]
    }

    /// A register holds what was last written to it.
    pub proof fn lemma_read_after_write(self, reg: X86Register, val: u64)
        ensures
            self.spec_write(reg, val).spec_read(reg) == val,
    {
    }

    /// Writing one register changes no other named register.
    pub proof fn lemma_write_keeps_others(self, reg: X86Register, val: u64, other: X86Register)
        requires
            other != reg,
        ensures
            self.spec_write(reg, val).spec_read(other) == self.spec_read(other),
    {
    }

    /// Writing a named register changes neither the system call number nor
    /// the segment registers.
    pub proof fn lemma_write_keeps_unnamed(self, reg: X86Register, val: u64)
        ensures
            self.spec_write(reg, val).orig_rax == self.orig_rax,
            self.spec_write(reg, val).cs == self.cs,
            self.spec_write(reg, val).ss == self.ss,
            self.spec_write(reg, val).ds == self.ds,
            self.spec_write(reg, val).es == self.es,
            self.spec_write(reg, val).fs == self.fs,
            self.spec_write(reg, val).gs == self.gs,
            self.spec_write(reg, val).fs_base == self.fs_base,
            self.spec_write(reg, val).gs_base == self.gs_base,
    {
    }
}

} // verus!
