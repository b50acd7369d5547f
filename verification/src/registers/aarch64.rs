//! The register file of a stopped tracee on AArch64.

use crate::text::same_text;
use vstd::array::spec_array_update;
use vstd::prelude::*;

verus! {

/// The registers of an AArch64 process, in the layout in which the tracing
/// primitive reads and writes them.
#[derive(Debug, Clone, Copy, PartialEq, Eq)]
pub struct Aarch64UserRegs {
    pub regs: [u64; 31],
    pub sp: u64,
    pub pc: u64,
    pub pstate: u64,
}

impl Default for Aarch64UserRegs {
    /// The register set with zero in every register.
    fn default() -> (r: Self)
        ensures
            forall|i: int| 0 <= i < 31 ==> r.regs[i] == 0,
            r.sp == 0,
            r.pc == 0,
            r.pstate == 0,
    {
        Aarch64UserRegs { regs: [0u64; 31], sp: 0, pc: 0, pstate: 0 }
    }
}

/// A register of an AArch64 process that can be read and written by name.
#[derive(Debug, Clone, Copy, PartialEq, Eq, Structural)]
pub enum Aarch64Register {
    /// The general purpose register with this index, below 31.
    General(usize),
    /// The stack pointer.
    Sp,
    /// The program counter.
    Pc,
    /// The processor state.
    Pstate,
}

/// Whether `c` is one of the ten decimal digits.
pub open spec fn is_digit(c: char) -> bool {
    48 <= c as u32 <= 57
}

/// The number that the digit `c` writes; zero for any other character.
pub open spec fn digit_value(c: char) -> nat {
    if is_digit(c) {
        (c as u32 - 48) as nat
    } else {
        0
    }
}

/// Whether `s` holds decimal digits only.
pub open spec fn all_digits(s: Seq<char>) -> bool {
    forall|i: int| 0 <= i < s.len() ==> is_digit(#[trigger] s[i])
}

/// The number that the decimal digits of `s` write.
pub open spec fn decimal_value(s: Seq<char>) -> nat
    decreases s.len(),
{
    if s.len() == 0 {
        0
    } else {
        decimal_value(s.drop_last()) * 10 + digit_value(s.last())
    }
}

/// What follows the letter and the optional plus sign in a register name that
/// starts with `x`.
pub open spec fn digits_part(name: Seq<char>) -> Seq<char> {
    let rest = name.subrange(1, name.len() as int);
    if rest.len() >= 1 && rest[0] == '+' {
        rest.subrange(1, rest.len() as int)
    } else {
        rest
    }
}

/// The index that the name of a general purpose register gives: the name is
/// the letter `x`, an optional plus sign, and one or more decimal digits that
/// write a number below 31. Leading zeros are accepted.
pub open spec fn spec_general_index(name: Seq<char>) -> Option<usize> {
    if name.len() >= 1 && name[0] == 'x' {
        let digits = digits_part(name);
        if digits.len() >= 1 && all_digits(digits) && decimal_value(digits) < 31 {
            Some(decimal_value(digits) as usize)
        } else {
            None
        }
    } else {
        None
    }
}

/// One more digit at the end multiplies the value by ten and adds the digit.
proof fn lemma_decimal_value_push(s: Seq<char>, n: int)
    requires
        0 <= n < s.len(),
    ensures
        decimal_value(s.subrange(0, n + 1)) == decimal_value(s.subrange(0, n)) * 10 + digit_value(
            s[n],
        ),
        decimal_value(s.subrange(0, n + 1)) >= decimal_value(s.subrange(0, n)),
{
    let t = s.subrange(0, n + 1);
    assert(t.drop_last() =~= s.subrange(0, n));
    assert(t.last() == s[n]);
}

/// The value of a single digit.
proof fn lemma_decimal_value_one(a: char)
    requires
        is_digit(a),
    ensures
        all_digits(seq![a]),
        decimal_value(seq![a]) == a as u32 - 48,
{
    let s = seq![a];
    assert(s.drop_last() =~= Seq::<char>::empty());
    assert(decimal_value(s.drop_last()) == 0);
}

/// The value of two digits.
proof fn lemma_decimal_value_two(a: char, b: char)
    requires
        is_digit(a),
        is_digit(b),
    ensures
        all_digits(seq![a, b]),
        decimal_value(seq![a, b]) == (a as u32 - 48) * 10 + (b as u32 - 48),
{
    let s = seq![a, b];
    assert(s.drop_last() =~= seq![a]);
    lemma_decimal_value_one(a);
}

/// The index that the name of a general purpose register gives, if `name` is
/// such a name.
pub fn general_index(name: &str) -> (r: Option<usize>)
    ensures
        r == spec_general_index(name@),
        r matches Some(i) ==> i < 31,
{
    let n = name.unicode_len();
    if n < 2 {
        return None;
    }
    if name.get_char(0) != 'x' {
        return None;
    }
    let start: usize = if name.get_char(1) == '+' {
        2
    } else {
        1
    };
    if start >= n {
        return None;
    }
    let ghost digits = name@.subrange(start as int, n as int);
    proof {
        let rest = name@.subrange(1, n as int);
        assert(rest[0] == name@[1]);
        if start == 2 {
            assert(rest.subrange(1, rest.len() as int) =~= digits);
        } else {
            assert(rest =~= digits);
        }
        assert(digits.subrange(0, 0) =~= Seq::<char>::empty());
        assert(digits == digits_part(name@));
    }
    let mut i: usize = start;
    let mut acc: usize = 0;
    while i < n
        invariant
            n == name@.len(),
            1 <= start <= i <= n,
            start < n,
            digits == name@.subrange(start as int, n as int),
            name@[0] == 'x',
            digits == digits_part(name@),
            forall|j: int| 0 <= j < i - start ==> is_digit(#[trigger] digits[j]),
            acc <= 31,
            acc < 31 ==> acc == decimal_value(digits.subrange(0, i - start)),
            acc == 31 ==> decimal_value(digits.subrange(0, i - start)) >= 31,
        decreases n - i,
    {
        let c = name.get_char(i);
        let code: u32 = c as u32;
        assert(digits[i - start] == c);
        if code < 48 || code > 57 {
            assert(!is_digit(digits[i - start]));
            return None;
        }
        let digit: usize = (code - 48) as usize;
        proof {
            lemma_decimal_value_push(digits, i - start);
        }
        acc = if acc >= 31 || acc * 10 + digit >= 31 {
            31
        } else {
            acc * 10 + digit
        };
        i += 1;
    }
    assert(digits.subrange(0, n - start) =~= digits);
    if acc < 31 {
        Some(acc)
    } else {
        None
    }
}

/// The name of the general purpose register with index `i`.
pub open spec fn spec_general_name(i: int) -> Seq<char> {
    if i == 0 {
        "x0"@
    } else if i == 1 {
        "x1"@
    } else if i == 2 {
        "x2"@
    } else if i == 3 {
        "x3"@
    } else if i == 4 {
        "x4"@
    } else if i == 5 {
        "x5"@
    } else if i == 6 {
        "x6"@
    } else if i == 7 {
        "x7"@
    } else if i == 8 {
        "x8"@
    } else if i == 9 {
        "x9"@
    } else if i == 10 {
        "x10"@
    } else if i == 11 {
        "x11"@
    } else if i == 12 {
        "x12"@
    } else if i == 13 {
        "x13"@
    } else if i == 14 {
        "x14"@
    } else if i == 15 {
        "x15"@
    } else if i == 16 {
        "x16"@
    } else if i == 17 {
        "x17"@
    } else if i == 18 {
        "x18"@
    } else if i == 19 {
        "x19"@
    } else if i == 20 {
        "x20"@
    } else if i == 21 {
        "x21"@
    } else if i == 22 {
        "x22"@
    } else if i == 23 {
        "x23"@
    } else if i == 24 {
        "x24"@
    } else if i == 25 {
        "x25"@
    } else if i == 26 {
        "x26"@
    } else if i == 27 {
        "x27"@
    } else if i == 28 {
        "x28"@
    } else if i == 29 {
        "x29"@
    } else {
        "x30"@
    }
}

/// The name of the general purpose register with index `i`.
pub fn general_name(i: usize) -> (r: &'static str)
    requires
        i < 31,
    ensures
        r@ == spec_general_name(i as int),
{
    match i {
        0 => "x0",
        1 => "x1",
        2 => "x2",
        3 => "x3",
        4 => "x4",
        5 => "x5",
        6 => "x6",
        7 => "x7",
        8 => "x8",
        9 => "x9",
        10 => "x10",
        11 => "x11",
        12 => "x12",
        13 => "x13",
        14 => "x14",
        15 => "x15",
        16 => "x16",
        17 => "x17",
        18 => "x18",
        19 => "x19",
        20 => "x20",
        21 => "x21",
        22 => "x22",
        23 => "x23",
        24 => "x24",
        25 => "x25",
        26 => "x26",
        27 => "x27",
        28 => "x28",
        29 => "x29",
        _ => "x30",
    }
}

impl Aarch64Register {
    /// Whether this names a register that exists.
    pub open spec fn wf(self) -> bool {
        match self {
            Aarch64Register::General(i) => i < 31,
            _ => true,
        }
    }

    /// The register that `name` names, if any.
    pub open spec fn spec_from_name(name: Seq<char>) -> Option<Aarch64Register> {
        match spec_general_index(name) {
            Some(i) => Some(Aarch64Register::General(i)),
            None => if name == "sp"@ {
                Some(Aarch64Register::Sp)
            } else if name == "pc"@ {
                Some(Aarch64Register::Pc)
            } else if name == "pstate"@ {
                Some(Aarch64Register::Pstate)
            } else {
                None
            },
        }
    }

    /// The name under which `as_map` lists this register.
    pub open spec fn spec_name(self) -> Seq<char> {
        match self {
            Aarch64Register::General(i) => spec_general_name(i as int),
            Aarch64Register::Sp => "sp"@,
            Aarch64Register::Pc => "pc"@,
            Aarch64Register::Pstate => "pstate"@,
        }
    }

    /// The register at position `i` of the listing that `as_map` gives.
    pub open spec fn spec_listed(i: int) -> Aarch64Register {
        if 0 <= i < 31 {
            Aarch64Register::General(i as usize)
        } else if i == 31 {
            Aarch64Register::Sp
        } else if i == 32 {
            Aarch64Register::Pc
        } else {
            Aarch64Register::Pstate
        }
    }

    /// The register that `name` names, if any.
    pub fn from_name(name: &str) -> (r: Option<Aarch64Register>)
        ensures
            r == Aarch64Register::spec_from_name(name@),
            r matches Some(reg) ==> reg.wf(),
    {
        match general_index(name) {
            Some(i) => Some(Aarch64Register::General(i)),
            None => if same_text(name, "sp") {
                Some(Aarch64Register::Sp)
            } else if same_text(name, "pc") {
                Some(Aarch64Register::Pc)
            } else if same_text(name, "pstate") {
                Some(Aarch64Register::Pstate)
            } else {
                None
            },
        }
    }

    /// The name under which a register is listed names that register.
    pub proof fn lemma_name_resolves(reg: Aarch64Register)
        requires
            reg.wf(),
        ensures
            Aarch64Register::spec_from_name(reg.spec_name()) == Some(reg),
    {
        match reg {
            Aarch64Register::General(i) => {
                if i == 0 {
                    reveal_strlit("x0");
                    let name = "x0"@;
                    assert(name.len() == 2);
                    assert(name[0] == 'x');
                    assert(name[1] == '0');
                    assert(digits_part(name) =~= seq!['0']);
                    lemma_decimal_value_one('0');
                } else if i == 1 {
                    reveal_strlit("x1");
                    let name = "x1"@;
                    assert(name.len() == 2);
                    assert(name[0] == 'x');
                    assert(name[1] == '1');
                    assert(digits_part(name) =~= seq!['1']);
                    lemma_decimal_value_one('1');
                } else if i == 2 {
                    reveal_strlit("x2");
                    let name = "x2"@;
                    assert(name.len() == 2);
                    assert(name[0] == 'x');
                    assert(name[1] == '2');
                    assert(digits_part(name) =~= seq!['2']);
                    lemma_decimal_value_one('2');
                } else if i == 3 {
                    reveal_strlit("x3");
                    let name = "x3"@;
                    assert(name.len() == 2);
                    assert(name[0] == 'x');
                    assert(name[1] == '3');
                    assert(digits_part(name) =~= seq!['3']);
                    lemma_decimal_value_one('3');
                } else if i == 4 {
                    reveal_strlit("x4");
                    let name = "x4"@;
                    assert(name.len() == 2);
                    assert(name[0] == 'x');
                    assert(name[1] == '4');
                    assert(digits_part(name) =~= seq!['4']);
                    lemma_decimal_value_one('4');
                } else if i == 5 {
                    reveal_strlit("x5");
                    let name = "x5"@;
                    assert(name.len() == 2);
                    assert(name[0] == 'x');
                    assert(name[1] == '5');
                    assert(digits_part(name) =~= seq!['5']);
                    lemma_decimal_value_one('5');
                } else if i == 6 {
                    reveal_strlit("x6");
                    let name = "x6"@;
                    assert(name.len() == 2);
                    assert(name[0] == 'x');
                    assert(name[1] == '6');
                    assert(digits_part(name) =~= seq!['6']);
                    lemma_decimal_value_one('6');
                } else if i == 7 {
                    reveal_strlit("x7");
                    let name = "x7"@;
                    assert(name.len() == 2);
                    assert(name[0] == 'x');
                    assert(name[1] == '7');
                    assert(digits_part(name) =~= seq!['7']);
                    lemma_decimal_value_one('7');
                } else if i == 8 {
                    reveal_strlit("x8");
                    let name = "x8"@;
                    assert(name.len() == 2);
                    assert(name[0] == 'x');
                    assert(name[1] == '8');
                    assert(digits_part(name) =~= seq!['8']);
                    lemma_decimal_value_one('8');
                } else if i == 9 {
                    reveal_strlit("x9");
                    let name = "x9"@;
                    assert(name.len() == 2);
                    assert(name[0] == 'x');
                    assert(name[1] == '9');
                    assert(digits_part(name) =~= seq!['9']);
                    lemma_decimal_value_one('9');
                } else if i == 10 {
                    reveal_strlit("x10");
                    let name = "x10"@;
                    assert(name.len() == 3);
                    assert(name[0] == 'x');
                    assert(name[1] == '1');
                    assert(name[2] == '0');
                    assert(digits_part(name) =~= seq!['1', '0']);
                    lemma_decimal_value_two('1', '0');
                } else if i == 11 {
                    reveal_strlit("x11");
                    let name = "x11"@;
                    assert(name.len() == 3);
                    assert(name[0] == 'x');
                    assert(name[1] == '1');
                    assert(name[2] == '1');
                    assert(digits_part(name) =~= seq!['1', '1']);
                    lemma_decimal_value_two('1', '1');
                } else if i == 12 {
                    reveal_strlit("x12");
                    let name = "x12"@;
                    assert(name.len() == 3);
                    assert(name[0] == 'x');
                    assert(name[1] == '1');
                    assert(name[2] == '2');
                    assert(digits_part(name) =~= seq!['1', '2']);
                    lemma_decimal_value_two('1', '2');
                } else if i == 13 {
                    reveal_strlit("x13");
                    let name = "x13"@;
                    assert(name.len() == 3);
                    assert(name[0] == 'x');
                    assert(name[1] == '1');
                    assert(name[2] == '3');
                    assert(digits_part(name) =~= seq!['1', '3']);
                    lemma_decimal_value_two('1', '3');
                } else if i == 14 {
                    reveal_strlit("x14");
                    let name = "x14"@;
                    assert(name.len() == 3);
                    assert(name[0] == 'x');
                    assert(name[1] == '1');
                    assert(name[2] == '4');
                    assert(digits_part(name) =~= seq!['1', '4']);
                    lemma_decimal_value_two('1', '4');
                } else if i == 15 {
                    reveal_strlit("x15");
                    let name = "x15"@;
                    assert(name.len() == 3);
                    assert(name[0] == 'x');
                    assert(name[1] == '1');
                    assert(name[2] == '5');
                    assert(digits_part(name) =~= seq!['1', '5']);
                    lemma_decimal_value_two('1', '5');
                } else if i == 16 {
                    reveal_strlit("x16");
                    let name = "x16"@;
                    assert(name.len() == 3);
                    assert(name[0] == 'x');
                    assert(name[1] == '1');
                    assert(name[2] == '6');
                    assert(digits_part(name) =~= seq!['1', '6']);
                    lemma_decimal_value_two('1', '6');
                } else if i == 17 {
                    reveal_strlit("x17");
                    let name = "x17"@;
                    assert(name.len() == 3);
                    assert(name[0] == 'x');
                    assert(name[1] == '1');
                    assert(name[2] == '7');
                    assert(digits_part(name) =~= seq!['1', '7']);
                    lemma_decimal_value_two('1', '7');
                } else if i == 18 {
                    reveal_strlit("x18");
                    let name = "x18"@;
                    assert(name.len() == 3);
                    assert(name[0] == 'x');
                    assert(name[1] == '1');
                    assert(name[2] == '8');
                    assert(digits_part(name) =~= seq!['1', '8']);
                    lemma_decimal_value_two('1', '8');
                } else if i == 19 {
                    reveal_strlit("x19");
                    let name = "x19"@;
                    assert(name.len() == 3);
                    assert(name[0] == 'x');
                    assert(name[1] == '1');
                    assert(name[2] == '9');
                    assert(digits_part(name) =~= seq!['1', '9']);
                    lemma_decimal_value_two('1', '9');
                } else if i == 20 {
                    reveal_strlit("x20");
                    let name = "x20"@;
                    assert(name.len() == 3);
                    assert(name[0] == 'x');
                    assert(name[1] == '2');
                    assert(name[2] == '0');
                    assert(digits_part(name) =~= seq!['2', '0']);
                    lemma_decimal_value_two('2', '0');
                } else if i == 21 {
                    reveal_strlit("x21");
                    let name = "x21"@;
                    assert(name.len() == 3);
                    assert(name[0] == 'x');
                    assert(name[1] == '2');
                    assert(name[2] == '1');
                    assert(digits_part(name) =~= seq!['2', '1']);
                    lemma_decimal_value_two('2', '1');
                } else if i == 22 {
                    reveal_strlit("x22");
                    let name = "x22"@;
                    assert(name.len() == 3);
                    assert(name[0] == 'x');
                    assert(name[1] == '2');
                    assert(name[2] == '2');
                    assert(digits_part(name) =~= seq!['2', '2']);
                    lemma_decimal_value_two('2', '2');
                } else if i == 23 {
                    reveal_strlit("x23");
                    let name = "x23"@;
                    assert(name.len() == 3);
                    assert(name[0] == 'x');
                    assert(name[1] == '2');
                    assert(name[2] == '3');
                    assert(digits_part(name) =~= seq!['2', '3']);
                    lemma_decimal_value_two('2', '3');
                } else if i == 24 {
                    reveal_strlit("x24");
                    let name = "x24"@;
                    assert(name.len() == 3);
                    assert(name[0] == 'x');
                    assert(name[1] == '2');
                    assert(name[2] == '4');
                    assert(digits_part(name) =~= seq!['2', '4']);
                    lemma_decimal_value_two('2', '4');
                } else if i == 25 {
                    reveal_strlit("x25");
                    let name = "x25"@;
                    assert(name.len() == 3);
                    assert(name[0] == 'x');
                    assert(name[1] == '2');
                    assert(name[2] == '5');
                    assert(digits_part(name) =~= seq!['2', '5']);
                    lemma_decimal_value_two('2', '5');
                } else if i == 26 {
                    reveal_strlit("x26");
                    let name = "x26"@;
                    assert(name.len() == 3);
                    assert(name[0] == 'x');
                    assert(name[1] == '2');
                    assert(name[2] == '6');
                    assert(digits_part(name) =~= seq!['2', '6']);
                    lemma_decimal_value_two('2', '6');
                } else if i == 27 {
                    reveal_strlit("x27");
                    let name = "x27"@;
                    assert(name.len() == 3);
                    assert(name[0] == 'x');
                    assert(name[1] == '2');
                    assert(name[2] == '7');
                    assert(digits_part(name) =~= seq!['2', '7']);
                    lemma_decimal_value_two('2', '7');
                } else if i == 28 {
                    reveal_strlit("x28");
                    let name = "x28"@;
                    assert(name.len() == 3);
                    assert(name[0] == 'x');
                    assert(name[1] == '2');
                    assert(name[2] == '8');
                    assert(digits_part(name) =~= seq!['2', '8']);
                    lemma_decimal_value_two('2', '8');
                } else if i == 29 {
                    reveal_strlit("x29");
                    let name = "x29"@;
                    assert(name.len() == 3);
                    assert(name[0] == 'x');
                    assert(name[1] == '2');
                    assert(name[2] == '9');
                    assert(digits_part(name) =~= seq!['2', '9']);
                    lemma_decimal_value_two('2', '9');
                } else if i == 30 {
                    reveal_strlit("x30");
                    let name = "x30"@;
                    assert(name.len() == 3);
                    assert(name[0] == 'x');
                    assert(name[1] == '3');
                    assert(name[2] == '0');
                    assert(digits_part(name) =~= seq!['3', '0']);
                    lemma_decimal_value_two('3', '0');
                }
            },
            _ => {
                reveal_strlit("sp");
                reveal_strlit("pc");
                reveal_strlit("pstate");
                assert("sp"@.len() == 2);
                assert("pc"@.len() == 2);
                assert("pstate"@.len() == 6);
                assert("sp"@[0] == 's');
                assert("pc"@[0] == 'p');
                assert("pstate"@[0] == 'p');
            },
        }
    }

    /// The name under which `as_map` lists this register.
    pub fn name(self) -> (r: &'static str)
        requires
            self.wf(),
        ensures
            r@ == self.spec_name(),
    {
        match self {
            Aarch64Register::General(i) => general_name(i),
            Aarch64Register::Sp => "sp",
            Aarch64Register::Pc => "pc",
            Aarch64Register::Pstate => "pstate",
        }
    }
}

impl Aarch64UserRegs {
    /// The value that `reg` holds.
    pub open spec fn spec_read(self, reg: Aarch64Register) -> u64 {
        match reg {
            Aarch64Register::General(i) => self.regs[i as int],
            Aarch64Register::Sp => self.sp,
            Aarch64Register::Pc => self.pc,
            Aarch64Register::Pstate => self.pstate,
        }
    }

    /// These registers with `val` in `reg` and every other register unchanged.
    pub open spec fn spec_write(self, reg: Aarch64Register, val: u64) -> Aarch64UserRegs {
        match reg {
            Aarch64Register::General(i) => Aarch64UserRegs {
                regs: spec_array_update(self.regs, i as int, val),
                ..self
            },
            Aarch64Register::Sp => Aarch64UserRegs { sp: val, ..self },
            Aarch64Register::Pc => Aarch64UserRegs { pc: val, ..self },
            Aarch64Register::Pstate => Aarch64UserRegs { pstate: val, ..self },
        }
    }

    /// The value that `reg` holds.
    pub fn read(&self, reg: Aarch64Register) -> (val: u64)
        requires
            reg.wf(),
        ensures
            val == self.spec_read(reg),
    {
        match reg {
            Aarch64Register::General(i) => self.regs[i],
            Aarch64Register::Sp => self.sp,
            Aarch64Register::Pc => self.pc,
            Aarch64Register::Pstate => self.pstate,
        }
    }

    /// Puts `val` into `reg` and leaves every other register unchanged.
    pub fn write(&mut self, reg: Aarch64Register, val: u64)
        requires
            reg.wf(),
        ensures
            *final(self) == old(self).spec_write(reg, val),
    {
        broadcast use vstd::array::axiom_spec_array_update;
        broadcast use vstd::array::axiom_array_ext_equal;

        match reg {
            Aarch64Register::General(i) => {
                self.regs[i] = val;
                assert(self.regs =~= spec_array_update(old(self).regs, i as int, val));
            },
            Aarch64Register::Sp => {
                self.sp = val;
            },
            Aarch64Register::Pc => {
                self.pc = val;
            },
            Aarch64Register::Pstate => {
                self.pstate = val;
            },
        }
    }

    /// The named registers with their values, in the order in which `as_map`
    /// lists them: `x0` to `x30`, then `sp`, `pc` and `pstate`.
    pub fn listing(&self) -> (r: Vec<(&'static str, u64)>)
        ensures
            r@.len() == 34,
            forall|i: int|
                0 <= i < 34 ==> (#[trigger] r@[i]).0@ == Aarch64Register::spec_listed(
                    i,
                ).spec_name() && r@[i].1 == self.spec_read(Aarch64Register::spec_listed(i)),
    {
        let mut listed: Vec<(&'static str, u64)> = Vec::new();
        let mut i: usize = 0;
        while i < 31
            invariant
                i <= 31,
                listed@.len() == i,
                forall|j: int|
                    0 <= j < i ==> (#[trigger] listed@[j]).0@ == spec_general_name(j)
                        && listed@[j].1 == self.regs[j],
            decreases 31 - i,
        {
            listed.push((general_name(i), self.regs[i]));
            i += 1;
        }
        listed.push(("sp", self.sp));
        listed.push(("pc", self.pc));
        listed.push(("pstate", self.pstate));
        listed
    }

    /// A register holds what was last written to it.
    pub proof fn lemma_read_after_write(self, reg: Aarch64Register, val: u64)
        requires
            reg.wf(),
        ensures
            self.spec_write(reg, val).spec_read(reg) == val,
    {
        broadcast use vstd::array::axiom_spec_array_update;

    }

    /// Writing one register changes no other register.
    pub proof fn lemma_write_keeps_others(
        self,
        reg: Aarch64Register,
        val: u64,
        other: Aarch64Register,
    )
        requires
            reg.wf(),
            other.wf(),
            other != reg,
        ensures
            self.spec_write(reg, val).spec_read(other) == self.spec_read(other),
    {
        broadcast use vstd::array::axiom_spec_array_update;

    }
}

} // verus!
