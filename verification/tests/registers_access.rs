use restrict::interceptor::Interceptor;
use restrict::registers::aarch64::general_index;
use restrict::registers::aarch64::Aarch64Register;
use restrict::registers::aarch64::Aarch64UserRegs;
use restrict::registers::x86_64::X86Register;
use restrict::registers::x86_64::X86UserRegs;
use restrict::registers::Registers;
use restrict::registers::UserRegs;
use restrict::syscall::Syscall;
use restrict::SeccompError;

const X86_NAMES: [&str; 18] = [
    "rax", "rbx", "rcx", "rdx", "rsi", "rdi", "rbp", "rsp", "r8", "r9", "r10", "r11", "r12",
    "r13", "r14", "r15", "rip", "eflags",
];

fn x86_sample() -> X86UserRegs {
    X86UserRegs {
        r15: 115,
        r14: 114,
        r13: 113,
        r12: 112,
        rbp: 7,
        rbx: 2,
        r11: 111,
        r10: 110,
        r9: 109,
        r8: 108,
        rax: 1,
        rcx: 3,
        rdx: 4,
        rsi: 5,
        rdi: 6,
        orig_rax: 39,
        rip: 0x40_1000,
        cs: 0x33,
        eflags: 0x246,
        rsp: 0x7ffd_0000,
        ss: 0x2b,
        fs_base: 21,
        gs_base: 22,
        ds: 23,
        es: 24,
        fs: 25,
        gs: 26,
    }
}

fn aarch64_sample() -> Aarch64UserRegs {
    let mut regs = Aarch64UserRegs::default();
    for i in 0..31 {
        regs.regs[i] = 1000 + i as u64;
    }
    regs.sp = 0xffff_0000;
    regs.pc = 0x40_2000;
    regs.pstate = 0x6000_0000;
    regs
}

#[test]
fn x86_listing_is_in_order() {
    let regs = Registers::from_raw(UserRegs::X86_64(x86_sample()));
    let listed = regs.as_map();
    let expected: Vec<(&str, u64)> = vec![
        ("rax", 1),
        ("rbx", 2),
        ("rcx", 3),
        ("rdx", 4),
        ("rsi", 5),
        ("rdi", 6),
        ("rbp", 7),
        ("rsp", 0x7ffd_0000),
        ("r8", 108),
        ("r9", 109),
        ("r10", 110),
        ("r11", 111),
        ("r12", 112),
        ("r13", 113),
        ("r14", 114),
        ("r15", 115),
        ("rip", 0x40_1000),
        ("eflags", 0x246),
    ];
    assert_eq!(listed, expected);
}

#[test]
fn x86_get_reads_what_the_listing_shows() {
    let regs = Registers::from_raw(UserRegs::X86_64(x86_sample()));
    for (name, value) in regs.as_map() {
        assert_eq!(regs.get(name), Some(value));
    }
}

#[test]
fn x86_unknown_names() {
    let mut regs = Registers::from_raw(UserRegs::X86_64(x86_sample()));
    for name in ["orig_rax", "cs", "ss", "fs_base", "", "RAX", "rax ", "x0", "sp", "eax", "r16"] {
        assert_eq!(regs.get(name), None);
        assert_eq!(regs.set(name, 1), Err(SeccompError::Unknown));
    }
    assert_eq!(regs.into_raw(), UserRegs::X86_64(x86_sample()));
}

#[test]
fn x86_set_changes_one_register() {
    for (k, name) in X86_NAMES.iter().enumerate() {
        let mut regs = Registers::from_raw(UserRegs::X86_64(x86_sample()));
        let before = regs.as_map();
        assert_eq!(regs.set(name, 0xdead_0000 + k as u64), Ok(()));
        assert_eq!(regs.get(name), Some(0xdead_0000 + k as u64));
        let after = regs.as_map();
        for i in 0..18 {
            if i != k {
                assert_eq!(after[i], before[i]);
            }
        }
        assert_eq!(regs.syscall_number(), 39);
        match regs.into_raw() {
            UserRegs::X86_64(raw) => {
                assert_eq!(raw.cs, 0x33);
                assert_eq!(raw.ss, 0x2b);
                assert_eq!(raw.fs_base, 21);
                assert_eq!(raw.gs_base, 22);
                assert_eq!((raw.ds, raw.es, raw.fs, raw.gs), (23, 24, 25, 26));
            }
            UserRegs::Aarch64(_) => panic!("layout changed"),
        }
    }
}

#[test]
fn x86_abi_slots() {
    let mut regs = Registers::from_raw(UserRegs::X86_64(x86_sample()));
    assert_eq!(regs.syscall_number(), 39);
    assert_eq!(regs.return_value(), 1);
    assert_eq!(regs.arg(0), Some(6));
    assert_eq!(regs.arg(1), Some(5));
    assert_eq!(regs.arg(2), Some(4));
    assert_eq!(regs.arg(3), Some(110));
    assert_eq!(regs.arg(4), None);
    assert_eq!(regs.arg(usize::MAX), None);
    regs.set_return_value(56);
    assert_eq!(regs.return_value(), 56);
    assert_eq!(regs.get("rax"), Some(56));
    assert_eq!(regs.syscall_number(), 39);
}

#[test]
fn x86_register_names() {
    for name in X86_NAMES {
        let reg = X86Register::from_name(name).unwrap();
        assert_eq!(reg.name(), name);
    }
    assert_eq!(X86Register::from_name("rdx"), Some(X86Register::Rdx));
    assert_eq!(X86Register::from_name("rd"), None);
    assert_eq!(X86Register::from_name("rdxx"), None);
}

#[test]
fn aarch64_listing_is_in_order() {
    let regs = Registers::from_raw(UserRegs::Aarch64(aarch64_sample()));
    let listed = regs.as_map();
    assert_eq!(listed.len(), 34);
    for i in 0..31 {
        assert_eq!(listed[i], (format!("x{}", i).as_str(), 1000 + i as u64));
    }
    assert_eq!(listed[31], ("sp", 0xffff_0000));
    assert_eq!(listed[32], ("pc", 0x40_2000));
    assert_eq!(listed[33], ("pstate", 0x6000_0000));
    for (name, value) in listed {
        assert_eq!(regs.get(name), Some(value));
    }
}

#[test]
fn aarch64_general_register_names() {
    assert_eq!(general_index("x0"), Some(0));
    assert_eq!(general_index("x8"), Some(8));
    assert_eq!(general_index("x30"), Some(30));
    assert_eq!(general_index("x31"), None);
    assert_eq!(general_index("x310"), None);
    // leading zeros and a plus sign are read as a number is
    assert_eq!(general_index("x05"), Some(5));
    assert_eq!(general_index("x0000030"), Some(30));
    assert_eq!(general_index("x+7"), Some(7));
    assert_eq!(general_index("x+007"), Some(7));
    assert_eq!(general_index("x"), None);
    assert_eq!(general_index("x+"), None);
    assert_eq!(general_index("x-1"), None);
    assert_eq!(general_index("x++1"), None);
    assert_eq!(general_index("x1+"), None);
    assert_eq!(general_index("x 1"), None);
    assert_eq!(general_index("x1a"), None);
    assert_eq!(general_index("X1"), None);
    assert_eq!(general_index("1"), None);
    assert_eq!(general_index(""), None);
    assert_eq!(general_index("x99999999999999999999999999"), None);
    assert_eq!(general_index("x18446744073709551617"), None);
    assert_eq!(general_index("x\u{663}"), None);
}

#[test]
fn aarch64_get_and_set() {
    let mut regs = Registers::from_raw(UserRegs::Aarch64(aarch64_sample()));
    assert_eq!(regs.get("x0"), Some(1000));
    assert_eq!(regs.get("x30"), Some(1030));
    assert_eq!(regs.get("x05"), Some(1005));
    assert_eq!(regs.get("x31"), None);
    assert_eq!(regs.get("rax"), None);
    assert_eq!(regs.get("sp"), Some(0xffff_0000));
    assert_eq!(regs.get("pc"), Some(0x40_2000));
    assert_eq!(regs.get("pstate"), Some(0x6000_0000));
    assert_eq!(regs.set("x31", 1), Err(SeccompError::Unknown));
    assert_eq!(regs.set("rax", 1), Err(SeccompError::Unknown));
    assert_eq!(regs.set("x7", 77), Ok(()));
    assert_eq!(regs.set("sp", 78), Ok(()));
    assert_eq!(regs.set("pc", 79), Ok(()));
    assert_eq!(regs.set("pstate", 80), Ok(()));
    let mut expected = aarch64_sample();
    expected.regs[7] = 77;
    expected.sp = 78;
    expected.pc = 79;
    expected.pstate = 80;
    assert_eq!(regs.into_raw(), UserRegs::Aarch64(expected));
}

#[test]
fn aarch64_abi_slots() {
    let mut regs = Registers::from_raw(UserRegs::Aarch64(aarch64_sample()));
    assert_eq!(regs.syscall_number(), 1008);
    assert_eq!(regs.return_value(), 1000);
    assert_eq!(regs.arg(0), Some(1000));
    assert_eq!(regs.arg(3), Some(1003));
    assert_eq!(regs.arg(4), None);
    regs.set_return_value(56);
    assert_eq!(regs.return_value(), 56);
    assert_eq!(regs.get("x0"), Some(56));
    assert_eq!(regs.syscall_number(), 1008);
}

#[test]
fn aarch64_register_names() {
    for i in 0..31 {
        let reg = Aarch64Register::General(i);
        assert_eq!(reg.name(), format!("x{}", i));
        assert_eq!(Aarch64Register::from_name(reg.name()), Some(reg));
    }
    assert_eq!(Aarch64Register::from_name("sp"), Some(Aarch64Register::Sp));
    assert_eq!(Aarch64Register::from_name("pc"), Some(Aarch64Register::Pc));
    assert_eq!(Aarch64Register::from_name("pstate"), Some(Aarch64Register::Pstate));
    assert_eq!(Aarch64Register::Pstate.name(), "pstate");
    assert_eq!(Aarch64Register::from_name("x31"), None);
}

#[test]
fn raw_registers_round_trip() {
    let raw = UserRegs::X86_64(x86_sample());
    assert_eq!(Registers::from_raw(raw).into_raw(), raw);
    let raw = UserRegs::Aarch64(aarch64_sample());
    assert_eq!(Registers::from_raw(raw).into_raw(), raw);
}

#[test]
fn committed_registers_read_back_as_they_were_set() {
    // read a snapshot, change it, commit, and take a fresh snapshot of what
    // was written
    let mut snapshot = Registers::from_raw(UserRegs::X86_64(x86_sample()));
    snapshot.set("rdx", 12).unwrap();
    snapshot.set_return_value(56);
    let write = snapshot.commit_regs(4321);
    assert_eq!(write.child_pid, 4321);
    let fresh = Registers::from_raw(write.registers);
    assert_eq!(fresh, snapshot);
    assert_eq!(fresh.get("rdx"), Some(12));
    assert_eq!(fresh.return_value(), 56);
    assert_eq!(fresh.get("rsi"), Some(5));
    // committing the same registers again writes the same
    assert_eq!(fresh.commit_regs(4321), write);
    assert_eq!(snapshot.commit_regs(4321), write);
}

#[test]
fn interceptor_commits_its_own_snapshot() {
    let regs = Registers::from_raw(UserRegs::X86_64(x86_sample()));
    let mut interceptor = Interceptor::new(Syscall::Getpid, regs.clone(), 4321);
    assert_eq!(interceptor.syscall, Syscall::Getpid);
    assert_eq!(interceptor.child_pid, 4321);
    assert_eq!(interceptor.registers, regs);
    let untouched = interceptor.commit_regs();
    assert_eq!(untouched.registers, UserRegs::X86_64(x86_sample()));
    interceptor.registers.set_return_value(56);
    let write = interceptor.commit_regs();
    assert_eq!(write.child_pid, 4321);
    let mut expected = x86_sample();
    expected.rax = 56;
    assert_eq!(write.registers, UserRegs::X86_64(expected));
}
