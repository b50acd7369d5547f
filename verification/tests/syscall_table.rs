use restrict::syscall::Syscall;
use restrict::wrapper::SeccompWrapper;
use restrict::SeccompError;

#[test]
fn wrapper_resolve_syscall() {
    // 2 is what the filter compiler resolves "open" to on x86-64.
    let open_syscall = SeccompWrapper::resolve_syscall("open", 2).unwrap();
    assert_eq!(open_syscall, Syscall::Open.number());
}

#[test]
fn invalid_resolve_syscall() {
    let syscall_name = "InvalidSyscall";
    // -1 is what the filter compiler returns for a name that it does not know.
    let result = SeccompWrapper::resolve_syscall(syscall_name, -1);

    match result {
        Err(SeccompError::UnsupportedSyscall(name)) => {
            assert_eq!(name, syscall_name);
        }
        Err(e) => panic!("Unexpected error: {:?}", e),
        Ok(_) => panic!("Expected an error for an invalid syscall, but got Ok"),
    }
}

#[test]
fn resolve_syscall_passes_any_other_number_through() {
    assert_eq!(SeccompWrapper::resolve_syscall("read", 0), Ok(0));
    assert_eq!(SeccompWrapper::resolve_syscall("pseudo", -2), Ok(-2));
    assert_eq!(SeccompWrapper::resolve_syscall("clone3", 435), Ok(435));
}

#[test]
fn numbers_of_well_known_syscalls() {
    assert_eq!(Syscall::Read.number(), 0);
    assert_eq!(Syscall::Write.number(), 1);
    assert_eq!(Syscall::Open.number(), 2);
    assert_eq!(Syscall::Getpid.number(), 39);
    assert_eq!(Syscall::Ptrace.number(), 101);
    assert_eq!(Syscall::Getuid.number(), 102);
    assert_eq!(Syscall::Mknod.number(), 133);
    assert_eq!(Syscall::Iopl.number(), 172);
    assert_eq!(Syscall::Time.number(), 201);
    assert_eq!(Syscall::Openat.number(), 257);
    assert_eq!(Syscall::Rseq.number(), 334);
    assert_eq!(Syscall::PidfdSendSignal.number(), 424);
    assert_eq!(Syscall::Clone3.number(), 435);
}

#[test]
fn every_known_number_round_trips() {
    let mut known = 0;
    for num in -10..600 {
        match Syscall::from_number(num) {
            Ok(syscall) => {
                known += 1;
                assert_eq!(syscall.number(), num);
                assert_eq!(Syscall::try_from(num), Ok(syscall));
            }
            Err(e) => {
                assert_eq!(e, SeccompError::UnsupportedSyscallID(num));
                assert_eq!(Syscall::try_from(num), Err(SeccompError::UnsupportedSyscallID(num)));
            }
        }
    }
    assert_eq!(known, 347);
}

#[test]
fn numbers_outside_the_table_are_rejected() {
    for num in [-1, 335, 400, 423, 436, i32::MAX, i32::MIN] {
        assert_eq!(
            Syscall::from_number(num),
            Err(SeccompError::UnsupportedSyscallID(num))
        );
    }
    assert_eq!(Syscall::from_number(334), Ok(Syscall::Rseq));
    assert_eq!(Syscall::from_number(424), Ok(Syscall::PidfdSendSignal));
    assert_eq!(Syscall::from_number(0), Ok(Syscall::Read));
    assert_eq!(Syscall::from_number(435), Ok(Syscall::Clone3));
}

#[test]
fn names_of_syscalls() {
    assert_eq!(Syscall::Open.as_str(), "open");
    assert_eq!(Syscall::Close.as_str(), "close");
    assert_eq!(Syscall::Openat.as_str(), "openat");
    assert_eq!(Syscall::Write.as_str(), "write");
    assert_eq!(Syscall::Read.as_str(), "read");
    assert_eq!(Syscall::Mmap.as_str(), "mmap");
    assert_eq!(Syscall::Access.as_str(), "access");
    assert_eq!(Syscall::Fstat.as_str(), "fstat");
    assert_eq!(Syscall::Sigaltstack.as_str(), "sigaltstack");
    assert_eq!(Syscall::RtSigaction.as_str(), "rt_sigaction");
    assert_eq!(Syscall::IoUringEnter.as_str(), "io_uring_enter");
}

#[test]
fn names_are_distinct() {
    let mut names = Vec::new();
    for num in 0..436 {
        if let Ok(syscall) = Syscall::from_number(num) {
            names.push(syscall.as_str());
        }
    }
    let total = names.len();
    names.sort();
    names.dedup();
    assert_eq!(names.len(), total);
}
