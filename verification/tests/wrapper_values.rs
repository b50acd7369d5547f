use restrict::error::IoFailure;
use restrict::policy::Action;
use restrict::registers::x86_64::X86UserRegs;
use restrict::registers::UserRegs;
use restrict::syscall::Syscall;
use restrict::wrapper::ForkResult;
use restrict::wrapper::PtraceWrapper;
use restrict::wrapper::Resume;
use restrict::wrapper::ResumeRequest;
use restrict::wrapper::SeccompWrapper;
use restrict::wrapper::StopKind;
use restrict::SeccompError;

#[test]
fn raw_actions() {
    assert_eq!(Action::Allow.to_raw(), 0x7fff_0000);
    assert_eq!(Action::Kill.to_raw(), 0x8000_0000);
    assert_eq!(Action::Trace.to_raw(), 0x7ff0_0000);
    assert_eq!(Action::Errno(0).to_raw(), 0x0005_0000);
    assert_eq!(Action::Errno(44).to_raw(), 0x0005_002c);
    assert_eq!(Action::Errno(1).to_raw(), 0x0005_0001);
    assert_eq!(Action::Errno(u16::MAX).to_raw(), 0x0005_ffff);
}

#[test]
fn raw_actions_are_distinct() {
    let actions = [
        Action::Allow,
        Action::Kill,
        Action::Trace,
        Action::Errno(0),
        Action::Errno(1),
        Action::Errno(44),
    ];
    for (i, a) in actions.iter().enumerate() {
        for (j, b) in actions.iter().enumerate() {
            assert_eq!(a.to_raw() == b.to_raw(), i == j);
        }
    }
}

#[test]
fn fork_result_pid() {
    assert_eq!(ForkResult::Parent(4321).get_pid(), 4321);
    assert_eq!(ForkResult::Child.get_pid(), 0);
}

#[test]
fn fork_outcomes() {
    assert_eq!(PtraceWrapper::fork(-1), Err(SeccompError::Fork));
    assert_eq!(PtraceWrapper::fork(i32::MIN), Err(SeccompError::Fork));
    assert_eq!(
        PtraceWrapper::fork(0).map(|w| *w.get_process()),
        Ok(ForkResult::Child)
    );
    assert_eq!(
        PtraceWrapper::fork(77).map(|w| *w.get_process()),
        Ok(ForkResult::Parent(77))
    );
    assert_eq!(*PtraceWrapper::with_pid(9).get_process(), ForkResult::Parent(9));
}

#[test]
fn wait_status_kinds() {
    // exited with code 0, and with code 3
    assert_eq!(StopKind::classify(0), StopKind::Terminated);
    assert_eq!(StopKind::classify(3 << 8), StopKind::Terminated);
    // ended by SIGKILL, and by SIGSEGV with a core dump
    assert_eq!(StopKind::classify(9), StopKind::Terminated);
    assert_eq!(StopKind::classify(11 | 0x80), StopKind::Terminated);
    // stopped at a system call boundary: SIGTRAP | 0x80
    assert_eq!(StopKind::classify(0x857f), StopKind::SyscallBoundary);
    // stopped by a filter trap: SIGTRAP with the filter's event code
    assert_eq!(StopKind::classify(0x7057f), StopKind::SeccompTrap);
    // a plain SIGTRAP, a SIGTRAP with another event code, SIGSTOP, SIGCHLD
    assert_eq!(StopKind::classify(0x057f), StopKind::OtherSignal);
    assert_eq!(StopKind::classify(0x4057f), StopKind::OtherSignal);
    assert_eq!(StopKind::classify(0x137f), StopKind::OtherSignal);
    assert_eq!(StopKind::classify(0x117f), StopKind::OtherSignal);
    // continued
    assert_eq!(StopKind::classify(0xffff), StopKind::Running);
}

#[test]
fn wait_for_signal_outcomes() {
    let tracer = PtraceWrapper::with_pid(100);
    let sigstop = 19;
    assert_eq!(tracer.wait_for_signal(sigstop, 100, 0x137f, 0), Ok(()));
    // the wait itself failed
    assert_eq!(
        tracer.wait_for_signal(sigstop, -1, 0x137f, 10),
        Err(IoFailure::Os(10))
    );
    // stopped by another signal
    assert_eq!(
        tracer.wait_for_signal(sigstop, 100, 0x057f, 0),
        Err(IoFailure::UnexpectedSignal)
    );
    // exited, or ended by the very signal that was expected as a stop
    assert_eq!(
        tracer.wait_for_signal(sigstop, 100, 0, 0),
        Err(IoFailure::UnexpectedSignal)
    );
    assert_eq!(
        tracer.wait_for_signal(sigstop, 100, 19, 0),
        Err(IoFailure::UnexpectedSignal)
    );
    assert_eq!(
        SeccompError::from(IoFailure::UnexpectedSignal),
        SeccompError::IO(IoFailure::UnexpectedSignal)
    );
}

#[test]
fn tracer_options() {
    assert_eq!(PtraceWrapper::trace_options(), 0x81);
}

#[test]
fn tracing_primitive_outcomes() {
    let tracer = PtraceWrapper::with_pid(100);
    assert_eq!(tracer.set_traceseccomp_option(0, 0), Ok(&tracer));
    assert_eq!(
        tracer.set_traceseccomp_option(-1, 3),
        Err(SeccompError::PtraceOptionsSet(100, 3))
    );
    let child = PtraceWrapper::fork(0).unwrap();
    assert_eq!(child.enable_tracing(0, 0), Ok(&child));
    assert_eq!(
        child.enable_tracing(-1, 1),
        Err(SeccompError::PtraceSyscall(0, 1))
    );
    assert_eq!(PtraceWrapper::set_registers(100, 0, 0), Ok(()));
    assert_eq!(
        PtraceWrapper::set_registers(100, -1, 3),
        Err(SeccompError::IO(IoFailure::Os(3)))
    );
    assert!(tracer.kill_execution(-1));
    assert!(!tracer.kill_execution(0));
}

#[test]
fn resume_requests() {
    let tracer = PtraceWrapper::with_pid(100);
    assert_eq!(
        tracer.continue_execution(),
        ResumeRequest { pid: 100, resume: Resume::Continue }
    );
    assert_eq!(
        tracer.syscall_trace(),
        ResumeRequest { pid: 100, resume: Resume::SyscallStop }
    );
    assert_eq!(tracer.resume(Resume::Continue), tracer.continue_execution());
    assert_eq!(tracer.resume(Resume::SyscallStop), tracer.syscall_trace());
}

#[test]
fn arming_outcomes() {
    let tracer = PtraceWrapper::with_pid(100);
    assert_eq!(tracer.syscall_trace_outcome(0, 0), Ok(()));
    assert_eq!(tracer.syscall_trace_outcome(0, 3), Ok(()));
    assert_eq!(tracer.syscall_trace_outcome(1, 0), Ok(()));
    // no such process
    assert_eq!(
        tracer.syscall_trace_outcome(-1, 3),
        Err(SeccompError::PtraceSyscall(100, 3))
    );
    assert_eq!(
        PtraceWrapper::with_pid(7).syscall_trace_outcome(-1, 1),
        Err(SeccompError::PtraceSyscall(7, 1))
    );
}

#[test]
fn get_registers_outcomes() {
    let tracer = PtraceWrapper::with_pid(100);
    let mut raw = X86UserRegs::default();
    raw.orig_rax = 39;
    raw.rax = 4321;
    let regs = tracer.get_registers(0, UserRegs::X86_64(raw), 0).unwrap();
    assert_eq!(regs.syscall_number(), 39);
    assert_eq!(regs.return_value(), 4321);
    assert_eq!(regs.into_raw(), UserRegs::X86_64(raw));
    assert_eq!(
        tracer.get_registers(-1, UserRegs::X86_64(raw), 3),
        Err(SeccompError::IO(IoFailure::Os(3)))
    );
}

#[test]
fn filter_compiler_outcomes() {
    assert_eq!(
        SeccompWrapper::init_context(Action::Allow, 0),
        Err(SeccompError::InitContextFailed)
    );
    let ctx = SeccompWrapper::init_context(Action::Kill, 0x1000).unwrap();
    assert_eq!(ctx.context, 0x1000);
    assert_eq!(ctx.default_action, Action::Kill);
    assert_eq!(ctx.add_rule(Action::Allow, Syscall::Read, 0), Ok(()));
    assert_eq!(
        ctx.add_rule(Action::Allow, Syscall::Read, -22),
        Err(SeccompError::AddRuleFailed(Syscall::Read))
    );
    assert_eq!(
        ctx.add_rule(Action::Errno(1), Syscall::Ptrace, 1),
        Err(SeccompError::AddRuleFailed(Syscall::Ptrace))
    );
    assert_eq!(ctx.load(0), Ok(()));
    assert_eq!(ctx.load(-13), Err(SeccompError::LoadError));
    assert_eq!(ctx.load(1), Err(SeccompError::LoadError));
}
