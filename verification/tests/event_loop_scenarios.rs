use restrict::error::IoFailure;
use restrict::event_loop::syscall_id;
use restrict::event_loop::DecodedStop;
use restrict::event_loop::EventLoop;
use restrict::event_loop::LoopCommand;
use restrict::event_loop::LoopEvent;
use restrict::event_loop::Phase;
use restrict::interceptor::Interceptor;
use restrict::policy::Policy;
use restrict::registers::x86_64::X86UserRegs;
use restrict::registers::Registers;
use restrict::registers::UserRegs;
use restrict::syscall::Syscall;
use restrict::wrapper::PtraceWrapper;
use restrict::wrapper::Resume;
use restrict::SeccompError;
use restrict::TraceAction;
use std::cell::Cell;
use std::cell::RefCell;
use std::rc::Rc;

type Tracer = Box<dyn Fn(Syscall) -> TraceAction>;
type Hook = Box<dyn Fn(Interceptor) -> TraceAction>;
type Tracee = Rc<RefCell<X86UserRegs>>;

const CONTEXT: usize = 0x5eed;
const CHILD: i32 = 4321;

/// Wait statuses: a stop at a system call boundary, a filter trap, a stop on
/// SIGCHLD, a normal exit, an end by SIGKILL.
const BOUNDARY: i32 = 0x857f;
const TRAP: i32 = 0x7057f;
const SIGCHLD_STOP: i32 = 0x117f;
const EXITED: i32 = 0;
const KILLED: i32 = 9;

fn tracee_in(syscall: Syscall) -> Tracee {
    let mut regs = X86UserRegs::default();
    regs.orig_rax = syscall.number() as u64;
    Rc::new(RefCell::new(regs))
}

fn waited(status: i32) -> LoopEvent {
    LoopEvent::Waited { ret: CHILD, status, os_error: 0 }
}

fn snapshot(tracee: &Tracee) -> LoopEvent {
    let raw = UserRegs::X86_64(*tracee.borrow());
    LoopEvent::Registers(PtraceWrapper::with_pid(CHILD).get_registers(0, raw, 0))
}

/// A handler's commit, carried out on the stand-in for the tracee.
fn write_back(tracee: &Tracee, interceptor: &Interceptor) {
    let write = interceptor.commit_regs();
    assert_eq!(write.child_pid, CHILD);
    match write.registers {
        UserRegs::X86_64(regs) => *tracee.borrow_mut() = regs,
        UserRegs::Aarch64(_) => panic!("layout changed"),
    }
}

/// Drives the loop as a supervisor does: carries out each command and reports
/// its outcome, with `statuses` as what the waits report in turn. Returns the
/// commands in the order in which they were given.
fn drive(
    machine: &mut EventLoop<Tracer, Hook>,
    tracee: &Tracee,
    statuses: &[i32],
) -> Vec<LoopCommand> {
    let mut given = Vec::new();
    let mut next = 0;
    let mut command = LoopCommand::Wait;
    loop {
        let event = match &command {
            LoopCommand::Wait | LoopCommand::Resume(_) => {
                if next == statuses.len() {
                    return given;
                }
                next += 1;
                waited(statuses[next - 1])
            }
            LoopCommand::ReadRegisters => snapshot(tracee),
            LoopCommand::RunTracer { index, syscall } => {
                let handler = machine.trace_map.handler_at(*index).unwrap();
                LoopEvent::Verdict(handler(*syscall))
            }
            LoopCommand::RunEntryInterceptor { index, interceptor } => {
                let handler = machine.intercept_map.handler_at(*index).unwrap();
                LoopEvent::Verdict(handler(interceptor.clone()))
            }
            LoopCommand::RunExitInterceptor { index, interceptor } => {
                let handler = machine.post_intercept_map.handler_at(*index).unwrap();
                LoopEvent::Verdict(handler(interceptor.clone()))
            }
            LoopCommand::Kill { .. } | LoopCommand::Finish => return given,
        };
        command = machine.step(event).unwrap();
        given.push(command.clone());
    }
}

fn machine_of(policy: &mut Policy<Tracer, Hook>) -> EventLoop<Tracer, Hook> {
    policy.apply().unwrap().into_event_loop(CHILD)
}

#[test]
fn untouched_syscall_runs_unmodified() {
    let mut policy = Policy::<Tracer, Hook>::allow_all(CONTEXT).unwrap();
    policy.exit_intercept(
        Syscall::Getpid,
        Box::new(|_| panic!("no handler is for this system call")),
    );
    let mut machine = machine_of(&mut policy);
    let tracee = tracee_in(Syscall::Getuid);
    tracee.borrow_mut().rax = 1000;
    let before = *tracee.borrow();
    let given = drive(&mut machine, &tracee, &[BOUNDARY, BOUNDARY, EXITED]);
    assert_eq!(
        given,
        vec![
            LoopCommand::Resume(Resume::SyscallStop),
            LoopCommand::ReadRegisters,
            LoopCommand::Resume(Resume::SyscallStop),
            LoopCommand::Finish,
        ]
    );
    assert_eq!(*tracee.borrow(), before);
}

#[test]
fn test_trace_interception() {
    let seen = Rc::new(RefCell::new(Vec::new()));
    let log = seen.clone();
    let mut policy = Policy::<Tracer, Hook>::allow_all(CONTEXT).unwrap();
    policy.trace(
        Syscall::Openat,
        Box::new(move |syscall| {
            log.borrow_mut().push(syscall);
            TraceAction::Continue
        }),
    );
    let mut machine = machine_of(&mut policy);
    let tracee = tracee_in(Syscall::Openat);
    let given = drive(&mut machine, &tracee, &[TRAP, EXITED]);
    assert_eq!(
        given,
        vec![
            LoopCommand::ReadRegisters,
            LoopCommand::RunTracer { index: 0, syscall: Syscall::Openat },
            LoopCommand::Resume(Resume::Continue),
            LoopCommand::Finish,
        ]
    );
    assert_eq!(*seen.borrow(), vec![Syscall::Openat]);
}

#[test]
fn entry_interceptor_truncates_a_write() {
    let write_fd = 7;
    let tracee = tracee_in(Syscall::Write);
    tracee.borrow_mut().rdi = write_fd;
    tracee.borrow_mut().rdx = 68;
    let target = tracee.clone();
    let mut policy = Policy::<Tracer, Hook>::allow_all(CONTEXT).unwrap();
    policy.entry_intercept(
        Syscall::Write,
        Box::new(move |mut interceptor| {
            if interceptor.registers.get("rdi").unwrap() == write_fd {
                interceptor.registers.set("rdx", 12).unwrap();
                write_back(&target, &interceptor);
            }
            TraceAction::Continue
        }),
    );
    let mut machine = machine_of(&mut policy);
    let given = drive(&mut machine, &tracee, &[TRAP]);
    assert_eq!(given.len(), 3);
    assert_eq!(given[0], LoopCommand::ReadRegisters);
    assert!(matches!(given[1], LoopCommand::RunEntryInterceptor { index: 0, .. }));
    // the write goes on, with a stop at its exit
    assert_eq!(given[2], LoopCommand::Resume(Resume::SyscallStop));
    assert_eq!(tracee.borrow().rdx, 12);
    assert_eq!(tracee.borrow().rdi, write_fd);
    assert_eq!(tracee.borrow().orig_rax, 1);

    // a write to another descriptor keeps its length
    tracee.borrow_mut().rdi = 8;
    tracee.borrow_mut().rdx = 68;
    drive(&mut machine, &tracee, &[TRAP]);
    assert_eq!(tracee.borrow().rdx, 68);
}

#[test]
fn exit_interceptor_fakes_the_pid() {
    let tracee = tracee_in(Syscall::Getpid);
    let target = tracee.clone();
    let mut policy = Policy::<Tracer, Hook>::allow_all(CONTEXT).unwrap();
    policy.exit_intercept(
        Syscall::Getpid,
        Box::new(move |mut interceptor| {
            interceptor.registers.set_return_value(56);
            write_back(&target, &interceptor);
            TraceAction::Continue
        }),
    );
    let mut machine = machine_of(&mut policy);
    // entry boundary, filter trap, then the kernel runs getpid
    let given = drive(&mut machine, &tracee, &[BOUNDARY, TRAP]);
    assert_eq!(
        given,
        vec![
            LoopCommand::Resume(Resume::SyscallStop),
            LoopCommand::ReadRegisters,
            LoopCommand::Resume(Resume::SyscallStop),
        ]
    );
    tracee.borrow_mut().rax = CHILD as u64;
    // exit boundary: the interceptor sees the real result and replaces it
    let given = drive(&mut machine, &tracee, &[BOUNDARY]);
    assert_eq!(given.len(), 3);
    assert_eq!(given[0], LoopCommand::ReadRegisters);
    match &given[1] {
        LoopCommand::RunExitInterceptor { index, interceptor } => {
            assert_eq!(*index, 0);
            assert_eq!(interceptor.syscall, Syscall::Getpid);
            assert_eq!(interceptor.child_pid, CHILD);
            assert_eq!(interceptor.registers.return_value(), CHILD as u64);
        }
        other => panic!("unexpected command {:?}", other),
    }
    assert_eq!(given[2], LoopCommand::Resume(Resume::SyscallStop));
    assert_eq!(tracee.borrow().rax, 56);
    assert!(!machine.in_syscall);
}

#[test]
fn trace_handler_counts_every_write() {
    let count = Rc::new(Cell::new(0usize));
    let counter = count.clone();
    let mut policy = Policy::<Tracer, Hook>::allow_all(CONTEXT).unwrap();
    policy.trace(
        Syscall::Write,
        Box::new(move |_| {
            counter.set(counter.get() + 1);
            TraceAction::Continue
        }),
    );
    let mut machine = machine_of(&mut policy);
    let tracee = tracee_in(Syscall::Write);
    // four writes, and the write that reports the count
    let given = drive(&mut machine, &tracee, &[TRAP, TRAP, TRAP, TRAP, TRAP, EXITED]);
    assert_eq!(count.get(), 5);
    assert_eq!(given.len(), 16);
    for write in given[..15].chunks(3) {
        assert_eq!(
            write,
            [
                LoopCommand::ReadRegisters,
                LoopCommand::RunTracer { index: 0, syscall: Syscall::Write },
                LoopCommand::Resume(Resume::Continue),
            ]
        );
    }
    assert_eq!(given[15], LoopCommand::Finish);
    assert!(machine.is_finished());
}

#[test]
fn trace_handler_runs_once_per_trap() {
    for n in 0..10usize {
        let count = Rc::new(Cell::new(0usize));
        let counter = count.clone();
        let mut policy = Policy::<Tracer, Hook>::allow_all(CONTEXT).unwrap();
        policy
            .trace(
                Syscall::Write,
                Box::new(move |syscall| {
                    assert_eq!(syscall, Syscall::Write);
                    counter.set(counter.get() + 1);
                    TraceAction::Continue
                }),
            )
            .trace(Syscall::Read, Box::new(|_| panic!("the tracee does not read")));
        let mut machine = machine_of(&mut policy);
        let tracee = tracee_in(Syscall::Write);
        let mut statuses = vec![TRAP; n];
        statuses.push(EXITED);
        let given = drive(&mut machine, &tracee, &statuses);
        assert_eq!(count.get(), n);
        assert_eq!(given.len(), 3 * n + 1);
        let runs = given
            .iter()
            .filter(|command| matches!(command, LoopCommand::RunTracer { .. }))
            .count();
        assert_eq!(runs, n);
        assert_eq!(given[3 * n], LoopCommand::Finish);
        assert!(machine.is_finished());
    }
}

#[test]
fn trace_handler_does_not_run_at_boundaries() {
    let mut policy = Policy::<Tracer, Hook>::allow_all(CONTEXT).unwrap();
    policy.trace(Syscall::Write, Box::new(|_| panic!("no trap was reported")));
    let mut machine = machine_of(&mut policy);
    let tracee = tracee_in(Syscall::Write);
    let given = drive(&mut machine, &tracee, &[BOUNDARY, BOUNDARY, BOUNDARY, BOUNDARY, EXITED]);
    assert_eq!(
        given,
        vec![
            LoopCommand::Resume(Resume::SyscallStop),
            LoopCommand::ReadRegisters,
            LoopCommand::Resume(Resume::SyscallStop),
            LoopCommand::Resume(Resume::SyscallStop),
            LoopCommand::ReadRegisters,
            LoopCommand::Resume(Resume::SyscallStop),
            LoopCommand::Finish,
        ]
    );
}

#[test]
fn trace_handler_runs_before_the_entry_interceptor() {
    let order = Rc::new(RefCell::new(Vec::new()));
    let (first, second) = (order.clone(), order.clone());
    let mut policy = Policy::<Tracer, Hook>::allow_all(CONTEXT).unwrap();
    policy
        .entry_intercept(
            Syscall::Write,
            Box::new(move |_| {
                second.borrow_mut().push("interceptor");
                TraceAction::Continue
            }),
        )
        .trace(
            Syscall::Write,
            Box::new(move |_| {
                first.borrow_mut().push("tracer");
                TraceAction::Continue
            }),
        );
    let mut machine = machine_of(&mut policy);
    let tracee = tracee_in(Syscall::Write);
    let given = drive(&mut machine, &tracee, &[TRAP]);
    assert_eq!(*order.borrow(), vec!["tracer", "interceptor"]);
    assert_eq!(given.len(), 4);
    assert_eq!(given[3], LoopCommand::Resume(Resume::Continue));
}

#[test]
fn only_the_first_handler_for_a_syscall_runs() {
    let ran = Rc::new(RefCell::new(Vec::new()));
    let (a, b) = (ran.clone(), ran.clone());
    let mut policy = Policy::<Tracer, Hook>::allow_all(CONTEXT).unwrap();
    policy
        .trace(
            Syscall::Write,
            Box::new(move |_| {
                a.borrow_mut().push("first");
                TraceAction::Continue
            }),
        )
        .trace(
            Syscall::Write,
            Box::new(move |_| {
                b.borrow_mut().push("second");
                TraceAction::Kill
            }),
        );
    let mut machine = machine_of(&mut policy);
    let tracee = tracee_in(Syscall::Write);
    drive(&mut machine, &tracee, &[TRAP, TRAP]);
    assert_eq!(*ran.borrow(), vec!["first", "first"]);
}

#[test]
fn kill_verdicts_end_the_loop() {
    // from a trace handler
    let mut policy = Policy::<Tracer, Hook>::allow_all(CONTEXT).unwrap();
    policy
        .trace(Syscall::Write, Box::new(|_| TraceAction::Kill))
        .entry_intercept(Syscall::Write, Box::new(|_| panic!("the tracee is dead")));
    let mut machine = machine_of(&mut policy);
    let given = drive(&mut machine, &tracee_in(Syscall::Write), &[TRAP, TRAP]);
    assert_eq!(given.last(), Some(&LoopCommand::Kill { signal: 9, exit_code: 9 }));
    assert_eq!(given.len(), 3);
    assert!(machine.is_finished());

    // from an entry interceptor
    let mut policy = Policy::<Tracer, Hook>::allow_all(CONTEXT).unwrap();
    policy.entry_intercept(Syscall::Write, Box::new(|_| TraceAction::Kill));
    let mut machine = machine_of(&mut policy);
    let given = drive(&mut machine, &tracee_in(Syscall::Write), &[TRAP, TRAP]);
    assert_eq!(given.last(), Some(&LoopCommand::Kill { signal: 9, exit_code: 9 }));
    assert!(machine.is_finished());

    // from an exit interceptor
    let mut policy = Policy::<Tracer, Hook>::allow_all(CONTEXT).unwrap();
    policy.exit_intercept(Syscall::Write, Box::new(|_| TraceAction::Kill));
    let mut machine = machine_of(&mut policy);
    let given = drive(&mut machine, &tracee_in(Syscall::Write), &[BOUNDARY, BOUNDARY, EXITED]);
    assert_eq!(
        given,
        vec![
            LoopCommand::Resume(Resume::SyscallStop),
            LoopCommand::ReadRegisters,
            LoopCommand::RunExitInterceptor {
                index: 0,
                interceptor: Interceptor::new(
                    Syscall::Write,
                    Registers::from_raw(UserRegs::X86_64(*tracee_in(Syscall::Write).borrow())),
                    CHILD,
                ),
            },
            LoopCommand::Kill { signal: 9, exit_code: 9 },
        ]
    );
    assert!(machine.is_finished());
}

#[test]
fn entry_interceptor_verdicts_choose_the_resume() {
    for (verdict, resume) in [
        (TraceAction::Continue, Resume::SyscallStop),
        (TraceAction::SkipExit, Resume::Continue),
    ] {
        let mut policy = Policy::<Tracer, Hook>::allow_all(CONTEXT).unwrap();
        policy.entry_intercept(Syscall::Write, Box::new(move |_| verdict));
        let mut machine = machine_of(&mut policy);
        let given = drive(&mut machine, &tracee_in(Syscall::Write), &[TRAP]);
        assert_eq!(given.last(), Some(&LoopCommand::Resume(resume)));
    }
    // after a trace handler the system call runs on without a stop at its exit
    for verdict in [TraceAction::Continue, TraceAction::SkipExit] {
        let mut policy = Policy::<Tracer, Hook>::allow_all(CONTEXT).unwrap();
        policy
            .trace(Syscall::Write, Box::new(|_| TraceAction::SkipExit))
            .entry_intercept(Syscall::Write, Box::new(move |_| verdict));
        let mut machine = machine_of(&mut policy);
        let given = drive(&mut machine, &tracee_in(Syscall::Write), &[TRAP]);
        assert_eq!(given.last(), Some(&LoopCommand::Resume(Resume::Continue)));
    }
}

#[test]
fn boundaries_alternate_between_entry_and_exit() {
    let exits = Rc::new(Cell::new(0));
    let counter = exits.clone();
    let mut policy = Policy::<Tracer, Hook>::allow_all(CONTEXT).unwrap();
    policy.exit_intercept(
        Syscall::Read,
        Box::new(move |_| {
            counter.set(counter.get() + 1);
            TraceAction::Continue
        }),
    );
    let mut machine = machine_of(&mut policy);
    let tracee = tracee_in(Syscall::Read);
    let mut flags = Vec::new();
    for _ in 0..6 {
        drive(&mut machine, &tracee, &[BOUNDARY]);
        flags.push(machine.in_syscall);
    }
    assert_eq!(flags, vec![true, false, true, false, true, false]);
    assert_eq!(exits.get(), 3);
    // other stops leave the flag alone
    drive(&mut machine, &tracee, &[BOUNDARY, SIGCHLD_STOP, TRAP, 0xffff]);
    assert!(machine.in_syscall);
}

#[test]
fn other_signals_resume_tracing() {
    let mut policy = Policy::<Tracer, Hook>::allow_all(CONTEXT).unwrap();
    policy.trace(Syscall::Write, Box::new(|_| TraceAction::Continue));
    let mut machine = machine_of(&mut policy);
    let given = drive(&mut machine, &tracee_in(Syscall::Write), &[SIGCHLD_STOP, 0x057f, 0xffff, KILLED]);
    assert_eq!(
        given,
        vec![
            LoopCommand::Resume(Resume::SyscallStop),
            LoopCommand::Resume(Resume::SyscallStop),
            LoopCommand::Wait,
            LoopCommand::Finish,
        ]
    );
}

#[test]
fn failed_waits() {
    let mut policy = Policy::<Tracer, Hook>::allow_all(CONTEXT).unwrap();
    policy.trace(Syscall::Write, Box::new(|_| TraceAction::Continue));
    // the tracee is gone: the loop is over
    let mut machine = machine_of(&mut policy);
    let gone = LoopEvent::Waited { ret: -1, status: 0, os_error: 10 };
    assert_eq!(machine.step(gone), Ok(LoopCommand::Finish));
    assert!(machine.is_finished());
    // any other failure is an error
    let mut policy = Policy::<Tracer, Hook>::allow_all(CONTEXT).unwrap();
    policy.trace(Syscall::Write, Box::new(|_| TraceAction::Continue));
    let mut machine = machine_of(&mut policy);
    let failed = LoopEvent::Waited { ret: -1, status: BOUNDARY, os_error: 4 };
    assert_eq!(machine.step(failed), Err(SeccompError::IO(IoFailure::Os(4))));
    assert!(machine.is_finished());
    assert!(!machine.in_syscall);
}

#[test]
fn unknown_syscall_numbers_are_reported() {
    let mut policy = Policy::<Tracer, Hook>::allow_all(CONTEXT).unwrap();
    policy.trace(Syscall::Write, Box::new(|_| TraceAction::Continue));
    let mut machine = machine_of(&mut policy);
    let tracee = tracee_in(Syscall::Write);
    for (raw, id) in [(335u64, 335), (u64::MAX, -1), (0x8000_0000, i32::MIN), (1000, 1000)] {
        tracee.borrow_mut().orig_rax = raw;
        assert_eq!(machine.step(waited(TRAP)), Ok(LoopCommand::ReadRegisters));
        assert_eq!(
            machine.step(snapshot(&tracee)),
            Err(SeccompError::UnsupportedSyscallID(id))
        );
        // the loop goes on waiting
        assert_eq!(machine.phase, Phase::Waiting);
    }
    // only the low half of the register names the system call
    tracee.borrow_mut().orig_rax = 0x1_0000_0001;
    assert_eq!(machine.step(waited(TRAP)), Ok(LoopCommand::ReadRegisters));
    assert_eq!(
        machine.step(snapshot(&tracee)),
        Ok(LoopCommand::RunTracer { index: 0, syscall: Syscall::Write })
    );
}

#[test]
fn syscall_ids() {
    assert_eq!(syscall_id(0), 0);
    assert_eq!(syscall_id(257), 257);
    assert_eq!(syscall_id(0x7fff_ffff), i32::MAX);
    assert_eq!(syscall_id(0x8000_0000), i32::MIN);
    assert_eq!(syscall_id(0xffff_ffff), -1);
    assert_eq!(syscall_id(u64::MAX), -1);
    assert_eq!(syscall_id(0x1_0000_0000), 0);
    assert_eq!(syscall_id(0xabcd_0000_0000_0027), 39);
    for raw in [0u64, 1, 334, 0x7fff_ffff, 0x8000_0000, 0xffff_fffe, u64::MAX, 0x1234_5678_9abc_def0] {
        assert_eq!(syscall_id(raw), raw as i32);
    }
}

#[test]
fn unreadable_registers_are_reported() {
    let mut policy = Policy::<Tracer, Hook>::allow_all(CONTEXT).unwrap();
    policy.trace(Syscall::Write, Box::new(|_| TraceAction::Continue));
    let mut machine = machine_of(&mut policy);
    assert_eq!(machine.step(waited(TRAP)), Ok(LoopCommand::ReadRegisters));
    assert_eq!(machine.phase, Phase::ReadingRegisters(DecodedStop::SeccompTrap));
    let raw = UserRegs::X86_64(X86UserRegs::default());
    let unreadable = PtraceWrapper::with_pid(CHILD).get_registers(-1, raw, 3);
    assert_eq!(
        machine.step(LoopEvent::Registers(unreadable)),
        Err(SeccompError::IO(IoFailure::Os(3)))
    );
    assert_eq!(machine.phase, Phase::Waiting);
}

#[test]
fn events_out_of_turn_change_nothing() {
    let mut policy = Policy::<Tracer, Hook>::allow_all(CONTEXT).unwrap();
    policy.trace(Syscall::Write, Box::new(|_| TraceAction::Continue));
    let mut machine = machine_of(&mut policy);
    let tracee = tracee_in(Syscall::Write);
    // a verdict and registers while waiting
    assert_eq!(
        machine.step(LoopEvent::Verdict(TraceAction::Kill)),
        Err(SeccompError::Unknown)
    );
    assert_eq!(machine.step(snapshot(&tracee)), Err(SeccompError::Unknown));
    assert_eq!(machine.phase, Phase::Waiting);
    // a wait while registers are due
    assert_eq!(machine.step(waited(TRAP)), Ok(LoopCommand::ReadRegisters));
    assert_eq!(machine.step(waited(BOUNDARY)), Err(SeccompError::Unknown));
    assert_eq!(machine.phase, Phase::ReadingRegisters(DecodedStop::SeccompTrap));
    assert!(!machine.in_syscall);
    // a wait while a verdict is due
    assert!(machine.step(snapshot(&tracee)).is_ok());
    assert_eq!(machine.step(waited(EXITED)), Err(SeccompError::Unknown));
    assert!(matches!(machine.phase, Phase::Tracing { syscall: Syscall::Write, .. }));
    // anything once the loop is over
    assert_eq!(
        machine.step(LoopEvent::Verdict(TraceAction::Kill)),
        Ok(LoopCommand::Kill { signal: 9, exit_code: 9 })
    );
    assert_eq!(machine.step(waited(EXITED)), Err(SeccompError::Unknown));
    assert_eq!(
        machine.step(LoopEvent::Verdict(TraceAction::Continue)),
        Err(SeccompError::Unknown)
    );
    assert!(machine.is_finished());
}
