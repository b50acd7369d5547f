use restrict::filter::intercept::InterceptorFilter;
use restrict::filter::intercept::InterceptorMap;
use restrict::filter::seccomp::SeccompFilter;
use restrict::filter::tracer::TracerFilter;
use restrict::filter::tracer::TracerMap;
use restrict::filter::RestrictFilter;
use restrict::policy::Action;
use restrict::policy::Policy;
use restrict::policy::SetupStep;
use restrict::syscall::Syscall;
use restrict::tracer::TracingHandle;
use restrict::wrapper::SeccompWrapper;
use restrict::SeccompError;

type Label = &'static str;

const CONTEXT: usize = 0x5eed;

fn trap(syscall: Syscall) -> SetupStep {
    SetupStep::AddRule(SeccompFilter::new(syscall, Action::Trace))
}

#[test]
fn plan_without_handlers_adds_rules_and_loads() {
    let mut policy = Policy::<Label, Label>::allow_all(CONTEXT).unwrap();
    policy.deny(Syscall::Write).unwrap().fail_with(Syscall::Openat, 44);
    let plan = policy.apply().unwrap();
    assert_eq!(
        plan.context,
        SeccompWrapper { context: CONTEXT, default_action: Action::Allow }
    );
    assert_eq!(
        plan.setup,
        vec![
            SetupStep::AddRule(SeccompFilter::new(Syscall::Write, Action::Kill)),
            SetupStep::AddRule(SeccompFilter::new(Syscall::Openat, Action::Errno(44))),
            SetupStep::LoadFilter,
        ]
    );
    assert!(plan.child.is_empty());
    assert!(plan.parent.is_empty());
    assert!(!plan.is_supervised());
    assert_eq!(plan.trace_map.len(), 0);
    assert_eq!(plan.intercept_map.len(), 0);
    assert_eq!(plan.post_intercept_map.len(), 0);
}

#[test]
fn plan_of_an_empty_policy_only_loads() {
    let mut policy = Policy::<Label, Label>::deny_all(CONTEXT).unwrap();
    let plan = policy.apply().unwrap();
    assert_eq!(plan.context.default_action, Action::Kill);
    assert_eq!(plan.setup, vec![SetupStep::LoadFilter]);
    assert!(!plan.is_supervised());
}

#[test]
fn deny_compiles_to_a_kill_rule() {
    let mut policy = Policy::<Label, Label>::allow_all(CONTEXT).unwrap();
    policy.deny(Syscall::Write).unwrap();
    let plan = policy.apply().unwrap();
    match plan.setup[0] {
        SetupStep::AddRule(rule) => {
            assert_eq!(rule.syscall(), Syscall::Write);
            assert_eq!(rule.action(), Action::Kill);
            assert_eq!(rule.syscall().number(), 1);
            assert_eq!(rule.action().to_raw(), 0x8000_0000);
        }
        other => panic!("unexpected step {:?}", other),
    }
}

#[test]
fn fail_with_compiles_to_the_error_code() {
    let mut policy = Policy::<Label, Label>::allow_all(CONTEXT).unwrap();
    policy.fail_with(Syscall::Openat, 44);
    let plan = policy.apply().unwrap();
    match plan.setup[0] {
        SetupStep::AddRule(rule) => {
            assert_eq!(rule.syscall(), Syscall::Openat);
            assert_eq!(rule.action(), Action::Errno(44));
            assert_eq!(rule.syscall().number(), 257);
            assert_eq!(rule.action().to_raw(), 0x0005_0000 | 44);
        }
        other => panic!("unexpected step {:?}", other),
    }
}

#[test]
fn plan_with_handlers_forks_and_orders_the_handshake() {
    let mut policy = Policy::<Label, Label>::allow_all(CONTEXT).unwrap();
    policy
        .entry_intercept(Syscall::Write, "entry write")
        .fail_with(Syscall::Ptrace, 1)
        .trace(Syscall::Openat, "trace openat")
        .exit_intercept(Syscall::Getpid, "exit getpid")
        .trace(Syscall::Write, "trace write")
        .deny(Syscall::Mknod)
        .unwrap();
    assert!(policy.is_traced());
    let plan = policy.apply().unwrap();
    assert!(plan.is_supervised());
    assert_eq!(
        plan.setup,
        vec![
            SetupStep::AddRule(SeccompFilter::new(Syscall::Ptrace, Action::Errno(1))),
            SetupStep::AddRule(SeccompFilter::new(Syscall::Mknod, Action::Kill)),
            SetupStep::Fork,
        ]
    );
    // trace handlers first, then exit interceptors, then entry interceptors;
    // the stop comes after the last rule and before the load
    assert_eq!(
        plan.child,
        vec![
            SetupStep::EnableTracing,
            trap(Syscall::Openat),
            trap(Syscall::Write),
            trap(Syscall::Getpid),
            trap(Syscall::Write),
            SetupStep::RaiseStop(19),
            SetupStep::LoadFilter,
        ]
    );
    assert_eq!(
        plan.parent,
        vec![
            SetupStep::AwaitStop(19),
            SetupStep::SetTraceOptions(0x81),
            SetupStep::ArmSyscallTrace,
            SetupStep::RunEventLoop,
            SetupStep::ExitSupervisor(0),
        ]
    );
    assert_eq!(plan.trace_map.0, vec![(Syscall::Openat, "trace openat"), (Syscall::Write, "trace write")]);
    assert_eq!(plan.intercept_map.0, vec![(Syscall::Write, "entry write")]);
    assert_eq!(plan.post_intercept_map.0, vec![(Syscall::Getpid, "exit getpid")]);
}

#[test]
fn second_apply_fails_with_empty_context() {
    let mut policy = Policy::<Label, Label>::allow_all(CONTEXT).unwrap();
    policy.deny(Syscall::Write).unwrap();
    assert!(policy.apply().is_ok());
    assert!(matches!(policy.apply(), Err(SeccompError::EmptyContext)));
    assert!(matches!(policy.apply(), Err(SeccompError::EmptyContext)));
    assert_eq!(policy.rules_len(), 1);

    let mut policy = Policy::<Label, Label>::deny_all(CONTEXT).unwrap();
    policy.trace(Syscall::Write, "trace write");
    assert!(policy.apply().is_ok());
    assert!(matches!(policy.apply(), Err(SeccompError::EmptyContext)));
    // the handlers went with the first plan
    assert!(!policy.is_traced());
}

#[test]
fn plan_hands_its_handlers_to_the_event_loop() {
    let mut policy = Policy::<Label, Label>::allow_all(CONTEXT).unwrap();
    policy
        .trace(Syscall::Write, "trace write")
        .entry_intercept(Syscall::Read, "entry read")
        .exit_intercept(Syscall::Getpid, "exit getpid");
    let machine = policy.apply().unwrap().into_event_loop(4321);
    assert_eq!(machine.child, 4321);
    assert!(!machine.in_syscall);
    assert!(!machine.is_finished());
    assert_eq!(machine.trace_map.find_by_syscall(Syscall::Write), Some(&"trace write"));
    assert_eq!(machine.intercept_map.find_by_syscall(Syscall::Read), Some(&"entry read"));
    assert_eq!(
        machine.post_intercept_map.find_by_syscall(Syscall::Getpid),
        Some(&"exit getpid")
    );
    assert_eq!(machine.trace_map.find_by_syscall(Syscall::Read), None);
}

#[test]
fn spawn_traced_reads_the_fork() {
    let mut policy = Policy::<Label, Label>::allow_all(CONTEXT).unwrap();
    assert_eq!(policy.spawn_traced(-1), Err(SeccompError::Fork));
    assert_eq!(policy.spawn_traced(0), Ok(TracingHandle::Child));
    assert_eq!(
        policy.spawn_traced(4321),
        Ok(TracingHandle::Parent { child_pid: 4321 })
    );
}

#[test]
fn filters_compile_to_their_rules() {
    let rule = SeccompFilter::new(Syscall::Read, Action::Errno(5));
    assert_eq!(rule.apply(), rule);
    let tracer = TracerFilter::new(Syscall::Write, "t");
    assert_eq!(tracer.syscall(), Syscall::Write);
    assert_eq!(tracer.apply(), SeccompFilter::new(Syscall::Write, Action::Trace));
    assert_eq!(tracer.to_map(), (Syscall::Write, "t"));
    let hook = InterceptorFilter::new(Syscall::Getpid, "h");
    assert_eq!(hook.syscall(), Syscall::Getpid);
    assert_eq!(hook.apply(), SeccompFilter::new(Syscall::Getpid, Action::Trace));
    assert_eq!(hook.to_map(), (Syscall::Getpid, "h"));
}

#[test]
fn lookup_finds_the_first_handler_registered() {
    let map = TracerMap::from(vec![
        TracerFilter::new(Syscall::Write, "first"),
        TracerFilter::new(Syscall::Read, "read"),
        TracerFilter::new(Syscall::Write, "second"),
    ]);
    assert_eq!(map.len(), 3);
    assert_eq!(map.find_by_syscall(Syscall::Write), Some(&"first"));
    assert_eq!(map.position(Syscall::Write), Some(0));
    assert_eq!(map.find_by_syscall(Syscall::Read), Some(&"read"));
    assert_eq!(map.position(Syscall::Read), Some(1));
    assert_eq!(map.find_by_syscall(Syscall::Open), None);
    assert_eq!(map.position(Syscall::Open), None);
    assert_eq!(map.handler_at(2), Some(&"second"));
    assert_eq!(map.handler_at(3), None);

    let map = InterceptorMap::from(vec![
        InterceptorFilter::new(Syscall::Getpid, 1),
        InterceptorFilter::new(Syscall::Getpid, 2),
    ]);
    assert_eq!(map.find_by_syscall(Syscall::Getpid), Some(&1));
    assert_eq!(map.position(Syscall::Getpid), Some(0));
    assert_eq!(map.find_by_syscall(Syscall::Getuid), None);
    assert_eq!(map.handler_at(1), Some(&2));

    let empty: TracerMap<u8> = TracerMap::from(Vec::new());
    assert_eq!(empty.len(), 0);
    assert_eq!(empty.find_by_syscall(Syscall::Write), None);
}
