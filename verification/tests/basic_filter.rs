use restrict::interceptor::Interceptor;
use restrict::policy::Policy;
use restrict::syscall::Syscall;
use restrict::SeccompError;
use restrict::TraceAction;

type Tracer = fn(Syscall) -> TraceAction;
type Hook = fn(Interceptor) -> TraceAction;

/// A handle as the filter compiler gives it out; the policy only carries it.
const CONTEXT: usize = 0x5eed;

#[test]
fn test_create_policy_with_default_action_allow() {
    let policy = Policy::<Tracer, Hook>::allow_all(CONTEXT);
    assert!(policy.is_ok(), "Allow all policy creation failed");
}

#[test]
fn test_create_policy_with_default_action_deny() {
    let policy = Policy::<Tracer, Hook>::deny_all(CONTEXT);
    assert!(policy.is_ok(), "Deny all policy creation failed");
}

#[test]
fn test_redundunt_allow_policy() {
    let mut policy = Policy::<Tracer, Hook>::allow_all(CONTEXT).unwrap();
    let result = policy.allow(Syscall::Read);

    match result {
        Err(SeccompError::RedundantAllowRule(Syscall::Read)) => {}
        _ => panic!("Expected RedundantAllowRule for Syscall::Read"),
    }
}

#[test]
fn test_redundunt_deny_policy() {
    let mut policy = Policy::<Tracer, Hook>::deny_all(CONTEXT).unwrap();
    let result = policy.deny(Syscall::Read);

    match result {
        Err(SeccompError::RedundantDenyRule(Syscall::Read)) => {}
        _ => panic!("Expected RedundantDenyRule for Syscall::Read"),
    }
}

#[test]
fn test_policy_rules() {
    let mut policy = Policy::<Tracer, Hook>::deny_all(CONTEXT).unwrap();
    let result = policy
        .allow(Syscall::Read)
        .unwrap()
        .allow(Syscall::Mknod)
        .unwrap()
        .allow(Syscall::Iopl)
        .unwrap();

    assert_eq!(
        result.rules_len(),
        3,
        "Policy should not have conflicting default rules"
    );
}

#[test]
fn test_policy_rules_deny() {
    let mut policy = Policy::<Tracer, Hook>::allow_all(CONTEXT).unwrap();
    let result = policy
        .deny(Syscall::Read)
        .unwrap()
        .deny(Syscall::Mknod)
        .unwrap()
        .deny(Syscall::Iopl)
        .unwrap();

    assert_eq!(
        result.rules_len(),
        3,
        "Policy should not have conflicting default rules"
    );
}

#[test]
fn policy_creation_fails_without_a_context() {
    let allow = Policy::<Tracer, Hook>::allow_all(0);
    assert!(matches!(allow, Err(SeccompError::InitContextFailed)));
    let deny = Policy::<Tracer, Hook>::deny_all(0);
    assert!(matches!(deny, Err(SeccompError::InitContextFailed)));
}

#[test]
fn redundant_rule_leaves_the_policy_unchanged() {
    let mut policy = Policy::<Tracer, Hook>::allow_all(CONTEXT).unwrap();
    policy.deny(Syscall::Write).unwrap();
    assert!(policy.allow(Syscall::Read).is_err());
    assert_eq!(policy.rules_len(), 1);
    let mut policy = Policy::<Tracer, Hook>::deny_all(CONTEXT).unwrap();
    policy.allow(Syscall::Write).unwrap();
    assert!(policy.deny(Syscall::Read).is_err());
    assert_eq!(policy.rules_len(), 1);
}

#[test]
fn allow_and_deny_of_the_other_kind_are_accepted() {
    let mut policy = Policy::<Tracer, Hook>::allow_all(CONTEXT).unwrap();
    assert!(policy.deny(Syscall::Read).is_ok());
    let mut policy = Policy::<Tracer, Hook>::deny_all(CONTEXT).unwrap();
    assert!(policy.allow(Syscall::Read).is_ok());
}

#[test]
fn fail_with_is_accepted_under_either_default() {
    let mut policy = Policy::<Tracer, Hook>::allow_all(CONTEXT).unwrap();
    policy.fail_with(Syscall::Openat, 44).fail_with(Syscall::Ptrace, 1);
    assert_eq!(policy.rules_len(), 2);
    let mut policy = Policy::<Tracer, Hook>::deny_all(CONTEXT).unwrap();
    policy.fail_with(Syscall::Openat, 44);
    assert_eq!(policy.rules_len(), 1);
}

#[test]
fn handlers_do_not_count_as_rules() {
    fn watch(_: Syscall) -> TraceAction {
        TraceAction::Continue
    }
    fn hook(_: Interceptor) -> TraceAction {
        TraceAction::Continue
    }
    let mut policy = Policy::<Tracer, Hook>::allow_all(CONTEXT).unwrap();
    assert!(!policy.is_traced());
    policy
        .trace(Syscall::Write, watch)
        .entry_intercept(Syscall::Write, hook)
        .exit_intercept(Syscall::Getpid, hook);
    assert_eq!(policy.rules_len(), 0);
    assert!(policy.is_traced());
}

#[test]
fn verbose_sets_the_flag_and_nothing_else() {
    let mut policy = Policy::<Tracer, Hook>::allow_all(CONTEXT).unwrap();
    policy.deny(Syscall::Write).unwrap();
    assert!(!policy.is_verbose());
    let policy = policy.verbose(true);
    assert!(policy.is_verbose());
    assert_eq!(policy.rules_len(), 1);
    assert_eq!(policy.default_action(), restrict::policy::Action::Allow);
    let policy = policy.verbose(false);
    assert!(!policy.is_verbose());
}
