//! The policy: a default action, rules for single system calls, and handlers
//! that a supervising tracer runs.
//!
//! A [`Policy`] is made with [`Policy::allow_all`] or [`Policy::deny_all`],
//! filled by the builder calls, and used up by [`Policy::apply`], which gives
//! the [`ApplyPlan`]: the steps that put the policy into force, in order.
//! A policy can be applied once; a second `apply` fails with `EmptyContext`.
//!
//! `T` is the type of the handlers that observe a system call, `H` the type
//! of those that may change its registers. The policy stores handlers and
//! never calls one.

pub use crate::error::SeccompError;
use crate::event_loop::EventLoop;
use crate::filter::first_match;
use crate::filter::intercept::interceptor_entries;
use crate::filter::intercept::InterceptorFilter;
use crate::filter::intercept::InterceptorMap;
use crate::filter::keys_of;
use crate::filter::lemma_first_match;
use crate::filter::seccomp::SeccompFilter;
use crate::filter::tracer::tracer_entries;
use crate::filter::tracer::TracerFilter;
use crate::filter::tracer::TracerMap;
use crate::filter::RestrictFilter;
use crate::sys;
pub use crate::syscall::Syscall;
pub use crate::wrapper::Action;
use crate::wrapper::PtraceWrapper;
use crate::wrapper::SeccompWrapper;
use vstd::prelude::*;

verus! {

/// One step of putting a policy into force.
#[derive(Debug, Copy, Clone, PartialEq, Eq, Structural)]
pub enum SetupStep {
    /// Add this rule to the filter context.
    AddRule(SeccompFilter),
    /// Load the filter context into the kernel. From here on the rules bind
    /// the process, for as long as it lives.
    LoadFilter,
    /// Fork. The child goes on with the child's steps, the parent with the
    /// parent's.
    Fork,
    /// Ask to be traced by the parent.
    EnableTracing,
    /// Stop yourself with this signal, to tell the parent that you are ready.
    RaiseStop(i32),
    /// Wait until the child has stopped itself with this signal.
    AwaitStop(i32),
    /// Set these tracer options on the child.
    SetTraceOptions(i32),
    /// Let the child run to its next system call boundary. If the child
    /// cannot be set going, the event loop is not to be run.
    ArmSyscallTrace,
    /// Run the event loop until it is over.
    RunEventLoop,
    /// Leave the process with this exit code.
    ExitSupervisor(i32),
}

/// The steps that add `rules` to the filter context, in order.
pub open spec fn rule_steps(rules: Seq<SeccompFilter>) -> Seq<SetupStep> {
    Seq::new(rules.len(), |i: int| SetupStep::AddRule(rules[i]))
}

/// The rules that hand each of `keys` to the tracer, in order.
pub open spec fn trap_rules(keys: Seq<Syscall>) -> Seq<SeccompFilter> {
    Seq::new(keys.len(), |i: int| SeccompFilter { syscall: keys[i], action: Action::Trace })
}

/// The system calls of `rules`, in order.
pub open spec fn rule_keys(rules: Seq<SeccompFilter>) -> Seq<Syscall> {
    Seq::new(rules.len(), |i: int| rules[i].syscall)
}

/// What a policy holds.
pub struct PolicyView<T, H> {
    /// The filter context; `None` once the policy has been applied.
    pub context: Option<SeccompWrapper>,
    /// What the kernel does with a system call that no rule names.
    pub default_action: Action,
    /// The rules, in the order in which they were asked for.
    pub rules: Seq<SeccompFilter>,
    /// The trace handlers, in the order in which they were registered.
    pub tracers: Seq<(Syscall, T)>,
    /// The entry interceptors, in the order in which they were registered.
    pub entry: Seq<(Syscall, H)>,
    /// The exit interceptors, in the order in which they were registered.
    pub exit: Seq<(Syscall, H)>,
    /// Whether the policy was asked to log what it does.
    pub verbose: bool,
}

impl<T, H> PolicyView<T, H> {
    /// A policy that holds any handler needs a supervising tracer.
    pub open spec fn supervised(self) -> bool {
        self.tracers.len() > 0 || self.entry.len() > 0 || self.exit.len() > 0
    }

    /// The rules that hand the handlers' system calls to the tracer: those of
    /// the trace handlers, then of the exit interceptors, then of the entry
    /// interceptors.
    pub open spec fn handler_rules(self) -> Seq<SeccompFilter> {
        trap_rules(keys_of(self.tracers)) + trap_rules(keys_of(self.exit)) + trap_rules(
            keys_of(self.entry),
        )
    }

    /// Every rule that reaches the filter context, in the order in which it
    /// is added.
    pub open spec fn compiled_rules(self) -> Seq<SeccompFilter> {
        self.rules + self.handler_rules()
    }

    /// Whether some rule or handler of the policy names `syscall`.
    pub open spec fn touches(self, syscall: Syscall) -> bool {
        exists|i: int|
            0 <= i < self.compiled_rules().len() && (#[trigger] self.compiled_rules()[i]).syscall
                == syscall
    }

    /// What the kernel does with `syscall` under this policy: the action of
    /// the first rule added for it, and the default action if there is none.
    pub open spec fn disposition(self, syscall: Syscall) -> Action {
        match first_match(rule_keys(self.compiled_rules()), syscall) {
            Some(i) => self.compiled_rules()[i].action,
            None => self.default_action,
        }
    }

    /// The steps that the calling process takes first: every rule in order,
    /// then the fork if a tracer is needed, else the load.
    pub open spec fn spec_setup(self) -> Seq<SetupStep> {
        rule_steps(self.rules).push(
            if self.supervised() {
                SetupStep::Fork
            } else {
                SetupStep::LoadFilter
            },
        )
    }

    /// The steps of the child after the fork: it asks to be traced, adds the
    /// rules that hand the handlers' system calls to the tracer, stops itself
    /// so that the parent can catch up, and only then loads the filter.
    pub open spec fn spec_child(self) -> Seq<SetupStep> {
        if self.supervised() {
            seq![SetupStep::EnableTracing] + rule_steps(self.handler_rules())
                + seq![SetupStep::RaiseStop(19), SetupStep::LoadFilter]
        } else {
            Seq::empty()
        }
    }

    /// The steps of the parent after the fork: it waits for the child's stop,
    /// sets the tracer options, lets the child run, and serves the event loop
    /// until the child is gone.
    pub open spec fn spec_parent(self) -> Seq<SetupStep> {
        if self.supervised() {
            seq![
                SetupStep::AwaitStop(19),
                SetupStep::SetTraceOptions(0x81),
                SetupStep::ArmSyscallTrace,
                SetupStep::RunEventLoop,
                SetupStep::ExitSupervisor(0),
            ]
        } else {
            Seq::empty()
        }
    }

    /// This policy with one more rule.
    pub open spec fn with_rule(self, rule: SeccompFilter) -> Self {
        PolicyView { rules: self.rules.push(rule), ..self }
    }

    /// This policy after it has been applied: the context and the handlers
    /// are gone.
    pub open spec fn applied(self) -> Self {
        PolicyView {
            context: None,
            tracers: Seq::empty(),
            entry: Seq::empty(),
            exit: Seq::empty(),
            ..self
        }
    }
}

/// The steps that put a policy into force, and what they need.
pub struct ApplyPlan<T, H> {
    /// The filter context that the rules go into.
    pub context: SeccompWrapper,
    /// The steps of the calling process, up to the load or the fork.
    pub setup: Vec<SetupStep>,
    /// The steps of the child after a fork.
    pub child: Vec<SetupStep>,
    /// The steps of the parent after a fork.
    pub parent: Vec<SetupStep>,
    /// The trace handlers, for the event loop.
    pub trace_map: TracerMap<T>,
    /// The entry interceptors, for the event loop.
    pub intercept_map: InterceptorMap<H>,
    /// The exit interceptors, for the event loop.
    pub post_intercept_map: InterceptorMap<H>,
}

impl<T, H> ApplyPlan<T, H> {
    /// Whether the plan forks a supervising tracer.
    pub open spec fn spec_is_supervised(&self) -> bool {
        self.parent@.len() > 0
    }

    /// Whether the plan forks a supervising tracer.
    pub fn is_supervised(&self) -> (r: bool)
        ensures
            r == self.spec_is_supervised(),
    {
        self.parent.len() > 0
    }

    /// The event loop that the parent runs for the tracee `child_pid`, with
    /// the handlers of the plan.
    pub fn into_event_loop(self, child_pid: i32) -> (r: EventLoop<T, H>)
        ensures
            r.child == child_pid,
            r.in_syscall == false,
            r.phase == crate::event_loop::Phase::Waiting,
            r.trace_map == self.trace_map,
            r.intercept_map == self.intercept_map,
            r.post_intercept_map == self.post_intercept_map,
    {
        PtraceWrapper::with_pid(child_pid).event_loop(
            self.trace_map,
            self.intercept_map,
            self.post_intercept_map,
        )
    }
}

/// Appends to `steps` the steps that add the rules of `filters`, in order.
fn push_rules<F: RestrictFilter>(steps: &mut Vec<SetupStep>, filters: &Vec<F>)
    ensures
        final(steps)@ == old(steps)@ + Seq::new(
            filters@.len(),
            |i: int| SetupStep::AddRule(filters@[i].spec_apply()),
        ),
{
    let ghost before = steps@;
    let mut i: usize = 0;
    while i < filters.len()
        invariant
            i <= filters@.len(),
            steps@.len() == before.len() + i,
            forall|j: int| 0 <= j < before.len() ==> steps@[j] == before[j],
            forall|j: int|
                0 <= j < i ==> steps@[before.len() + j] == SetupStep::AddRule(
                    filters@[j].spec_apply(),
                ),
        decreases filters@.len() - i,
    {
        steps.push(SetupStep::AddRule(filters[i].apply()));
        i += 1;
    }
    assert(steps@ =~= before + Seq::new(
        filters@.len(),
        |i: int| SetupStep::AddRule(filters@[i].spec_apply()),
    ));
}

/// A sandboxing policy under construction.
pub struct Policy<T, H> {
    context: Option<SeccompWrapper>,
    default_action: Action,
    seccomp_rules: Vec<SeccompFilter>,
    trace_rules: Vec<TracerFilter<T>>,
    pre_intercept: Vec<InterceptorFilter<H>>,
    post_intercept: Vec<InterceptorFilter<H>>,
    trace: bool,
    verbose: bool,
}

impl<T, H> View for Policy<T, H> {
    type V = PolicyView<T, H>;

    closed spec fn view(&self) -> PolicyView<T, H> {
        PolicyView {
            context: self.context,
            default_action: self.default_action,
            rules: self.seccomp_rules@,
            tracers: tracer_entries(self.trace_rules@),
            entry: interceptor_entries(self.pre_intercept@),
            exit: interceptor_entries(self.post_intercept@),
            verbose: self.verbose,
        }
    }
}

impl<T, H> Policy<T, H> {
    /// What the builder calls keep true of a policy: its filter context, as
    /// long as it has one, is a real one with the policy's default action,
    /// and the policy knows whether it needs a tracer.
    pub closed spec fn wf(&self) -> bool {
        &&& self.trace == self@.supervised()
        &&& self.context matches Some(c) ==> c.wf() && c.default_action == self.default_action
    }

    /// Reads the outcome of creating the filter context for a new policy with
    /// the default action `default`: `context` is the handle that came back,
    /// zero if none did.
    fn new(default: Action, context: usize) -> (r: Result<Self, SeccompError>)
        ensures
            match r {
                Ok(p) => context != 0 && p.wf() && p@ == (PolicyView::<T, H> {
                    context: Some(SeccompWrapper { context, default_action: default }),
                    default_action: default,
                    rules: Seq::empty(),
                    tracers: Seq::empty(),
                    entry: Seq::empty(),
                    exit: Seq::empty(),
                    verbose: false,
                }),
                Err(e) => context == 0 && e == SeccompError::InitContextFailed,
            },
    {
        let wrapper = match SeccompWrapper::init_context(default, context) {
            Ok(wrapper) => wrapper,
            Err(e) => {
                return Err(e);
            },
        };
        let p = Policy {
            context: Some(wrapper),
            default_action: default,
            seccomp_rules: Vec::new(),
            trace_rules: Vec::new(),
            pre_intercept: Vec::new(),
            post_intercept: Vec::new(),
            trace: false,
            verbose: false,
        };
        assert(p@.rules =~= Seq::empty());
        assert(p@.tracers =~= Seq::empty());
        assert(p@.entry =~= Seq::empty());
        assert(p@.exit =~= Seq::empty());
        Ok(p)
    }

    /// A policy that allows every system call that no rule names. `context`
    /// is the handle of the filter context that was created for it with the
    /// default action `Allow`, zero if creating it failed.
    ///
    /// Fails with `InitContextFailed` exactly when `context` is zero.
    pub fn allow_all(context: usize) -> (r: Result<Self, SeccompError>)
        ensures
            match r {
                Ok(p) => context != 0 && p.wf() && p@ == (PolicyView::<T, H> {
                    context: Some(SeccompWrapper { context, default_action: Action::Allow }),
                    default_action: Action::Allow,
                    rules: Seq::empty(),
                    tracers: Seq::empty(),
                    entry: Seq::empty(),
                    exit: Seq::empty(),
                    verbose: false,
                }),
                Err(e) => context == 0 && e == SeccompError::InitContextFailed,
            },
    {
        Self::new(Action::Allow, context)
    }

    /// A policy that kills the process on every system call that no rule
    /// names. `context` is the handle of the filter context that was created
    /// for it with the default action `Kill`, zero if creating it failed.
    ///
    /// Fails with `InitContextFailed` exactly when `context` is zero.
    pub fn deny_all(context: usize) -> (r: Result<Self, SeccompError>)
        ensures
            match r {
                Ok(p) => context != 0 && p.wf() && p@ == (PolicyView::<T, H> {
                    context: Some(SeccompWrapper { context, default_action: Action::Kill }),
                    default_action: Action::Kill,
                    rules: Seq::empty(),
                    tracers: Seq::empty(),
                    entry: Seq::empty(),
                    exit: Seq::empty(),
                    verbose: false,
                }),
                Err(e) => context == 0 && e == SeccompError::InitContextFailed,
            },
    {
        Self::new(Action::Kill, context)
    }

    /// Makes `syscall` fail with the error code `errno`, without running.
    pub fn fail_with(&mut self, syscall: Syscall, errno: u16) -> (r: &mut Self)
        requires
            old(self).wf(),
        ensures
            r.wf(),
            r@ == old(self)@.with_rule(SeccompFilter { syscall, action: Action::Errno(errno) }),
            *final(self) == *final(r),
    {
        self.seccomp_rules.push(SeccompFilter::new(syscall, Action::Errno(errno)));
        self
    }

    /// Has `tracer` observe `syscall` before it runs. The policy then needs a
    /// supervising tracer.
    pub fn trace(&mut self, syscall: Syscall, tracer: T) -> (r: &mut Self)
        requires
            old(self).wf(),
        ensures
            r.wf(),
            r@ == (PolicyView { tracers: old(self)@.tracers.push((syscall, tracer)), ..old(self)@ }),
            *final(self) == *final(r),
    {
        self.trace_rules.push(TracerFilter::new(syscall, tracer));
        self.trace = true;
        assert(self@.tracers =~= old(self)@.tracers.push((syscall, tracer)));
        self
    }

    /// Has `interceptor` run on `syscall` before it runs, where it may change
    /// the arguments. The policy then needs a supervising tracer.
    pub fn entry_intercept(&mut self, syscall: Syscall, interceptor: H) -> (r: &mut Self)
        requires
            old(self).wf(),
        ensures
            r.wf(),
            r@ == (PolicyView { entry: old(self)@.entry.push((syscall, interceptor)), ..old(self)@ }),
            *final(self) == *final(r),
    {
        self.pre_intercept.push(InterceptorFilter::new(syscall, interceptor));
        self.trace = true;
        assert(self@.entry =~= old(self)@.entry.push((syscall, interceptor)));
        self
    }

    /// Has `interceptor` run on `syscall` after it has run, where it may
    /// change the result. The policy then needs a supervising tracer.
    pub fn exit_intercept(&mut self, syscall: Syscall, interceptor: H) -> (r: &mut Self)
        requires
            old(self).wf(),
        ensures
            r.wf(),
            r@ == (PolicyView { exit: old(self)@.exit.push((syscall, interceptor)), ..old(self)@ }),
            *final(self) == *final(r),
    {
        self.post_intercept.push(InterceptorFilter::new(syscall, interceptor));
        self.trace = true;
        assert(self@.exit =~= old(self)@.exit.push((syscall, interceptor)));
        self
    }

    /// Allows `syscall`.
    ///
    /// Fails with `RedundantAllowRule(syscall)`, changing nothing, exactly
    /// when the policy already allows by default.
    pub fn allow(&mut self, syscall: Syscall) -> (r: Result<&mut Self, SeccompError>)
        requires
            old(self).wf(),
        ensures
            match r {
                Ok(p) => old(self)@.default_action != Action::Allow && p.wf() && p@ == old(
                    self,
                )@.with_rule(SeccompFilter { syscall, action: Action::Allow }) && *final(self)
                    == *final(p),
                Err(e) => old(self)@.default_action == Action::Allow && e
                    == SeccompError::RedundantAllowRule(syscall) && *final(self) == *old(self),
            },
    {
        if self.default_action == Action::Allow {
            return Err(SeccompError::RedundantAllowRule(syscall));
        }
        self.seccomp_rules.push(SeccompFilter::new(syscall, Action::Allow));
        Ok(self)
    }

    /// Has the process killed when it makes `syscall`.
    ///
    /// Fails with `RedundantDenyRule(syscall)`, changing nothing, exactly
    /// when the policy already kills by default.
    pub fn deny(&mut self, syscall: Syscall) -> (r: Result<&mut Self, SeccompError>)
        requires
            old(self).wf(),
        ensures
            match r {
                Ok(p) => old(self)@.default_action != Action::Kill && p.wf() && p@ == old(
                    self,
                )@.with_rule(SeccompFilter { syscall, action: Action::Kill }) && *final(self)
                    == *final(p),
                Err(e) => old(self)@.default_action == Action::Kill && e
                    == SeccompError::RedundantDenyRule(syscall) && *final(self) == *old(self),
            },
    {
        if self.default_action == Action::Kill {
            return Err(SeccompError::RedundantDenyRule(syscall));
        }
        self.seccomp_rules.push(SeccompFilter::new(syscall, Action::Kill));
        Ok(self)
    }

    /// The number of rules asked for so far; handlers do not count.
    pub fn rules_len(&self) -> (n: usize)
        ensures
            n == self@.rules.len(),
    {
        self.seccomp_rules.len()
    }

    /// What the kernel does with a system call that no rule names.
    pub fn default_action(&self) -> (a: Action)
        ensures
            a == self@.default_action,
    {
        self.default_action
    }

    /// Whether the policy needs a supervising tracer.
    pub fn is_traced(&self) -> (r: bool)
        requires
            self.wf(),
        ensures
            r == self@.supervised(),
    {
        self.trace
    }

    /// Whether the policy was asked to log what it does.
    pub fn is_verbose(&self) -> (r: bool)
        ensures
            r == self@.verbose,
    {
        self.verbose
    }

    /// Uses the policy up and gives the steps that put it into force.
    ///
    /// Fails with `EmptyContext`, changing nothing, exactly when the policy
    /// holds no filter context, which is so once it has been applied.
    /// Otherwise the plan takes the filter context and the handlers out of
    /// the policy.
    pub fn apply(&mut self) -> (r: Result<ApplyPlan<T, H>, SeccompError>)
        requires
            old(self).wf(),
        ensures
            final(self).wf(),
            match r {
                Ok(plan) => {
                    &&& old(self)@.context == Some(plan.context)
                    &&& plan.context.wf()
                    &&& plan.context.default_action == old(self)@.default_action
                    &&& plan.setup@ == old(self)@.spec_setup()
                    &&& plan.child@ == old(self)@.spec_child()
                    &&& plan.parent@ == old(self)@.spec_parent()
                    &&& plan.spec_is_supervised() == old(self)@.supervised()
                    &&& plan.trace_map@ == old(self)@.tracers
                    &&& plan.intercept_map@ == old(self)@.entry
                    &&& plan.post_intercept_map@ == old(self)@.exit
                    &&& final(self)@ == old(self)@.applied()
                    &&& final(self)@.context is None
                },
                Err(e) => old(self)@.context is None && e == SeccompError::EmptyContext
                    && *final(self) == *old(self),
            },
    {
        let context = match self.context.take() {
            Some(context) => context,
            None => {
                return Err(SeccompError::EmptyContext);
            },
        };
        let ghost before = self@;
        let mut setup: Vec<SetupStep> = Vec::new();
        push_rules(&mut setup, &self.seccomp_rules);
        let mut child: Vec<SetupStep> = Vec::new();
        let mut parent: Vec<SetupStep> = Vec::new();
        let mut trace_rules: Vec<TracerFilter<T>> = Vec::new();
        let mut pre_intercept: Vec<InterceptorFilter<H>> = Vec::new();
        let mut post_intercept: Vec<InterceptorFilter<H>> = Vec::new();
        if self.trace {
            setup.push(SetupStep::Fork);
            child.push(SetupStep::EnableTracing);
            push_rules(&mut child, &self.trace_rules);
            push_rules(&mut child, &self.post_intercept);
            push_rules(&mut child, &self.pre_intercept);
            child.push(SetupStep::RaiseStop(sys::sigstop()));
            child.push(SetupStep::LoadFilter);
            parent.push(SetupStep::AwaitStop(sys::sigstop()));
            parent.push(SetupStep::SetTraceOptions(PtraceWrapper::trace_options()));
            parent.push(SetupStep::ArmSyscallTrace);
            parent.push(SetupStep::RunEventLoop);
            parent.push(SetupStep::ExitSupervisor(0));
            core::mem::swap(&mut self.trace_rules, &mut trace_rules);
            core::mem::swap(&mut self.pre_intercept, &mut pre_intercept);
            core::mem::swap(&mut self.post_intercept, &mut post_intercept);
            self.trace = false;
        } else {
            setup.push(SetupStep::LoadFilter);
        }
        let plan = ApplyPlan {
            context,
            setup,
            child,
            parent,
            trace_map: TracerMap::from(trace_rules),
            intercept_map: InterceptorMap::from(pre_intercept),
            post_intercept_map: InterceptorMap::from(post_intercept),
        };
        proof {
            assert(plan.setup@ =~= before.spec_setup());
            assert(plan.child@ =~= before.spec_child());
            assert(plan.parent@ =~= before.spec_parent());
            assert(plan.trace_map@ =~= before.tracers);
            assert(plan.intercept_map@ =~= before.entry);
            assert(plan.post_intercept_map@ =~= before.exit);
            assert(self@.tracers =~= Seq::empty());
            assert(self@.entry =~= Seq::empty());
            assert(self@.exit =~= Seq::empty());
        }
        Ok(plan)
    }

    /// Asks the policy to log what it does, or not to.
    pub fn verbose(self, enable: bool) -> (r: Self)
        requires
            self.wf(),
        ensures
            r.wf(),
            r@ == (PolicyView { verbose: enable, ..self@ }),
    {
        let mut policy = self;
        policy.verbose = enable;
        policy
    }
}

/// A system call that no rule and no handler of a policy names is left to the
/// default action, and no handler is found for it. Under a policy that allows
/// by default it is allowed, and the tracer never stops it.
pub proof fn lemma_untouched_syscall_keeps_default<T, H>(policy: PolicyView<T, H>, syscall: Syscall)
    requires
        !policy.touches(syscall),
    ensures
        policy.disposition(syscall) == policy.default_action,
        policy.default_action == Action::Allow ==> policy.disposition(syscall) == Action::Allow,
        first_match(keys_of(policy.tracers), syscall) is None,
        first_match(keys_of(policy.entry), syscall) is None,
        first_match(keys_of(policy.exit), syscall) is None,
{
    let compiled = policy.compiled_rules();
    let tracers = keys_of(policy.tracers);
    let exit = keys_of(policy.exit);
    let entry = keys_of(policy.entry);
    lemma_first_match(rule_keys(compiled), syscall);
    if let Some(i) = first_match(rule_keys(compiled), syscall) {
        assert(compiled[i].syscall == syscall);
    }
    lemma_first_match(tracers, syscall);
    if let Some(i) = first_match(tracers, syscall) {
        assert(compiled[policy.rules.len() + i].syscall == syscall);
    }
    lemma_first_match(exit, syscall);
    if let Some(i) = first_match(exit, syscall) {
        assert(compiled[policy.rules.len() + tracers.len() + i].syscall == syscall);
    }
    lemma_first_match(entry, syscall);
    if let Some(i) = first_match(entry, syscall) {
        assert(compiled[policy.rules.len() + tracers.len() + exit.len() + i].syscall == syscall);
    }
}

/// The first rule asked for a system call decides what the kernel does with
/// it: a rule for a system call that no earlier rule and no handler names
/// sets its disposition, and changes that of no other system call.
pub proof fn lemma_first_rule_decides<T, H>(
    policy: PolicyView<T, H>,
    rule: SeccompFilter,
    other: Syscall,
)
    requires
        !policy.touches(rule.syscall),
        other != rule.syscall,
    ensures
        policy.with_rule(rule).disposition(rule.syscall) == rule.action,
        policy.with_rule(rule).disposition(other) == policy.disposition(other),
{
    let before = policy.compiled_rules();
    let after = policy.with_rule(rule).compiled_rules();
    let n = policy.rules.len() as int;
    assert(after.len() == before.len() + 1);
    assert(after[n] == rule);
    assert forall|j: int| 0 <= j < n implies after[j] == before[j] by {}
    assert forall|j: int| n < j < after.len() implies after[j] == before[j - 1] by {}
    lemma_first_match(rule_keys(after), rule.syscall);
    lemma_first_match(rule_keys(after), other);
    lemma_first_match(rule_keys(before), other);
    match first_match(rule_keys(after), rule.syscall) {
        Some(i) => {
            if i < n {
                assert(before[i].syscall == rule.syscall);
            } else if i > n {
                assert(before[i - 1].syscall == rule.syscall);
            }
        },
        None => {
            assert(rule_keys(after)[n] == rule.syscall);
        },
    }
    match first_match(rule_keys(before), other) {
        Some(i) => {
            let k = if i < n {
                i
            } else {
                i + 1
            };
            assert(rule_keys(after)[k] == other);
            assert forall|j: int| 0 <= j < k implies rule_keys(after)[j] != other by {
                if j < n {
                    assert(rule_keys(before)[j] != other);
                } else if j > n {
                    assert(rule_keys(before)[j - 1] != other);
                }
            }
            assert(first_match(rule_keys(after), other) == Some(k));
        },
        None => {
            assert forall|j: int| 0 <= j < after.len() implies rule_keys(after)[j] != other by {
                if j < n {
                    assert(rule_keys(before)[j] != other);
                } else if j > n {
                    assert(rule_keys(before)[j - 1] != other);
                }
            }
        },
    }
}

/// A policy is used up by being applied: it then holds no filter context and
/// no handler, and no builder call gives it a context again. So every later
/// `apply` fails with `EmptyContext`.
pub proof fn lemma_applied_policy_stays_empty<T, H>(
    policy: PolicyView<T, H>,
    rule: SeccompFilter,
    verbose: bool,
)
    ensures
        policy.applied().context is None,
        !policy.applied().supervised(),
        policy.applied().with_rule(rule).context is None,
        (PolicyView { verbose, ..policy.applied() }).context is None,
        policy.applied().applied() == policy.applied(),
{
}

/// The child's steps keep the order that makes the handshake safe: the child
/// first asks to be traced, then adds rules and nothing else, then stops
/// itself, and loads the filter last. Each handler's system call has a rule
/// among them that hands it to the tracer.
pub proof fn lemma_child_steps_in_order<T, H>(policy: PolicyView<T, H>)
    requires
        policy.supervised(),
    ensures
        ({
            let child = policy.spec_child();
            let last = child.len() - 1;
            &&& child.len() >= 3
            &&& child[0] == SetupStep::EnableTracing
            &&& child[last - 1] == SetupStep::RaiseStop(19)
            &&& child[last] == SetupStep::LoadFilter
            &&& forall|i: int| 0 < i < last - 1 ==> (#[trigger] child[i]) is AddRule
            &&& forall|k: int|
                0 <= k < policy.handler_rules().len() ==> child[1 + k] == SetupStep::AddRule(
                    #[trigger] policy.handler_rules()[k],
                )
        }),
        forall|k: int|
            0 <= k < policy.handler_rules().len() ==> (#[trigger] policy.handler_rules()[k]).action
                == Action::Trace,
        forall|i: int|
            0 <= i < policy.tracers.len() ==> (#[trigger] policy.handler_rules()[i]).syscall
                == policy.tracers[i].0,
        forall|i: int|
            0 <= i < policy.exit.len() ==> (#[trigger] policy.handler_rules()[policy.tracers.len()
                + i]).syscall == policy.exit[i].0,
        forall|i: int|
            0 <= i < policy.entry.len() ==> (#[trigger] policy.handler_rules()[policy.tracers.len()
                + policy.exit.len() + i]).syscall == policy.entry[i].0,
{
}

} // verus!
