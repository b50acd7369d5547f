//! The tracer's event loop, as a state machine.
//!
//! The supervising process waits for the tracee to change state, and answers
//! each change: it resumes the tracee, runs a handler, kills the tracee, or
//! ends. [`EventLoop::step`] decides each answer. It takes what happened as a
//! [`LoopEvent`] and gives what to do next as a [`LoopCommand`]; the program
//! that drives the loop carries the command out and reports its outcome as
//! the next event. The first command is always [`LoopCommand::Wait`].
//!
//! | command                      | outcome to report               |
//! |------------------------------|---------------------------------|
//! | `Wait`                       | `Waited`                        |
//! | `Resume`, then wait          | `Waited`                        |
//! | `ReadRegisters`              | `Registers`                     |
//! | `RunTracer` and the like     | `Verdict`                       |
//! | `Kill`, `Finish`             | none: the loop is over          |
//!
//! A filter trap runs the trace handler of its system call, then the entry
//! interceptor; a system call boundary runs the exit interceptor, on every
//! second boundary, which is the exit. Of several handlers for one system
//! call the first registered runs. A `Kill` verdict ends the tracee and the
//! loop at once.

use crate::error::IoFailure;
use crate::error::SeccompError;
use crate::filter::intercept::InterceptorMap;
use crate::filter::keys_of;
use crate::filter::lemma_first_match;
use crate::filter::tracer::TracerMap;
use crate::interceptor::Interceptor;
use crate::registers::Registers;
use crate::sys;
use crate::syscall::Syscall;
use crate::wrapper::Resume;
use crate::wrapper::StopKind;
use crate::wrapper::TraceAction;
use vstd::prelude::*;

verus! {

/// The stops at which the event loop reads the tracee's registers.
#[derive(Debug, Copy, Clone, PartialEq, Eq, Structural)]
pub enum DecodedStop {
    /// A filter trap: the system call is about to run.
    SeccompTrap,
    /// The exit of a system call: the system call has run.
    SyscallExit,
}

/// What the event loop is waiting to be told.
#[derive(Debug, Clone, PartialEq, Eq)]
pub enum Phase {
    /// The outcome of a wait on the tracee.
    Waiting,
    /// The tracee's registers, at a stop of this kind.
    ReadingRegisters(DecodedStop),
    /// The verdict of the trace handler for `syscall`; `registers` are kept
    /// for the entry interceptor.
    Tracing { syscall: Syscall, registers: Registers },
    /// The verdict of an entry interceptor; `traced` says whether a trace
    /// handler ran before it.
    Entering { traced: bool },
    /// The verdict of an exit interceptor.
    Exiting,
    /// Nothing: the loop is over.
    Finished,
}

/// What happened, as the driver of the loop reports it.
#[derive(Debug, PartialEq, Eq)]
pub enum LoopEvent {
    /// A wait on the tracee returned `ret` and reported `status`; `os_error`
    /// is the error code if it failed.
    Waited { ret: i32, status: i32, os_error: i32 },
    /// The tracee's registers were read, or could not be.
    Registers(Result<Registers, SeccompError>),
    /// A handler returned this verdict.
    Verdict(TraceAction),
}

/// What the driver of the loop is to do next.
#[derive(Debug, Clone, PartialEq, Eq)]
pub enum LoopCommand {
    /// Wait for the tracee to change state.
    Wait,
    /// Read the registers of the stopped tracee.
    ReadRegisters,
    /// Run the trace handler at position `index` of the trace map on
    /// `syscall`.
    RunTracer { index: usize, syscall: Syscall },
    /// Run the handler at position `index` of the entry interceptors on
    /// `interceptor`.
    RunEntryInterceptor { index: usize, interceptor: Interceptor },
    /// Run the handler at position `index` of the exit interceptors on
    /// `interceptor`.
    RunExitInterceptor { index: usize, interceptor: Interceptor },
    /// Set the tracee going again in this way, then wait for it.
    Resume(Resume),
    /// Send the tracee this signal, which kills it; if the signal cannot be
    /// sent, kill the tracee through the tracing primitive. Then leave the
    /// supervising process with this exit code.
    Kill { signal: i32, exit_code: i32 },
    /// Return: the tracee is gone.
    Finish,
}

/// The part of the event loop that changes from event to event.
pub struct LoopState {
    /// Whether the tracee is between the entry and the exit of a system call,
    /// as counted from the system call boundaries seen so far.
    pub in_syscall: bool,
    /// What the loop is waiting to be told.
    pub phase: Phase,
}

/// The number of the system call that the register value `raw` names: its low
/// 32 bits, read as a signed number.
pub open spec fn spec_syscall_id(raw: u64) -> i32 {
    let low = raw as int % 0x1_0000_0000;
    if low < 0x8000_0000 {
        low as i32
    } else {
        (low - 0x1_0000_0000) as i32
    }
}

/// The number of the system call that the register value `raw` names: its low
/// 32 bits, read as a signed number.
pub fn syscall_id(raw: u64) -> (id: i32)
    ensures
        id == spec_syscall_id(raw),
{
    let low: u64 = raw % 0x1_0000_0000;
    if low < 0x8000_0000 {
        low as i32
    } else {
        let below: u64 = 0x1_0000_0000 - low;
        let magnitude: i64 = below as i64;
        (0 - magnitude) as i32
    }
}

/// How the tracee is resumed after a filter trap, given whether a trace
/// handler ran and what the entry interceptor said, if one ran.
///
/// After a trace handler the system call runs on without a stop at its exit.
/// Without one, the tracee stops at the exit unless the interceptor asked to
/// skip it.
pub open spec fn spec_resume_after_trap(traced: bool, verdict: Option<TraceAction>) -> Resume {
    if traced {
        Resume::Continue
    } else {
        match verdict {
            Some(TraceAction::SkipExit) => Resume::Continue,
            _ => Resume::SyscallStop,
        }
    }
}

/// The supervisor's event loop for one tracee.
pub struct EventLoop<T, H> {
    /// The process id of the tracee.
    pub child: i32,
    /// Whether the tracee is inside a system call.
    pub in_syscall: bool,
    /// What the loop is waiting to be told.
    pub phase: Phase,
    /// The handlers that observe a system call at a filter trap.
    pub trace_map: TracerMap<T>,
    /// The handlers that may change registers at a filter trap.
    pub intercept_map: InterceptorMap<H>,
    /// The handlers that may change registers at the exit of a system call.
    pub post_intercept_map: InterceptorMap<H>,
}

impl<T, H> EventLoop<T, H> {
    /// The part of the loop that changes from event to event.
    pub open spec fn state(&self) -> LoopState {
        LoopState { in_syscall: self.in_syscall, phase: self.phase }
    }

    /// The answer to the verdict `Kill`: the loop is over, the tracee is to be
    /// killed with the kill signal, and the supervisor leaves with that
    /// signal's number as its exit code.
    pub open spec fn spec_kill(&self) -> (LoopState, Result<LoopCommand, SeccompError>) {
        (
            LoopState { in_syscall: self.in_syscall, phase: Phase::Finished },
            Ok(LoopCommand::Kill { signal: 9, exit_code: 9 }),
        )
    }

    /// The answer that resumes the tracee and goes back to waiting.
    pub open spec fn spec_resume(&self, resume: Resume) -> (
        LoopState,
        Result<LoopCommand, SeccompError>,
    ) {
        (
            LoopState { in_syscall: self.in_syscall, phase: Phase::Waiting },
            Ok(LoopCommand::Resume(resume)),
        )
    }

    /// The answer that reports `error` and goes back to waiting; the tracee
    /// stays stopped.
    pub open spec fn spec_fail(&self, error: SeccompError) -> (
        LoopState,
        Result<LoopCommand, SeccompError>,
    ) {
        (LoopState { in_syscall: self.in_syscall, phase: Phase::Waiting }, Err(error))
    }

    /// The answer to an event that the loop is not waiting for: the error
    /// `Unknown`, and nothing changes.
    pub open spec fn spec_unexpected(&self) -> (LoopState, Result<LoopCommand, SeccompError>) {
        (self.state(), Err(SeccompError::Unknown))
    }

    /// The answer to the outcome of a wait.
    pub open spec fn spec_on_wait(&self, ret: i32, status: i32, os_error: i32) -> (
        LoopState,
        Result<LoopCommand, SeccompError>,
    ) {
        if ret == -1 {
            if os_error == 10 {
                (
                    LoopState { in_syscall: self.in_syscall, phase: Phase::Finished },
                    Ok(LoopCommand::Finish),
                )
            } else {
                (
                    LoopState { in_syscall: self.in_syscall, phase: Phase::Finished },
                    Err(SeccompError::IO(IoFailure::Os(os_error))),
                )
            }
        } else {
            match StopKind::spec_classify(status) {
                StopKind::Terminated => (
                    LoopState { in_syscall: self.in_syscall, phase: Phase::Finished },
                    Ok(LoopCommand::Finish),
                ),
                StopKind::SyscallBoundary => if self.in_syscall {
                    (
                        LoopState {
                            in_syscall: false,
                            phase: Phase::ReadingRegisters(DecodedStop::SyscallExit),
                        },
                        Ok(LoopCommand::ReadRegisters),
                    )
                } else {
                    (
                        LoopState { in_syscall: true, phase: Phase::Waiting },
                        Ok(LoopCommand::Resume(Resume::SyscallStop)),
                    )
                },
                StopKind::SeccompTrap => (
                    LoopState {
                        in_syscall: self.in_syscall,
                        phase: Phase::ReadingRegisters(DecodedStop::SeccompTrap),
                    },
                    Ok(LoopCommand::ReadRegisters),
                ),
                StopKind::OtherSignal => self.spec_resume(Resume::SyscallStop),
                StopKind::Running => (
                    LoopState { in_syscall: self.in_syscall, phase: Phase::Waiting },
                    Ok(LoopCommand::Wait),
                ),
            }
        }
    }

    /// The answer at a filter trap in `syscall` once the trace handler, if
    /// any, has run: the entry interceptor runs if there is one, else the
    /// tracee is resumed.
    pub open spec fn spec_enter(&self, syscall: Syscall, registers: Registers, traced: bool) -> (
        LoopState,
        Result<LoopCommand, SeccompError>,
    ) {
        match self.intercept_map.spec_position(syscall) {
            Some(i) => (
                LoopState { in_syscall: self.in_syscall, phase: Phase::Entering { traced } },
                Ok(
                    LoopCommand::RunEntryInterceptor {
                        index: i as usize,
                        interceptor: Interceptor { syscall, registers, child_pid: self.child },
                    },
                ),
            ),
            None => self.spec_resume(spec_resume_after_trap(traced, None)),
        }
    }

    /// The answer to the registers `registers`, read at a stop of kind `stop`.
    pub open spec fn spec_on_registers(&self, stop: DecodedStop, registers: Registers) -> (
        LoopState,
        Result<LoopCommand, SeccompError>,
    ) {
        let id = spec_syscall_id(registers@.spec_syscall_number());
        match Syscall::spec_from_number(id) {
            Err(e) => self.spec_fail(e),
            Ok(syscall) => match stop {
                DecodedStop::SeccompTrap => match self.trace_map.spec_position(syscall) {
                    Some(i) => (
                        LoopState {
                            in_syscall: self.in_syscall,
                            phase: Phase::Tracing { syscall, registers },
                        },
                        Ok(LoopCommand::RunTracer { index: i as usize, syscall }),
                    ),
                    None => self.spec_enter(syscall, registers, false),
                },
                DecodedStop::SyscallExit => match self.post_intercept_map.spec_position(syscall) {
                    Some(i) => (
                        LoopState { in_syscall: self.in_syscall, phase: Phase::Exiting },
                        Ok(
                            LoopCommand::RunExitInterceptor {
                                index: i as usize,
                                interceptor: Interceptor {
                                    syscall,
                                    registers,
                                    child_pid: self.child,
                                },
                            },
                        ),
                    ),
                    None => self.spec_resume(Resume::SyscallStop),
                },
            },
        }
    }

    /// The loop's answer to `event`: the state after it, and the command or
    /// the error that `step` returns.
    pub open spec fn spec_step(&self, event: LoopEvent) -> (
        LoopState,
        Result<LoopCommand, SeccompError>,
    ) {
        match (self.phase, event) {
            (Phase::Waiting, LoopEvent::Waited { ret, status, os_error }) => self.spec_on_wait(
                ret,
                status,
                os_error,
            ),
            (Phase::ReadingRegisters(_), LoopEvent::Registers(Err(e))) => self.spec_fail(e),
            (
                Phase::ReadingRegisters(stop),
                LoopEvent::Registers(Ok(registers)),
            ) => self.spec_on_registers(stop, registers),
            (Phase::Tracing { syscall, registers }, LoopEvent::Verdict(verdict)) => match verdict {
                TraceAction::Kill => self.spec_kill(),
                _ => self.spec_enter(syscall, registers, true),
            },
            (Phase::Entering { traced }, LoopEvent::Verdict(verdict)) => match verdict {
                TraceAction::Kill => self.spec_kill(),
                _ => self.spec_resume(spec_resume_after_trap(traced, Some(verdict))),
            },
            (Phase::Exiting, LoopEvent::Verdict(verdict)) => match verdict {
                TraceAction::Kill => self.spec_kill(),
                _ => self.spec_resume(Resume::SyscallStop),
            },
            _ => self.spec_unexpected(),
        }
    }

    /// The loop after it has answered `event`: the state has moved on, the
    /// tracee and the handlers are the same.
    pub open spec fn spec_after(&self, event: LoopEvent) -> EventLoop<T, H> {
        EventLoop {
            child: self.child,
            in_syscall: self.spec_step(event).0.in_syscall,
            phase: self.spec_step(event).0.phase,
            trace_map: self.trace_map,
            intercept_map: self.intercept_map,
            post_intercept_map: self.post_intercept_map,
        }
    }

    /// The answers of the loop to `events`, one after the other.
    pub open spec fn spec_run(&self, events: Seq<LoopEvent>) -> Seq<
        Result<LoopCommand, SeccompError>,
    >
        decreases events.len(),
    {
        if events.len() == 0 {
            Seq::empty()
        } else {
            seq![self.spec_step(events[0]).1] + self.spec_after(events[0]).spec_run(
                events.drop_first(),
            )
        }
    }

    /// The loop after it has answered `events`, one after the other.
    pub open spec fn spec_after_all(&self, events: Seq<LoopEvent>) -> EventLoop<T, H>
        decreases events.len(),
    {
        if events.len() == 0 {
            *self
        } else {
            self.spec_after(events[0]).spec_after_all(events.drop_first())
        }
    }

    /// The event loop for the tracee `child` with these handlers, about to
    /// wait for the first time.
    pub fn new(
        child: i32,
        trace_map: TracerMap<T>,
        intercept_map: InterceptorMap<H>,
        post_intercept_map: InterceptorMap<H>,
    ) -> (r: Self)
        ensures
            r.child == child,
            r.in_syscall == false,
            r.phase == Phase::Waiting,
            r.trace_map == trace_map,
            r.intercept_map == intercept_map,
            r.post_intercept_map == post_intercept_map,
    {
        EventLoop {
            child,
            in_syscall: false,
            phase: Phase::Waiting,
            trace_map,
            intercept_map,
            post_intercept_map,
        }
    }

    /// Whether the loop is over.
    pub fn is_finished(&self) -> (r: bool)
        ensures
            r == (self.phase == Phase::Finished),
    {
        match &self.phase {
            Phase::Finished => true,
            _ => false,
        }
    }

    fn kill(&mut self) -> (r: Result<LoopCommand, SeccompError>)
        ensures
            (final(self).state(), r) == old(self).spec_kill(),
            final(self).child == old(self).child,
            final(self).trace_map == old(self).trace_map,
            final(self).intercept_map == old(self).intercept_map,
            final(self).post_intercept_map == old(self).post_intercept_map,
    {
        self.phase = Phase::Finished;
        Ok(LoopCommand::Kill { signal: sys::sigkill(), exit_code: sys::sigkill() })
    }

    fn resume(&mut self, resume: Resume) -> (r: Result<LoopCommand, SeccompError>)
        ensures
            (final(self).state(), r) == old(self).spec_resume(resume),
            final(self).child == old(self).child,
            final(self).trace_map == old(self).trace_map,
            final(self).intercept_map == old(self).intercept_map,
            final(self).post_intercept_map == old(self).post_intercept_map,
    {
        self.phase = Phase::Waiting;
        Ok(LoopCommand::Resume(resume))
    }

    fn on_wait(&mut self, ret: i32, status: i32, os_error: i32) -> (r: Result<
        LoopCommand,
        SeccompError,
    >)
        ensures
            (final(self).state(), r) == old(self).spec_on_wait(ret, status, os_error),
            final(self).child == old(self).child,
            final(self).trace_map == old(self).trace_map,
            final(self).intercept_map == old(self).intercept_map,
            final(self).post_intercept_map == old(self).post_intercept_map,
    {
        if ret == -1 {
            self.phase = Phase::Finished;
            if os_error == sys::echild() {
                return Ok(LoopCommand::Finish);
            }
            return Err(SeccompError::IO(IoFailure::Os(os_error)));
        }
        match StopKind::classify(status) {
            StopKind::Terminated => {
                self.phase = Phase::Finished;
                Ok(LoopCommand::Finish)
            },
            StopKind::SyscallBoundary => {
                if self.in_syscall {
                    self.in_syscall = false;
                    self.phase = Phase::ReadingRegisters(DecodedStop::SyscallExit);
                    Ok(LoopCommand::ReadRegisters)
                } else {
                    self.in_syscall = true;
                    self.phase = Phase::Waiting;
                    Ok(LoopCommand::Resume(Resume::SyscallStop))
                }
            },
            StopKind::SeccompTrap => {
                self.phase = Phase::ReadingRegisters(DecodedStop::SeccompTrap);
                Ok(LoopCommand::ReadRegisters)
            },
            StopKind::OtherSignal => self.resume(Resume::SyscallStop),
            StopKind::Running => {
                self.phase = Phase::Waiting;
                Ok(LoopCommand::Wait)
            },
        }
    }

    fn enter(&mut self, syscall: Syscall, registers: Registers, traced: bool) -> (r: Result<
        LoopCommand,
        SeccompError,
    >)
        ensures
            (final(self).state(), r) == old(self).spec_enter(syscall, registers, traced),
            final(self).child == old(self).child,
            final(self).trace_map == old(self).trace_map,
            final(self).intercept_map == old(self).intercept_map,
            final(self).post_intercept_map == old(self).post_intercept_map,
    {
        match self.intercept_map.position(syscall) {
            Some(index) => {
                self.phase = Phase::Entering { traced };
                Ok(
                    LoopCommand::RunEntryInterceptor {
                        index,
                        interceptor: Interceptor::new(syscall, registers, self.child),
                    },
                )
            },
            None => {
                let resume = if traced {
                    Resume::Continue
                } else {
                    Resume::SyscallStop
                };
                self.resume(resume)
            },
        }
    }

    fn on_registers(&mut self, stop: DecodedStop, registers: Registers) -> (r: Result<
        LoopCommand,
        SeccompError,
    >)
        ensures
            (final(self).state(), r) == old(self).spec_on_registers(stop, registers),
            final(self).child == old(self).child,
            final(self).trace_map == old(self).trace_map,
            final(self).intercept_map == old(self).intercept_map,
            final(self).post_intercept_map == old(self).post_intercept_map,
    {
        let id = syscall_id(registers.syscall_number());
        let syscall = match Syscall::from_number(id) {
            Ok(syscall) => syscall,
            Err(e) => {
                self.phase = Phase::Waiting;
                return Err(e);
            },
        };
        match stop {
            DecodedStop::SeccompTrap => match self.trace_map.position(syscall) {
                Some(index) => {
                    self.phase = Phase::Tracing { syscall, registers };
                    Ok(LoopCommand::RunTracer { index, syscall })
                },
                None => self.enter(syscall, registers, false),
            },
            DecodedStop::SyscallExit => match self.post_intercept_map.position(syscall) {
                Some(index) => {
                    self.phase = Phase::Exiting;
                    Ok(
                        LoopCommand::RunExitInterceptor {
                            index,
                            interceptor: Interceptor::new(syscall, registers, self.child),
                        },
                    )
                },
                None => self.resume(Resume::SyscallStop),
            },
        }
    }

    /// Answers `event`: moves to the next state and says what to do next.
    ///
    /// An error leaves the tracee as it is. After a failed wait the loop is
    /// over; after registers that could not be read, or that name no known
    /// system call, the loop is waiting again and the tracee is still
    /// stopped. An event that the loop is not waiting for is answered with
    /// `Unknown` and changes nothing.
    pub fn step(&mut self, event: LoopEvent) -> (r: Result<LoopCommand, SeccompError>)
        ensures
            (final(self).state(), r) == old(self).spec_step(event),
            final(self).child == old(self).child,
            final(self).trace_map == old(self).trace_map,
            final(self).intercept_map == old(self).intercept_map,
            final(self).post_intercept_map == old(self).post_intercept_map,
            *final(self) == old(self).spec_after(event),
    {
        let mut phase = Phase::Waiting;
        core::mem::swap(&mut self.phase, &mut phase);
        match (phase, event) {
            (Phase::Waiting, LoopEvent::Waited { ret, status, os_error }) => self.on_wait(
                ret,
                status,
                os_error,
            ),
            (Phase::ReadingRegisters(_), LoopEvent::Registers(Err(e))) => {
                self.phase = Phase::Waiting;
                Err(e)
            },
            (Phase::ReadingRegisters(stop), LoopEvent::Registers(Ok(registers))) => {
                self.on_registers(stop, registers)
            },
            (Phase::Tracing { syscall, registers }, LoopEvent::Verdict(verdict)) => match verdict {
                TraceAction::Kill => self.kill(),
                _ => self.enter(syscall, registers, true),
            },
            (Phase::Entering { traced }, LoopEvent::Verdict(verdict)) => match verdict {
                TraceAction::Kill => self.kill(),
                TraceAction::SkipExit => self.resume(Resume::Continue),
                TraceAction::Continue => {
                    let resume = if traced {
                        Resume::Continue
                    } else {
                        Resume::SyscallStop
                    };
                    self.resume(resume)
                },
            },
            (Phase::Exiting, LoopEvent::Verdict(verdict)) => match verdict {
                TraceAction::Kill => self.kill(),
                _ => self.resume(Resume::SyscallStop),
            },
            (phase, _) => {
                self.phase = phase;
                Err(SeccompError::Unknown)
            },
        }
    }
}

/// A `Kill` verdict ends the tracee and the loop at once, whichever handler
/// gave it: the command is to kill, and the loop is over.
pub proof fn lemma_kill_verdict_ends_loop<T, H>(ev: EventLoop<T, H>)
    requires
        ev.phase is Tracing || ev.phase is Entering || ev.phase is Exiting,
    ensures
        ev.spec_step(LoopEvent::Verdict(TraceAction::Kill)).1 == Ok::<LoopCommand, SeccompError>(
            LoopCommand::Kill { signal: 9, exit_code: 9 },
        ),
        ev.spec_step(LoopEvent::Verdict(TraceAction::Kill)).0.phase == Phase::Finished,
{
}

/// The flag that tells entry from exit changes on system call boundaries and
/// on nothing else: it flips when a wait reports a boundary, and every other
/// event leaves it as it is.
pub proof fn lemma_flag_flips_on_boundaries<T, H>(ev: EventLoop<T, H>, event: LoopEvent)
    ensures
        ev.spec_step(event).0.in_syscall != ev.in_syscall <==> (ev.phase is Waiting && (
        event matches LoopEvent::Waited { ret, status, os_error } && ret != -1
            && StopKind::spec_classify(status) == StopKind::SyscallBoundary)),
{
}

/// An exit interceptor runs only at the exit of a system call, for the system
/// call that the registers name, as the first handler registered for it, and
/// on the registers as they were read at that stop.
pub proof fn lemma_exit_interceptor_runs_at_exit<T, H>(ev: EventLoop<T, H>, event: LoopEvent)
    requires
        ev.spec_step(event).1 matches Ok(LoopCommand::RunExitInterceptor { .. }),
    ensures
        ev.phase == Phase::ReadingRegisters(DecodedStop::SyscallExit),
        ev.spec_step(event).0.phase == Phase::Exiting,
        ({
            let index = ev.spec_step(event).1->Ok_0->RunExitInterceptor_index;
            let interceptor = ev.spec_step(event).1->Ok_0->RunExitInterceptor_interceptor;
            &&& event == LoopEvent::Registers(Ok(interceptor.registers))
            &&& interceptor.child_pid == ev.child
            &&& interceptor.syscall.spec_number() == spec_syscall_id(
                interceptor.registers@.spec_syscall_number(),
            )
            &&& ev.post_intercept_map.spec_position(interceptor.syscall) == Some(index as int)
            &&& index < ev.post_intercept_map@.len()
        }),
{
    if let LoopEvent::Registers(Ok(registers)) = event {
        let id = spec_syscall_id(registers@.spec_syscall_number());
        if let Ok(syscall) = Syscall::spec_from_number(id) {
            Syscall::lemma_known_number_decodes(id);
            lemma_first_match(keys_of(ev.post_intercept_map@), syscall);
            assert(ev.post_intercept_map.0.len() == ev.post_intercept_map@.len());
        }
    }
}

/// A trace handler runs only at a filter trap, never at a system call
/// boundary: it runs for the system call that the registers read at the trap
/// name, and it is the first handler registered for that system call.
pub proof fn lemma_tracer_runs_at_traps<T, H>(ev: EventLoop<T, H>, event: LoopEvent)
    requires
        ev.spec_step(event).1 matches Ok(LoopCommand::RunTracer { .. }),
    ensures
        ev.phase == Phase::ReadingRegisters(DecodedStop::SeccompTrap),
        ({
            let index = ev.spec_step(event).1->Ok_0->RunTracer_index;
            let syscall = ev.spec_step(event).1->Ok_0->RunTracer_syscall;
            &&& event matches LoopEvent::Registers(Ok(registers)) && syscall.spec_number()
                == spec_syscall_id(registers@.spec_syscall_number()) && ev.spec_step(
                event,
            ).0.phase == (Phase::Tracing { syscall, registers })
            &&& ev.trace_map.spec_position(syscall) == Some(index as int)
            &&& index < ev.trace_map@.len()
        }),
{
    if let LoopEvent::Registers(Ok(registers)) = event {
        let id = spec_syscall_id(registers@.spec_syscall_number());
        if let Ok(syscall) = Syscall::spec_from_number(id) {
            Syscall::lemma_known_number_decodes(id);
            lemma_first_match(keys_of(ev.trace_map@), syscall);
            assert(ev.trace_map.0.len() == ev.trace_map@.len());
        }
    }
}

/// The exit of a system call is read only on every second boundary: the loop
/// asks for the registers of an exit only when a wait reports a boundary
/// while the tracee is inside a system call.
pub proof fn lemma_exit_follows_entry<T, H>(ev: EventLoop<T, H>, event: LoopEvent)
    requires
        ev.phase != Phase::ReadingRegisters(DecodedStop::SyscallExit),
        ev.spec_step(event).0.phase == Phase::ReadingRegisters(DecodedStop::SyscallExit),
    ensures
        ev.phase is Waiting,
        ev.in_syscall,
        !ev.spec_step(event).0.in_syscall,
        ev.spec_step(event).1 == Ok::<LoopCommand, SeccompError>(LoopCommand::ReadRegisters),
{
}

/// At a filter trap the trace handler runs before the entry interceptor, and
/// both see the same system call: once the trace handler has let the system
/// call go on, the entry interceptor for it runs on the registers of the
/// trap, if there is one, and else the tracee runs on.
pub proof fn lemma_tracer_runs_before_interceptor<T, H>(ev: EventLoop<T, H>, verdict: TraceAction)
    requires
        ev.phase is Tracing,
        verdict != TraceAction::Kill,
    ensures
        ({
            let syscall = ev.phase->Tracing_syscall;
            let registers = ev.phase->Tracing_registers;
            let next = ev.spec_step(LoopEvent::Verdict(verdict));
            match ev.intercept_map.spec_position(syscall) {
                Some(i) => next.1 == Ok::<LoopCommand, SeccompError>(
                    LoopCommand::RunEntryInterceptor {
                        index: i as usize,
                        interceptor: Interceptor { syscall, registers, child_pid: ev.child },
                    },
                ) && next.0.phase == (Phase::Entering { traced: true }),
                None => next.1 == Ok::<LoopCommand, SeccompError>(
                    LoopCommand::Resume(Resume::Continue),
                ) && next.0.phase == Phase::Waiting,
            }
        }),
{
}

/// A stop in a system call that has no handler runs nothing: at a filter
/// trap and at an exit alike the tracee is set going again, to stop at its
/// next system call boundary.
pub proof fn lemma_unhandled_syscall_runs_on<T, H>(
    ev: EventLoop<T, H>,
    stop: DecodedStop,
    registers: Registers,
    syscall: Syscall,
)
    requires
        ev.phase == Phase::ReadingRegisters(stop),
        Syscall::spec_from_number(spec_syscall_id(registers@.spec_syscall_number())) == Ok::<
            Syscall,
            SeccompError,
        >(syscall),
        ev.trace_map.spec_position(syscall) is None,
        ev.intercept_map.spec_position(syscall) is None,
        ev.post_intercept_map.spec_position(syscall) is None,
    ensures
        ev.spec_step(LoopEvent::Registers(Ok(registers))).1 == Ok::<LoopCommand, SeccompError>(
            LoopCommand::Resume(Resume::SyscallStop),
        ),
        ev.spec_step(LoopEvent::Registers(Ok(registers))).0 == (LoopState {
            in_syscall: ev.in_syscall,
            phase: Phase::Waiting,
        }),
{
}

/// Registers that name no known system call are reported as
/// `UnsupportedSyscallID` with the number they name, and the loop goes back
/// to waiting.
pub proof fn lemma_unknown_syscall_is_reported<T, H>(
    ev: EventLoop<T, H>,
    stop: DecodedStop,
    registers: Registers,
)
    requires
        ev.phase == Phase::ReadingRegisters(stop),
        !Syscall::is_known(spec_syscall_id(registers@.spec_syscall_number())),
    ensures
        ev.spec_step(LoopEvent::Registers(Ok(registers))).1 == Err::<LoopCommand, SeccompError>(
            SeccompError::UnsupportedSyscallID(
                spec_syscall_id(registers@.spec_syscall_number()),
            ),
        ),
        ev.spec_step(LoopEvent::Registers(Ok(registers))).0.phase == Phase::Waiting,
{
}

/// The end of the tracee ends the loop, and a loop that is over answers
/// every event with `Unknown` and stays over.
pub proof fn lemma_finished_is_final<T, H>(ev: EventLoop<T, H>, event: LoopEvent)
    ensures
        ev.phase is Waiting && (event matches LoopEvent::Waited { ret, status, os_error } && ret
            != -1 && StopKind::spec_classify(status) == StopKind::Terminated) ==> ev.spec_step(
            event,
        ).1 == Ok::<LoopCommand, SeccompError>(LoopCommand::Finish) && ev.spec_step(
            event,
        ).0.phase == Phase::Finished,
        ev.phase is Finished ==> ev.spec_step(event).0 == ev.state() && ev.spec_step(event).1
            == Err::<LoopCommand, SeccompError>(SeccompError::Unknown),
{
}

/// One filter trap, as the loop is told of it: the wait that reports the
/// trap, the registers read at it, and what the trace handler said.
pub struct TrapRound {
    /// What the wait returned.
    pub ret: i32,
    /// The status that the wait reported.
    pub status: i32,
    /// The error code beside the wait's result.
    pub os_error: i32,
    /// The registers of the tracee at the trap.
    pub registers: Registers,
    /// The verdict of the trace handler.
    pub verdict: TraceAction,
}

impl TrapRound {
    /// Whether this is a filter trap in `syscall` that the trace handler lets
    /// go on.
    pub open spec fn traps(self, syscall: Syscall) -> bool {
        &&& self.ret != -1
        &&& StopKind::spec_classify(self.status) == StopKind::SeccompTrap
        &&& Syscall::spec_from_number(spec_syscall_id(self.registers@.spec_syscall_number()))
            == Ok::<Syscall, SeccompError>(syscall)
        &&& self.verdict != TraceAction::Kill
    }

    /// The events of this trap, in the order in which the loop is told them.
    pub open spec fn events(self) -> Seq<LoopEvent> {
        seq![
            LoopEvent::Waited { ret: self.ret, status: self.status, os_error: self.os_error },
            LoopEvent::Registers(Ok(self.registers)),
            LoopEvent::Verdict(self.verdict),
        ]
    }
}

/// The events of `rounds`, one trap after the other.
pub open spec fn rounds_events(rounds: Seq<TrapRound>) -> Seq<LoopEvent>
    decreases rounds.len(),
{
    if rounds.len() == 0 {
        Seq::empty()
    } else {
        rounds[0].events() + rounds_events(rounds.drop_first())
    }
}

/// The loop's answers to one trap in `syscall` whose trace handler stands at
/// `index`: read the registers, run the handler, let the system call run on.
pub open spec fn traced_round(index: usize, syscall: Syscall) -> Seq<
    Result<LoopCommand, SeccompError>,
> {
    seq![
        Ok(LoopCommand::ReadRegisters),
        Ok(LoopCommand::RunTracer { index, syscall }),
        Ok(LoopCommand::Resume(Resume::Continue)),
    ]
}

/// The loop's answers to `n` such traps.
pub open spec fn traced_rounds(n: nat, index: usize, syscall: Syscall) -> Seq<
    Result<LoopCommand, SeccompError>,
>
    decreases n,
{
    if n == 0 {
        Seq::empty()
    } else {
        traced_round(index, syscall) + traced_rounds((n - 1) as nat, index, syscall)
    }
}

/// How often `commands` ask for a trace handler to be run.
pub open spec fn tracer_runs(commands: Seq<Result<LoopCommand, SeccompError>>) -> nat
    decreases commands.len(),
{
    if commands.len() == 0 {
        0
    } else {
        let first: nat = if commands[0] matches Ok(LoopCommand::RunTracer { .. }) {
            1
        } else {
            0
        };
        first + tracer_runs(commands.drop_first())
    }
}

/// Counting over two runs of commands adds up.
pub proof fn lemma_tracer_runs_add(
    a: Seq<Result<LoopCommand, SeccompError>>,
    b: Seq<Result<LoopCommand, SeccompError>>,
)
    ensures
        tracer_runs(a + b) == tracer_runs(a) + tracer_runs(b),
    decreases a.len(),
{
    if a.len() == 0 {
        assert(a + b =~= b);
    } else {
        assert((a + b)[0] == a[0]);
        assert((a + b).drop_first() =~= a.drop_first() + b);
        lemma_tracer_runs_add(a.drop_first(), b);
    }
}

/// The answers to `n` traced traps ask for the trace handler `n` times.
pub proof fn lemma_traced_rounds_run_tracer(n: nat, index: usize, syscall: Syscall)
    ensures
        traced_rounds(n, index, syscall).len() == 3 * n,
        tracer_runs(traced_rounds(n, index, syscall)) == n,
    decreases n,
{
    if n > 0 {
        let round = traced_round(index, syscall);
        let rest = traced_rounds((n - 1) as nat, index, syscall);
        lemma_traced_rounds_run_tracer((n - 1) as nat, index, syscall);
        lemma_tracer_runs_add(round, rest);
        let tail1 = round.drop_first();
        let tail2 = tail1.drop_first();
        assert(tail2.drop_first() =~= Seq::empty());
        assert(tracer_runs(tail2.drop_first()) == 0);
        assert(tracer_runs(tail2) == 0);
        assert(tracer_runs(tail1) == 1);
        assert(tracer_runs(round) == 1);
    }
}

/// Answering one run of events and then another is answering them all in
/// order.
pub proof fn lemma_run_in_parts<T, H>(ev: EventLoop<T, H>, a: Seq<LoopEvent>, b: Seq<LoopEvent>)
    ensures
        ev.spec_run(a + b) == ev.spec_run(a) + ev.spec_after_all(a).spec_run(b),
        ev.spec_after_all(a + b) == ev.spec_after_all(a).spec_after_all(b),
    decreases a.len(),
{
    if a.len() == 0 {
        assert(a + b =~= b);
        assert(ev.spec_run(a) + ev.spec_run(b) =~= ev.spec_run(b));
    } else {
        let next = ev.spec_after(a[0]);
        assert((a + b)[0] == a[0]);
        assert((a + b).drop_first() =~= a.drop_first() + b);
        lemma_run_in_parts(next, a.drop_first(), b);
        assert(ev.spec_run(a + b) =~= ev.spec_run(a) + ev.spec_after_all(a).spec_run(b));
    }
}

/// One trap in a system call that has a trace handler and no entry
/// interceptor: the loop reads the registers, runs the handler once, lets
/// the system call run on, and is then as it was before the trap.
pub proof fn lemma_traced_trap<T, H>(
    ev: EventLoop<T, H>,
    round: TrapRound,
    syscall: Syscall,
    index: usize,
)
    requires
        ev.phase == Phase::Waiting,
        ev.trace_map.spec_position(syscall) == Some(index as int),
        ev.intercept_map.spec_position(syscall) is None,
        round.traps(syscall),
    ensures
        ev.spec_run(round.events()) == traced_round(index, syscall),
        ev.spec_after_all(round.events()) == ev,
{
    let e = round.events();
    let e1 = e.drop_first();
    let e2 = e1.drop_first();
    assert(e2.drop_first() =~= Seq::empty());
    let ev1 = ev.spec_after(e[0]);
    let ev2 = ev1.spec_after(e1[0]);
    let ev3 = ev2.spec_after(e2[0]);
    assert(ev1.phase == Phase::ReadingRegisters(DecodedStop::SeccompTrap));
    assert(ev2.phase == (Phase::Tracing { syscall, registers: round.registers }));
    assert(ev3 == ev);
    assert(ev3.spec_run(e2.drop_first()) =~= Seq::empty());
    assert(ev3.spec_after_all(e2.drop_first()) == ev3);
    assert(ev2.spec_run(e2) =~= seq![ev2.spec_step(e2[0]).1]);
    assert(ev2.spec_after_all(e2) == ev3);
    assert(ev1.spec_run(e1) =~= seq![ev1.spec_step(e1[0]).1, ev2.spec_step(e2[0]).1]);
    assert(ev1.spec_after_all(e1) == ev3);
    assert(ev.spec_run(e) =~= traced_round(index, syscall));
}

/// A trace handler runs once for every trap of its system call, and at no
/// other time. Let a system call have a trace handler and no entry
/// interceptor, and let the tracee trap in it `n` times and then end, the
/// handler letting it go on each time. Then the loop, from its start or
/// from any wait, answers each trap by reading the registers, running that
/// handler on that system call, and resuming; it asks for a trace handler
/// exactly `n` times; between the traps it is as it was before them; and it
/// answers the end by finishing.
pub proof fn lemma_trace_handler_runs_once_per_trap<T, H>(
    ev: EventLoop<T, H>,
    rounds: Seq<TrapRound>,
    syscall: Syscall,
    index: usize,
    end: LoopEvent,
)
    requires
        ev.phase == Phase::Waiting,
        ev.trace_map.spec_position(syscall) == Some(index as int),
        ev.intercept_map.spec_position(syscall) is None,
        forall|k: int| 0 <= k < rounds.len() ==> (#[trigger] rounds[k]).traps(syscall),
        end matches LoopEvent::Waited { ret, status, os_error } && ret != -1
            && StopKind::spec_classify(status) == StopKind::Terminated,
    ensures
        ev.spec_run(rounds_events(rounds)) == traced_rounds(rounds.len(), index, syscall),
        tracer_runs(ev.spec_run(rounds_events(rounds))) == rounds.len(),
        ev.spec_after_all(rounds_events(rounds)) == ev,
        ev.spec_run(rounds_events(rounds).push(end)) == traced_rounds(
            rounds.len(),
            index,
            syscall,
        ).push(Ok(LoopCommand::Finish)),
        tracer_runs(ev.spec_run(rounds_events(rounds).push(end))) == rounds.len(),
        ev.spec_after_all(rounds_events(rounds).push(end)).phase == Phase::Finished,
    decreases rounds.len(),
{
    let n = rounds.len();
    let events = rounds_events(rounds);
    if n > 0 {
        let rest = rounds.drop_first();
        assert(rounds[0].traps(syscall));
        assert forall|k: int| 0 <= k < rest.len() implies (#[trigger] rest[k]).traps(syscall) by {
            assert(rest[k] == rounds[k + 1]);
        }
        lemma_traced_trap(ev, rounds[0], syscall, index);
        lemma_trace_handler_runs_once_per_trap(ev, rest, syscall, index, end);
        lemma_run_in_parts(ev, rounds[0].events(), rounds_events(rest));
    }
    assert(ev.spec_run(events) == traced_rounds(n, index, syscall));
    assert(ev.spec_after_all(events) == ev);
    lemma_traced_rounds_run_tracer(n, index, syscall);
    let last = seq![end];
    assert(events.push(end) =~= events + last);
    lemma_run_in_parts(ev, events, last);
    assert(last.drop_first() =~= Seq::empty());
    assert(ev.spec_after(end).spec_run(last.drop_first()) =~= Seq::empty());
    assert(ev.spec_run(last) =~= seq![Ok::<LoopCommand, SeccompError>(LoopCommand::Finish)]);
    assert(ev.spec_run(events.push(end)) =~= traced_rounds(n, index, syscall).push(
        Ok(LoopCommand::Finish),
    ));
    lemma_tracer_runs_add(ev.spec_run(events), ev.spec_run(last));
    assert(ev.spec_run(last).drop_first() =~= Seq::empty());
    assert(tracer_runs(ev.spec_run(last).drop_first()) == 0);
    assert(tracer_runs(ev.spec_run(last)) == 0);
    assert(last[0] == end);
    assert(ev.spec_after(end).spec_after_all(last.drop_first()) == ev.spec_after(end));
    assert(ev.spec_after_all(last) == ev.spec_after(end));
}

} // verus!
