//! The values that cross the boundary to the filter compiler and to the
//! tracing primitive, and the reading of what those return.
//!
//! The calls themselves are made by the embedding program. What it hands to
//! them is computed here, and what they return is read here: a return value
//! and an error code go in, a typed result comes out.

use crate::error::IoFailure;
use crate::error::SeccompError;
use crate::event_loop::EventLoop;
use crate::event_loop::Phase;
use crate::filter::intercept::InterceptorMap;
use crate::filter::tracer::TracerMap;
use crate::registers::Registers;
use crate::registers::UserRegs;
use crate::sys;
use crate::syscall::Syscall;
use vstd::prelude::*;

verus! {

/// What the kernel does with a system call that a rule names, or with every
/// system call that no rule names.
#[derive(Debug, Copy, Clone, PartialEq, Eq, PartialOrd, Ord, Structural)]
pub enum Action {
    /// Let the system call run.
    Allow,
    /// Kill the process.
    Kill,
    /// Make the system call fail with this error code, without running it.
    Errno(u16),
    /// Stop the process and hand the system call to the tracer.
    Trace,
}

impl Action {
    /// The raw encoding of this action, as the filter compiler takes it: the
    /// kernel's return value for the action, with the error code of `Errno`
    /// in the low half. `Kill` kills the whole process, and `Trace` carries
    /// the message zero.
    pub open spec fn spec_to_raw(self) -> u32 {
        match self {
            Action::Allow => 0x7fff_0000u32,
            Action::Kill => 0x8000_0000u32,
            Action::Errno(code) => 0x0005_0000u32 | code as u32,
            Action::Trace => 0x7ff0_0000u32,
        }
    }

    /// The raw encoding of this action, as the filter compiler takes it.
    #[verifier::when_used_as_spec(spec_to_raw)]
    pub fn to_raw(self) -> (raw: u32)
        ensures
            raw == self.spec_to_raw(),
    {
        match self {
            Action::Allow => 0x7fff_0000,
            Action::Kill => 0x8000_0000,
            Action::Errno(code) => 0x0005_0000 | code as u32,
            Action::Trace => 0x7ff0_0000,
        }
    }

    /// Distinct actions have distinct raw encodings.
    pub proof fn lemma_to_raw_injective(a: Action, b: Action)
        requires
            a.spec_to_raw() == b.spec_to_raw(),
        ensures
            a == b,
    {
        match (a, b) {
            (Action::Errno(x), Action::Errno(y)) => {
                assert((0x0005_0000u32 | x as u32) == (0x0005_0000u32 | y as u32) ==> x == y)
                    by (bit_vector);
            },
            (Action::Errno(x), _) => {
                assert((0x0005_0000u32 | x as u32) < 0x0006_0000u32) by (bit_vector);
            },
            (_, Action::Errno(y)) => {
                assert((0x0005_0000u32 | y as u32) < 0x0006_0000u32) by (bit_vector);
            },
            _ => {},
        }
    }
}

/// What a handler tells the event loop to do with the tracee.
#[derive(Debug, Copy, Clone, PartialEq, Eq, Structural)]
pub enum TraceAction {
    /// Let the system call go on.
    Continue,
    /// Kill the tracee.
    Kill,
    /// Let the system call go on and do not stop at its exit.
    SkipExit,
}

/// Which side of a fork a process is on.
#[derive(Debug, Copy, Clone, PartialEq, Eq, Structural)]
pub enum ForkResult {
    /// The supervising process, with the process id of the tracee.
    Parent(i32),
    /// The tracee.
    Child,
}

impl ForkResult {
    /// The process id of the tracee as this side sees it: the child's id in
    /// the parent, zero in the child.
    pub open spec fn spec_get_pid(&self) -> i32 {
        match self {
            ForkResult::Parent(pid) => *pid,
            ForkResult::Child => 0,
        }
    }

    /// The process id of the tracee as this side sees it: the child's id in
    /// the parent, zero in the child.
    #[verifier::when_used_as_spec(spec_get_pid)]
    pub fn get_pid(&self) -> (pid: i32)
        ensures
            pid == self.spec_get_pid(),
    {
        match self {
            ForkResult::Parent(pid) => *pid,
            ForkResult::Child => 0,
        }
    }
}

/// A filter context of the filter compiler: the handle under which the
/// compiler knows it, and the action that it takes where no rule applies.
#[derive(Debug, Copy, Clone, PartialEq, Eq, Structural)]
pub struct SeccompWrapper {
    /// The compiler's handle for the context; never zero.
    pub context: usize,
    /// What the kernel does with a system call that no rule names.
    pub default_action: Action,
}

impl SeccompWrapper {
    /// Whether the handle is one that the compiler can have given out.
    pub open spec fn wf(&self) -> bool {
        self.context != 0
    }

    /// Reads the outcome of creating a context with `default_action`:
    /// `context` is the handle that came back, zero if none did.
    ///
    /// Fails with `InitContextFailed` exactly when no handle came back.
    pub fn init_context(default_action: Action, context: usize) -> (r: Result<Self, SeccompError>)
        ensures
            match r {
                Ok(w) => context != 0 && w == (SeccompWrapper { context, default_action })
                    && w.wf(),
                Err(e) => context == 0 && e == SeccompError::InitContextFailed,
            },
    {
        if context == 0 {
            Err(SeccompError::InitContextFailed)
        } else {
            Ok(Self { context, default_action })
        }
    }

    /// Reads the outcome of resolving the system call name `name`: `resolved`
    /// is what the compiler returned.
    ///
    /// Fails with `UnsupportedSyscall(name)` exactly when the compiler
    /// returned its error number, -1.
    pub fn resolve_syscall(name: &str, resolved: i32) -> (r: Result<i32, SeccompError>)
        ensures
            match r {
                Ok(num) => resolved != -1 && num == resolved,
                Err(e) => resolved == -1 && (e matches SeccompError::UnsupportedSyscall(n) && n@
                    == name@),
            },
    {
        if resolved == -1 {
            Err(SeccompError::UnsupportedSyscall(name.to_owned()))
        } else {
            Ok(resolved)
        }
    }

    /// Reads the outcome of adding the rule that answers `syscall` with
    /// `action`: `ret` is what the compiler returned.
    ///
    /// Fails with `AddRuleFailed(syscall)` exactly when `ret` is not zero.
    pub fn add_rule(&self, action: Action, syscall: Syscall, ret: i32) -> (r: Result<
        (),
        SeccompError,
    >)
        ensures
            ret == 0 ==> r is Ok,
            ret != 0 ==> r == Err::<(), SeccompError>(SeccompError::AddRuleFailed(syscall)),
    {
        if ret != 0 {
            return Err(SeccompError::AddRuleFailed(syscall));
        }
        Ok(())
    }

    /// Reads the outcome of loading the context into the kernel: `ret` is
    /// what the compiler returned.
    ///
    /// Fails with `LoadError` exactly when `ret` is not zero.
    pub fn load(&self, ret: i32) -> (r: Result<(), SeccompError>)
        ensures
            ret == 0 ==> r is Ok,
            ret != 0 ==> r == Err::<(), SeccompError>(SeccompError::LoadError),
    {
        if ret != 0 {
            return Err(SeccompError::LoadError);
        }
        Ok(())
    }
}

/// What a change of the tracee's state, as a wait reports it, means to the
/// event loop.
#[derive(Debug, Copy, Clone, PartialEq, Eq, Structural)]
pub enum StopKind {
    /// The tracee exited or was ended by a signal.
    Terminated,
    /// The tracee stopped at the entry or at the exit of a system call.
    SyscallBoundary,
    /// The tracee stopped on a filter rule that hands the system call to the
    /// tracer, before the system call runs.
    SeccompTrap,
    /// The tracee stopped on any other signal.
    OtherSignal,
    /// The tracee neither ended nor stopped.
    Running,
}

impl StopKind {
    /// What the wait status `status` means.
    ///
    /// The low seven bits tell an end (anything but `0x7f`) from a stop (the
    /// low byte is `0x7f`). Of a stop, the second byte is the signal: the
    /// trap signal with bit 7 set marks a system call boundary, and the plain
    /// trap signal with the filter's event code in the upper half marks a
    /// filter trap.
    pub open spec fn spec_classify(status: i32) -> StopKind {
        if (status & 0x7f) == 0 || ((status & 0x7f) != 0 && (status & 0x7f) != 0x7f) {
            StopKind::Terminated
        } else if (status & 0xff) == 0x7f {
            let sig = (status >> 8) & 0xff;
            if sig == (5i32 | 0x80) {
                StopKind::SyscallBoundary
            } else if sig == 5 && (status >> 16) == 7 {
                StopKind::SeccompTrap
            } else {
                StopKind::OtherSignal
            }
        } else {
            StopKind::Running
        }
    }

    /// What the wait status `status` means.
    pub fn classify(status: i32) -> (kind: StopKind)
        ensures
            kind == StopKind::spec_classify(status),
    {
        if libc::WIFEXITED(status) || libc::WIFSIGNALED(status) {
            StopKind::Terminated
        } else if libc::WIFSTOPPED(status) {
            let sig = libc::WSTOPSIG(status);
            if sig == (sys::sigtrap() | 0x80) {
                StopKind::SyscallBoundary
            } else if sig == sys::sigtrap() && (status >> 16) == sys::ptrace_event_seccomp() {
                StopKind::SeccompTrap
            } else {
                StopKind::OtherSignal
            }
        } else {
            StopKind::Running
        }
    }
}

/// How the tracee is set going again after a stop.
#[derive(Debug, Copy, Clone, PartialEq, Eq, Structural)]
pub enum Resume {
    /// Run until the next system call boundary, filter trap or signal.
    SyscallStop,
    /// Run until the next filter trap or signal, passing system call
    /// boundaries.
    Continue,
}

/// The request that sets a stopped tracee going again. No signal is passed on
/// to the tracee with it.
#[derive(Debug, Copy, Clone, PartialEq, Eq, Structural)]
pub struct ResumeRequest {
    /// The process id of the tracee.
    pub pid: i32,
    /// How far the tracee is to run.
    pub resume: Resume,
}

/// One process of the pair that tracing needs, as the tracing primitive
/// addresses it.
#[derive(Debug, Copy, Clone, PartialEq, Eq, Structural)]
pub struct PtraceWrapper {
    pub process: ForkResult,
}

impl PtraceWrapper {
    /// Which side of the fork this is.
    pub fn get_process(&self) -> (r: &ForkResult)
        ensures
            *r == self.process,
    {
        &self.process
    }

    /// Reads the outcome of a fork: `ret` is what the fork returned in the
    /// calling process.
    ///
    /// Fails with `Fork` exactly when `ret` is negative. Zero is the child;
    /// any other value is the parent, and is the child's process id.
    pub fn fork(ret: i32) -> (r: Result<Self, SeccompError>)
        ensures
            ret < 0 ==> r == Err::<Self, SeccompError>(SeccompError::Fork),
            ret == 0 ==> r == Ok::<Self, SeccompError>(
                PtraceWrapper { process: ForkResult::Child },
            ),
            ret > 0 ==> r == Ok::<Self, SeccompError>(
                PtraceWrapper { process: ForkResult::Parent(ret) },
            ),
    {
        if ret < 0 {
            return Err(SeccompError::Fork);
        }
        if ret == 0 {
            return Ok(Self { process: ForkResult::Child });
        }
        Ok(Self { process: ForkResult::Parent(ret) })
    }

    /// The tracer's side for the tracee `child_pid`.
    pub fn with_pid(child_pid: i32) -> (r: Self)
        ensures
            r == (PtraceWrapper { process: ForkResult::Parent(child_pid) }),
    {
        Self { process: ForkResult::Parent(child_pid) }
    }

    /// The event loop for this tracee with these handlers, about to wait for
    /// the first time.
    pub fn event_loop<T, H>(
        &self,
        trace_map: TracerMap<T>,
        intercept_map: InterceptorMap<H>,
        post_intercept_map: InterceptorMap<H>,
    ) -> (r: EventLoop<T, H>)
        ensures
            r.child == self.process.spec_get_pid(),
            r.in_syscall == false,
            r.phase == Phase::Waiting,
            r.trace_map == trace_map,
            r.intercept_map == intercept_map,
            r.post_intercept_map == post_intercept_map,
    {
        EventLoop::new(self.process.get_pid(), trace_map, intercept_map, post_intercept_map)
    }

    /// Whether a wait that returned `ret` and reported `status` saw the
    /// tracee stopped by the signal `expected`.
    pub open spec fn spec_stopped_by(expected: i32, ret: i32, status: i32) -> bool {
        ret != -1 && (status & 0xff) == 0x7f && ((status >> 8) & 0xff) == expected
    }

    /// Reads the outcome of waiting for the tracee to stop itself with the
    /// signal `expected`: `ret` and `status` are what the wait returned and
    /// reported, `os_error` is the error code if it failed.
    ///
    /// Fails with the error code if the wait failed (`ret` is -1), and with
    /// `UnexpectedSignal` if the tracee did anything but stop on `expected`.
    pub fn wait_for_signal(&self, expected: i32, ret: i32, status: i32, os_error: i32) -> (r:
        Result<(), IoFailure>)
        ensures
            r is Ok <==> PtraceWrapper::spec_stopped_by(expected, ret, status),
            ret == -1 ==> r == Err::<(), IoFailure>(IoFailure::Os(os_error)),
            ret != -1 && !PtraceWrapper::spec_stopped_by(expected, ret, status) ==> r == Err::<
                (),
                IoFailure,
            >(IoFailure::UnexpectedSignal),
    {
        if ret == -1 {
            return Err(IoFailure::Os(os_error));
        }
        if !libc::WIFSTOPPED(status) || libc::WSTOPSIG(status) != expected {
            return Err(IoFailure::UnexpectedSignal);
        }
        Ok(())
    }

    /// The tracer options that the event loop relies on: filter traps stop
    /// the tracee, and system call boundaries are told from other traps.
    pub fn trace_options() -> (options: i32)
        ensures
            options == 0x81,
    {
        let options = sys::ptrace_o_traceseccomp() | sys::ptrace_o_tracesysgood();
        assert(0x80i32 | 1i32 == 0x81i32) by (bit_vector);
        options
    }

    /// Reads the outcome of setting the tracer options: `ret` is what the
    /// tracing primitive returned, `os_error` the error code if it failed.
    ///
    /// Fails with `PtraceOptionsSet` exactly when `ret` is -1.
    pub fn set_traceseccomp_option(&self, ret: i64, os_error: i32) -> (r: Result<
        &Self,
        SeccompError,
    >)
        ensures
            ret != -1 ==> r == Ok::<&Self, SeccompError>(self),
            ret == -1 ==> r == Err::<&Self, SeccompError>(
                SeccompError::PtraceOptionsSet(self.process.spec_get_pid(), os_error),
            ),
    {
        if ret == -1 {
            return Err(SeccompError::PtraceOptionsSet(self.process.get_pid(), os_error));
        }
        Ok(self)
    }

    /// Reads the outcome of a process asking to be traced by its parent:
    /// `ret` is what the tracing primitive returned, `os_error` the error
    /// code if it failed.
    ///
    /// Fails with `PtraceSyscall` exactly when `ret` is -1.
    pub fn enable_tracing(&self, ret: i64, os_error: i32) -> (r: Result<&Self, SeccompError>)
        ensures
            ret != -1 ==> r == Ok::<&Self, SeccompError>(self),
            ret == -1 ==> r == Err::<&Self, SeccompError>(
                SeccompError::PtraceSyscall(self.process.spec_get_pid(), os_error),
            ),
    {
        if ret == -1 {
            return Err(SeccompError::PtraceSyscall(self.process.get_pid(), os_error));
        }
        Ok(self)
    }

    /// Reads the outcome of fetching the tracee's registers: `ret` is what
    /// the tracing primitive returned, `raw` the registers that it filled in,
    /// `os_error` the error code if it failed.
    ///
    /// Fails with the error code exactly when `ret` is -1; otherwise the
    /// snapshot holds `raw`.
    pub fn get_registers(&self, ret: i64, raw: UserRegs, os_error: i32) -> (r: Result<
        Registers,
        SeccompError,
    >)
        ensures
            ret != -1 ==> r == Ok::<Registers, SeccompError>(Registers::spec_from_raw(raw)),
            r matches Ok(regs) ==> regs@ == raw,
            ret == -1 ==> r == Err::<Registers, SeccompError>(
                SeccompError::IO(IoFailure::Os(os_error)),
            ),
    {
        if ret == -1 {
            return Err(SeccompError::IO(IoFailure::Os(os_error)));
        }
        Ok(Registers::from_raw(raw))
    }

    /// Reads the outcome of writing registers into the tracee `child_pid`:
    /// `ret` is what the tracing primitive returned, `os_error` the error
    /// code if it failed.
    ///
    /// Fails with the error code exactly when `ret` is -1.
    pub fn set_registers(child_pid: i32, ret: i64, os_error: i32) -> (r: Result<(), SeccompError>)
        ensures
            ret != -1 ==> r is Ok,
            ret == -1 ==> r == Err::<(), SeccompError>(SeccompError::IO(IoFailure::Os(os_error))),
    {
        if ret == -1 {
            return Err(SeccompError::IO(IoFailure::Os(os_error)));
        }
        Ok(())
    }

    /// The request that lets the tracee run until its next filter trap or
    /// signal. It passes system call boundaries: after it, the exit of the
    /// system call that the tracee is in is not seen.
    pub fn continue_execution(&self) -> (r: ResumeRequest)
        ensures
            r == (ResumeRequest { pid: self.process.spec_get_pid(), resume: Resume::Continue }),
    {
        ResumeRequest { pid: self.process.get_pid(), resume: Resume::Continue }
    }

    /// The request that lets the tracee run until its next system call
    /// boundary, filter trap or signal.
    pub fn syscall_trace(&self) -> (r: ResumeRequest)
        ensures
            r == (ResumeRequest { pid: self.process.spec_get_pid(), resume: Resume::SyscallStop }),
    {
        ResumeRequest { pid: self.process.get_pid(), resume: Resume::SyscallStop }
    }

    /// Reads the outcome of arming system call tracing, the request that
    /// `syscall_trace` gives, when the tracer sets the tracee going after the
    /// handshake: `ret` is what the tracing primitive returned, `os_error`
    /// the error code if it failed.
    ///
    /// Fails with `PtraceSyscall` exactly when `ret` is -1. The tracee is
    /// then not running under the tracer, and the supervisor must not go on
    /// to the event loop.
    pub fn syscall_trace_outcome(&self, ret: i64, os_error: i32) -> (r: Result<(), SeccompError>)
        ensures
            ret != -1 ==> r is Ok,
            ret == -1 ==> r == Err::<(), SeccompError>(
                SeccompError::PtraceSyscall(self.process.spec_get_pid(), os_error),
            ),
    {
        if ret == -1 {
            return Err(SeccompError::PtraceSyscall(self.process.get_pid(), os_error));
        }
        Ok(())
    }

    /// The request that resumes the tracee in the way `resume`.
    pub fn resume(&self, resume: Resume) -> (r: ResumeRequest)
        ensures
            r == (ResumeRequest { pid: self.process.spec_get_pid(), resume }),
    {
        match resume {
            Resume::Continue => self.continue_execution(),
            Resume::SyscallStop => self.syscall_trace(),
        }
    }

    /// Whether, after the kill signal was sent with the result `kill_ret`, the
    /// tracee still has to be killed through the tracing primitive: exactly
    /// when sending the signal failed.
    pub fn kill_execution(&self, kill_ret: i32) -> (fallback: bool)
        ensures
            fallback == (kill_ret == -1),
    {
        kill_ret == -1
    }
}

} // verus!
