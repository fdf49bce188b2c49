use vstd::prelude::*;

use crate::error::ShellError;
use crate::sys::sys_waitpid;

pub mod job;
pub mod job_table;

verus! {

/// The coarse state of a process or job.
#[derive(Debug, PartialEq, Eq, Structural, Clone, Copy)]
pub enum Status {
    Running,
    Killed,
    Stopped,
    Done,
}

impl Status {
    /// No further state change can come out of `Done` or `Killed`.
    pub open spec fn spec_finished(self) -> bool {
        self is Done || self is Killed
    }

    /// Whether the state is terminal; this gates job-table cleanup.
    pub fn is_finished(&self) -> (r: bool)
        ensures
            r == self.spec_finished(),
    {
        match self {
            Status::Running | Status::Stopped => false,
            Status::Done | Status::Killed => true,
        }
    }

    /// The display name of the status.
    pub open spec fn spec_name(self) -> Seq<char> {
        match self {
            Status::Running => "Running"@,
            Status::Killed => "Killed"@,
            Status::Stopped => "Stopped"@,
            Status::Done => "Done"@,
        }
    }

    /// Renders the display name.
    pub fn name(&self) -> (r: String)
        ensures
            r@ == self.spec_name(),
    {
        match self {
            Status::Running => String::from_str("Running"),
            Status::Killed => String::from_str("Killed"),
            Status::Stopped => String::from_str("Stopped"),
            Status::Done => String::from_str("Done"),
        }
    }

    /// The coarse status an exit status stands for: none observed yet means
    /// still running; a stop beats a kill beats a normal exit.
    pub open spec fn of_exit(value: Option<ExitStatus>) -> Status {
        match value {
            Option::None => Status::Running,
            Option::Some(es) => match es.exit_status {
                ExitStatusEnum::Stopped(_) => Status::Stopped,
                ExitStatusEnum::Killed(_) => Status::Killed,
                ExitStatusEnum::Done(_) => Status::Done,
            },
        }
    }

    /// Derives the coarse status from the last observed exit status.
    pub fn from_exit(value: Option<ExitStatus>) -> (r: Status)
        ensures
            r == Status::of_exit(value),
    {
        match value {
            Option::None => Status::Running,
            Option::Some(es) => match es.exit_status {
                ExitStatusEnum::Stopped(_) => Status::Stopped,
                ExitStatusEnum::Killed(_) => Status::Killed,
                ExitStatusEnum::Done(_) => Status::Done,
            },
        }
    }
}

/// How a process left the running state: a normal exit with a code, a
/// terminating signal, or a stop signal.
#[derive(Debug, PartialEq, Clone, Copy)]
pub enum ExitStatusEnum {
    Done(i32),
    Killed(i32),
    Stopped(i32),
}

/// The exit status of a process, produced once it terminates or stops.
#[derive(Debug, PartialEq, Clone, Copy)]
pub struct ExitStatus {
    pub exit_status: ExitStatusEnum,
}

impl ExitStatus {
    /// The numeric code of a normal exit.
    pub open spec fn spec_code(self) -> Option<i32> {
        match self.exit_status {
            ExitStatusEnum::Done(code) => Some(code),
            _ => None,
        }
    }

    /// The numeric exit code: only a normal exit has one.
    pub fn code(&self) -> (r: Option<i32>)
        ensures
            r == self.spec_code(),
    {
        match self.exit_status {
            ExitStatusEnum::Done(code) => Some(code),
            ExitStatusEnum::Killed(_) => None,
            ExitStatusEnum::Stopped(_) => None,
        }
    }

    /// The terminating signal, if a signal killed the process.
    pub open spec fn spec_killed(self) -> Option<i32> {
        match self.exit_status {
            ExitStatusEnum::Killed(sig) => Some(sig),
            _ => None,
        }
    }

    /// The terminating signal: only a killed process has one.
    pub fn killed(&self) -> (r: Option<i32>)
        ensures
            r == self.spec_killed(),
    {
        match self.exit_status {
            ExitStatusEnum::Done(_) => None,
            ExitStatusEnum::Killed(sig) => Some(sig),
            ExitStatusEnum::Stopped(_) => None,
        }
    }

    /// The stop signal, if the process is stopped.
    pub open spec fn spec_stopped_signal(self) -> Option<i32> {
        match self.exit_status {
            ExitStatusEnum::Stopped(sig) => Some(sig),
            _ => None,
        }
    }

    /// The stop signal: only a stopped process has one.
    pub fn stopped_signal(&self) -> (r: Option<i32>)
        ensures
            r == self.spec_stopped_signal(),
    {
        match self.exit_status {
            ExitStatusEnum::Done(_) => None,
            ExitStatusEnum::Killed(_) => None,
            ExitStatusEnum::Stopped(sig) => Some(sig),
        }
    }
}

/// One observed state change of a child process, as a wait call reports it.
/// `Continued` also stands for a ptrace-syscall stop: both clear the cached
/// exit status. `StillAlive` is a non-blocking poll that found no change.
#[derive(Debug, PartialEq, Eq, Structural, Clone, Copy)]
pub enum WaitEvent {
    Exited(i32),
    Signaled(i32),
    Stopped(i32),
    Continued,
    StillAlive,
}

/// A process's cached view of its own state: the coarse status, and the
/// exit status last observed (none while it runs undisturbed).
#[derive(Debug, PartialEq, Clone, Copy)]
pub struct ProcessStatus {
    pub status: Status,
    pub exit_status: Option<ExitStatus>,
}

impl Default for ProcessStatus {
    /// A fresh process counts as running with nothing observed yet.
    fn default() -> (r: Self)
        ensures
            r.status == Status::Running,
            r.exit_status is None,
    {
        ProcessStatus { status: Status::Running, exit_status: None }
    }
}

impl ProcessStatus {
    /// The cached status is always the one its exit status stands for.
    pub open spec fn consistent(self) -> bool {
        self.status == Status::of_exit(self.exit_status)
    }

    /// What the cached state becomes after one wait observation.
    pub open spec fn updated(self, event: WaitEvent) -> ProcessStatus {
        let ex = match event {
            WaitEvent::Exited(code) => Some(ExitStatus { exit_status: ExitStatusEnum::Done(code) }),
            WaitEvent::Signaled(sig) => Some(
                ExitStatus { exit_status: ExitStatusEnum::Killed(sig) },
            ),
            WaitEvent::Stopped(sig) => Some(
                ExitStatus { exit_status: ExitStatusEnum::Stopped(sig) },
            ),
            WaitEvent::Continued => None,
            WaitEvent::StillAlive => self.exit_status,
        };
        ProcessStatus { status: Status::of_exit(ex), exit_status: ex }
    }

    /// Folds one wait observation into the cached state and re-derives the
    /// coarse status.
    pub fn update(&mut self, event: WaitEvent)
        ensures
            *final(self) == old(self).updated(event),
            final(self).consistent(),
    {
        match event {
            WaitEvent::Exited(code) => {
                self.exit_status = Some(ExitStatus { exit_status: ExitStatusEnum::Done(code) });
            },
            WaitEvent::Signaled(sig) => {
                self.exit_status = Some(ExitStatus { exit_status: ExitStatusEnum::Killed(sig) });
            },
            WaitEvent::Stopped(sig) => {
                self.exit_status = Some(ExitStatus { exit_status: ExitStatusEnum::Stopped(sig) });
            },
            WaitEvent::Continued => {
                self.exit_status = None;
            },
            WaitEvent::StillAlive => {},
        }
        self.status = Status::from_exit(self.exit_status);
    }
}

/// An OS process id.
#[derive(Debug, PartialEq, Eq, Structural, Clone, Copy)]
pub struct ProcessId(pub i32);

/// A runnable unit a job tracks: an externally spawned OS process, or an
/// in-process builtin result. The cached state makes repeated queries
/// idempotent: waiting on a finished process changes nothing and performs
/// no OS call.
pub trait Process: Sized {
    /// Whether this process has an OS process id.
    spec fn spec_has_pid(&self) -> bool;

    /// The OS process id (meaningful only with `spec_has_pid`).
    spec fn spec_pid(&self) -> i32;

    /// The display name.
    spec fn spec_name(&self) -> Seq<char>;

    /// The cached state.
    spec fn spec_status(&self) -> ProcessStatus;

    /// The cached state is well formed.
    spec fn inv(&self) -> bool;

    /// The OS process id; asking an in-process builtin result for one is a
    /// precondition violation.
    fn pid(&self) -> (r: ProcessId)
        requires
            self.spec_has_pid(),
        ensures
            r.0 == self.spec_pid(),
    ;

    fn name(&self) -> (r: String)
        ensures
            r@ == self.spec_name(),
    ;

    fn status(&self) -> (r: Status)
        ensures
            r == self.spec_status().status,
    ;

    fn exit_status(&self) -> (r: Option<ExitStatus>)
        ensures
            r == self.spec_status().exit_status,
    ;

    /// Collects the process's state, blocking or polling. A process whose
    /// status is already terminal is returned unchanged, without an OS
    /// call; otherwise the cached state moves along one observed event.
    fn wait(&mut self, blocking: bool) -> (r: Result<Status, ShellError>)
        requires
            old(self).inv(),
        ensures
            final(self).inv(),
            final(self).spec_has_pid() == old(self).spec_has_pid(),
            final(self).spec_pid() == old(self).spec_pid(),
            final(self).spec_name() == old(self).spec_name(),
            old(self).spec_status().status.spec_finished() ==> *final(self) == *old(self) && r
                == Ok::<Status, ShellError>(old(self).spec_status().status),
            r matches Ok(st) ==> st == final(self).spec_status().status,
            r is Err ==> *final(self) == *old(self),
            r is Ok && blocking ==> final(self).spec_status().status != Status::Running,
            exists|e: WaitEvent|
                final(self).spec_status() == old(self).spec_status().updated(e),
    ;
}

/// An externally spawned OS process: its pid and the last observed state.
#[derive(Debug)]
pub struct ExternalProcesss {
    pub name: String,
    pub pid: ProcessId,
    pub status: ProcessStatus,
}

impl Process for ExternalProcesss {
    open spec fn inv(&self) -> bool {
        self.status.consistent()
    }

    open spec fn spec_has_pid(&self) -> bool {
        true
    }

    open spec fn spec_pid(&self) -> i32 {
        self.pid.0
    }

    open spec fn spec_name(&self) -> Seq<char> {
        self.name@
    }

    open spec fn spec_status(&self) -> ProcessStatus {
        self.status
    }

    fn pid(&self) -> (r: ProcessId) {
        self.pid
    }

    fn name(&self) -> (r: String) {
        self.name.clone()
    }

    fn status(&self) -> (r: Status) {
        self.status.status
    }

    fn exit_status(&self) -> (r: Option<ExitStatus>) {
        self.status.exit_status
    }

    fn wait(&mut self, blocking: bool) -> (r: Result<Status, ShellError>) {
        if self.status.status.is_finished() {
            proof {
                assert(self.spec_status() == old(self).spec_status().updated(
                    WaitEvent::StillAlive,
                ));
            }
            return Ok(self.status.status);
        }
        match sys_waitpid(self.pid.0, blocking) {
            Ok(event) => {
                self.status.update(event);
                Ok(self.status.status)
            },
            Err(e) => {
                proof {
                    assert(self.spec_status() == old(self).spec_status().updated(
                        WaitEvent::StillAlive,
                    ));
                }
                Err(ShellError::Os(e))
            },
        }
    }
}

impl ExternalProcesss {
    /// A freshly spawned process: running, with nothing observed yet.
    pub fn new(pid: ProcessId, name: String) -> (r: Self)
        ensures
            r.pid == pid,
            r.name == name,
            r.status.status == Status::Running,
            r.status.exit_status is None,
            r.inv(),
    {
        let status = ProcessStatus::default();
        ExternalProcesss { name, pid, status }
    }
}

/// An in-process builtin's already-computed result, tracked like a process
/// so a job can wrap it; it has no OS process id.
#[derive(Debug)]
pub struct InternalProcess {
    pub name: String,
    pub status: ProcessStatus,
}

impl Process for InternalProcess {
    open spec fn inv(&self) -> bool {
        self.status.consistent() && self.status.status is Done
    }

    open spec fn spec_has_pid(&self) -> bool {
        false
    }

    open spec fn spec_pid(&self) -> i32 {
        0
    }

    open spec fn spec_name(&self) -> Seq<char> {
        self.name@
    }

    open spec fn spec_status(&self) -> ProcessStatus {
        self.status
    }

    fn pid(&self) -> (r: ProcessId) {
        proof {
            assert(false);
        }
        unreached()
    }

    fn name(&self) -> (r: String) {
        self.name.clone()
    }

    fn status(&self) -> (r: Status) {
        self.status.status
    }

    fn exit_status(&self) -> (r: Option<ExitStatus>) {
        self.status.exit_status
    }

    fn wait(&mut self, _blocking: bool) -> (r: Result<Status, ShellError>) {
        proof {
            assert(self.spec_status() == old(self).spec_status().updated(WaitEvent::StillAlive));
        }
        Ok(self.status.status)
    }
}

impl InternalProcess {
    /// Wraps a builtin's exit code as a terminal, pid-less process.
    pub fn new(name: String, exit_code: i32) -> (r: Self)
        ensures
            r.name == name,
            r.status.status == Status::Done,
            r.status.exit_status == Some(
                ExitStatus { exit_status: ExitStatusEnum::Done(exit_code) },
            ),
            r.inv(),
    {
        let status = ProcessStatus {
            status: Status::Done,
            exit_status: Some(ExitStatus { exit_status: ExitStatusEnum::Done(exit_code) }),
        };
        InternalProcess { name, status }
    }
}

/// A job's member process: the closed set of process kinds, matched
/// exhaustively where statuses are aggregated.
#[derive(Debug)]
pub enum ProcessHandle {
    External(ExternalProcesss),
    Internal(InternalProcess),
}

/// The cached state of a job member, whichever kind it is.
pub open spec fn handle_status(p: ProcessHandle) -> ProcessStatus {
    match p {
        ProcessHandle::External(q) => q.status,
        ProcessHandle::Internal(q) => q.status,
    }
}

/// The display name of a job member.
pub open spec fn handle_name(p: ProcessHandle) -> Seq<char> {
    match p {
        ProcessHandle::External(q) => q.name@,
        ProcessHandle::Internal(q) => q.name@,
    }
}

/// A job member's cached state is well formed; an in-process builtin
/// result is terminal from construction on.
pub open spec fn handle_ok(p: ProcessHandle) -> bool {
    match p {
        ProcessHandle::External(q) => q.status.consistent(),
        ProcessHandle::Internal(q) => q.status.consistent() && q.status.status is Done,
    }
}

/// Whether a job member is an externally spawned process.
pub open spec fn handle_is_external(p: ProcessHandle) -> bool {
    p is External
}

/// The OS process id of a job member (0 for an in-process one).
pub open spec fn handle_pid(p: ProcessHandle) -> i32 {
    match p {
        ProcessHandle::External(q) => q.pid.0,
        ProcessHandle::Internal(_) => 0,
    }
}

impl Process for ProcessHandle {
    open spec fn inv(&self) -> bool {
        handle_ok(*self)
    }

    open spec fn spec_has_pid(&self) -> bool {
        handle_is_external(*self)
    }

    open spec fn spec_pid(&self) -> i32 {
        handle_pid(*self)
    }

    open spec fn spec_name(&self) -> Seq<char> {
        handle_name(*self)
    }

    open spec fn spec_status(&self) -> ProcessStatus {
        handle_status(*self)
    }

    fn pid(&self) -> (r: ProcessId) {
        match self {
            ProcessHandle::External(p) => p.pid(),
            ProcessHandle::Internal(p) => p.pid(),
        }
    }

    fn name(&self) -> (r: String) {
        match self {
            ProcessHandle::External(p) => p.name(),
            ProcessHandle::Internal(p) => p.name(),
        }
    }

    fn status(&self) -> (r: Status) {
        match self {
            ProcessHandle::External(p) => p.status(),
            ProcessHandle::Internal(p) => p.status(),
        }
    }

    fn exit_status(&self) -> (r: Option<ExitStatus>) {
        match self {
            ProcessHandle::External(p) => p.exit_status(),
            ProcessHandle::Internal(p) => p.exit_status(),
        }
    }

    fn wait(&mut self, blocking: bool) -> (r: Result<Status, ShellError>) {
        match self {
            ProcessHandle::External(p) => p.wait(blocking),
            ProcessHandle::Internal(p) => p.wait(blocking),
        }
    }
}

} // verus!
