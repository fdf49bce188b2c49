use vstd::prelude::*;

use crate::error::ShellError;
use crate::error::report_error;
use crate::proc::Status;
use crate::proc::handle_status;
use crate::proc::job::Job;
use crate::proc::job::aggregate_status;
use crate::proc::job::job_stepped;
use crate::proc::job::some_status;
use crate::proc::job_table::JobTable;
use crate::proc::job_table::add_post;
use crate::proc::job_table::slot_live;
use crate::proc::job_table::slot_members_finished;

verus! {

/// The process-group id of job `job_id`, or the job-not-found error.
pub open spec fn job_pgid_lookup(t: JobTable, job_id: int) -> Result<i32, ShellError> {
    if 1 <= job_id && job_id - 1 < t.table@.len() {
        match t.table@[job_id - 1] {
            Some(j) => Ok(j.pgid.0),
            None => Err(ShellError::JobNotFound),
        }
    } else {
        Err(ShellError::JobNotFound)
    }
}

/// The boundary the rest of the shell calls through: the last exit code,
/// the exit request flag, and the job table's operations.
pub trait Shell: Sized {
    /// The job table.
    spec fn spec_jobs(&self) -> JobTable;

    /// The last foreground exit code.
    spec fn spec_last_exit_code(&self) -> i32;

    /// Whether an exit has been requested.
    spec fn spec_should_exit(&self) -> bool;

    /// The shell state is well formed.
    open spec fn shell_wf(&self) -> bool {
        self.spec_jobs().wf()
    }

    /// Registers a background or stopped job in the job table.
    fn add_job(&mut self, job: Job)
        requires
            old(self).shell_wf(),
            job.wf(),
            old(self).spec_jobs().size < usize::MAX,
        ensures
            final(self).shell_wf(),
            add_post(old(self).spec_jobs(), final(self).spec_jobs(), job),
            final(self).spec_last_exit_code() == old(self).spec_last_exit_code(),
            final(self).spec_should_exit() == old(self).spec_should_exit(),
    ;

    fn last_exit_code(&self) -> (r: i32)
        ensures
            r == self.spec_last_exit_code(),
    ;

    /// Requests shell termination.
    fn exit(&mut self)
        ensures
            final(self).spec_should_exit(),
            final(self).spec_jobs() == old(self).spec_jobs(),
            final(self).spec_last_exit_code() == old(self).spec_last_exit_code(),
    ;

    fn should_exit(&self) -> (r: bool)
        ensures
            r == self.spec_should_exit(),
    ;

    /// The number of jobs the table holds.
    fn job_number(&self) -> (r: usize)
        ensures
            r == self.spec_jobs().size,
    ;

    /// Advances every job with a non-blocking wait pass and drops the
    /// finished ones; a failure is reported, not raised. The table never
    /// grows, no free slot becomes occupied, and a table whose jobs were
    /// all already terminal is left empty.
    fn update_jobs(&mut self)
        requires
            old(self).shell_wf(),
        ensures
            final(self).shell_wf(),
            final(self).spec_last_exit_code() == old(self).spec_last_exit_code(),
            final(self).spec_should_exit() == old(self).spec_should_exit(),
            final(self).spec_jobs().table@.len() == old(self).spec_jobs().table@.len(),
            forall|i: int|
                0 <= i < final(self).spec_jobs().table@.len() && final(
                    self).spec_jobs().table@[i] is Some ==> old(self).spec_jobs().table@[i]
                    is Some,
            (forall|i: int|
                0 <= i < old(self).spec_jobs().table@.len() ==> slot_members_finished(
                    old(self).spec_jobs().table@[i],
                )) ==> forall|i: int|
                0 <= i < final(self).spec_jobs().table@.len() ==> final(
                    self).spec_jobs().table@[i] is None,
    ;

    /// Prints every job's display line.
    fn print_jobs(&self)
        requires
            self.shell_wf(),
    ;

    /// The process-group id of the job with the given id.
    fn get_job_pid(&self, job_id: usize) -> (r: Result<i32, ShellError>)
        ensures
            r == job_pgid_lookup(self.spec_jobs(), job_id as int),
    ;
}

/// The shell-wide state: exit bookkeeping, the directory values the
/// builtins read and write, and the job table.
#[derive(Debug)]
pub struct DefaultShell {
    pub last_exit_code: i32,
    pub should_exit: bool,
    /// The home directory, for a bare `cd`.
    pub home: Option<String>,
    /// The directory the last `cd` left.
    pub oldpwd: Option<String>,
    pub job_table: JobTable,
}

impl Default for DefaultShell {
    /// A fresh shell: exit code 0, no exit requested, no directories
    /// recorded, no jobs.
    fn default() -> (r: Self)
        ensures
            r.last_exit_code == 0,
            !r.should_exit,
            r.home is None,
            r.oldpwd is None,
            r.job_table.table@.len() == 0,
            r.job_table.size == 0,
            r.wf(),
    {
        DefaultShell {
            last_exit_code: 0,
            should_exit: false,
            home: None,
            oldpwd: None,
            job_table: JobTable::default(),
        }
    }
}

impl DefaultShell {
    /// The shell state is well formed.
    pub open spec fn wf(self) -> bool {
        self.job_table.wf()
    }
}

impl Shell for DefaultShell {
    open spec fn spec_jobs(&self) -> JobTable {
        self.job_table
    }

    open spec fn spec_last_exit_code(&self) -> i32 {
        self.last_exit_code
    }

    open spec fn spec_should_exit(&self) -> bool {
        self.should_exit
    }

    fn add_job(&mut self, job: Job) {
        self.job_table.add_job(job);
    }

    fn last_exit_code(&self) -> (r: i32) {
        self.last_exit_code
    }

    fn exit(&mut self) {
        self.should_exit = true;
    }

    fn should_exit(&self) -> (r: bool) {
        self.should_exit
    }

    fn job_number(&self) -> (r: usize) {
        self.job_table.size()
    }

    fn update_jobs(&mut self) {
        match self.job_table.update() {
            Ok(_) => {
                proof {
                    if forall|i: int|
                        0 <= i < old(self).job_table.table@.len() ==> slot_members_finished(
                            old(self).job_table.table@[i],
                        ) {
                        assert forall|i: int|
                            0 <= i < self.job_table.table@.len() implies self.job_table.table@[i]
                            is None by {
                            match (self.job_table.table@[i], old(self).job_table.table@[i]) {
                                (Some(j1), Some(j0)) => {
                                    assert(job_stepped(j0, j1));
                                    assert forall|k: int|
                                        0 <= k < j1.statuses().len() implies j1.statuses()[k]
                                        != Status::Running && j1.statuses()[k]
                                        != Status::Stopped by {
                                        assert(handle_status(
                                            j0.processes@[k],
                                        ).status.spec_finished());
                                        assert(j1.processes@[k] == j0.processes@[k]);
                                        assert(j1.statuses()[k] == handle_status(
                                            j1.processes@[k],
                                        ).status);
                                    }
                                    assert(!some_status(j1.statuses(), Status::Running));
                                    assert(!some_status(j1.statuses(), Status::Stopped));
                                    assert(j1.last_status == aggregate_status(j1.statuses()));
                                    assert(j1.last_status.spec_finished());
                                    assert(slot_live(self.job_table.table@[i]));
                                    assert(false);
                                },
                                (Some(_), None) => {
                                    assert(false);
                                },
                                _ => {},
                            }
                        }
                    }
                }
            },
            Err(e) => report_error(&e),
        }
    }

    fn print_jobs(&self) {
        self.job_table.print_jobs();
    }

    fn get_job_pid(&self, job_id: usize) -> (r: Result<i32, ShellError>) {
        match self.job_table.get_job(job_id) {
            Some(job) => Ok(job.pgid.0),
            None => Err(ShellError::JobNotFound),
        }
    }
}

} // verus!
