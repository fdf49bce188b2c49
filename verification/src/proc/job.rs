use vstd::prelude::*;

use crate::decimal::dec_int;
use crate::decimal::dec_nat;
use crate::decimal::format_i32;
use crate::decimal::format_usize;
use crate::error::ShellError;
use crate::proc::Process;
use crate::proc::handle_is_external;
use crate::proc::handle_name;
use crate::proc::handle_ok;
use crate::proc::handle_pid;
use crate::proc::handle_status;
use crate::proc::ProcessHandle;
use crate::proc::ExitStatus;
use crate::proc::Status;
use crate::strutil::push_char;
use crate::sys::print_line;

verus! {

/// An OS process-group id.
#[derive(Debug, PartialEq, Eq, Structural, Clone, Copy)]
pub struct Pgid(pub i32);

/// One or more processes launched from a single command line, tracked as a
/// unit: they share a process group, an aggregate status, a display name,
/// and the background flag.
#[derive(Debug)]
pub struct Job {
    /// The table-assigned id; 0 before registration.
    pub id: usize,
    pub pgid: Pgid,
    /// Index of the member whose exit status speaks for the job.
    pub leader: usize,
    pub background: bool,
    /// The aggregate of the members' statuses, under the precedence rule.
    pub last_status: Status,
    /// The rendered command line, for display.
    pub name: String,
    pub processes: Vec<ProcessHandle>,
}

/// Whether some member status in `sts` equals `st`.
pub open spec fn some_status(sts: Seq<Status>, st: Status) -> bool {
    exists|i: int| 0 <= i < sts.len() && sts[i] == st
}

/// The aggregate of a job's member statuses, under strict precedence:
/// any member running makes the job running; else any stopped makes it
/// stopped; else any killed makes it killed; else it is done.
pub open spec fn aggregate_status(sts: Seq<Status>) -> Status {
    if some_status(sts, Status::Running) {
        Status::Running
    } else if some_status(sts, Status::Stopped) {
        Status::Stopped
    } else if some_status(sts, Status::Killed) {
        Status::Killed
    } else {
        Status::Done
    }
}

/// The status-aggregation precedence law, spelled out case by case.
pub proof fn lemma_status_aggregation(sts: Seq<Status>)
    ensures
        some_status(sts, Status::Running) ==> aggregate_status(sts) == Status::Running,
        !some_status(sts, Status::Running) && some_status(sts, Status::Stopped)
            ==> aggregate_status(sts) == Status::Stopped,
        !some_status(sts, Status::Running) && !some_status(sts, Status::Stopped) && some_status(
            sts,
            Status::Killed,
        ) ==> aggregate_status(sts) == Status::Killed,
        !some_status(sts, Status::Running) && !some_status(sts, Status::Stopped) && !some_status(
            sts,
            Status::Killed,
        ) ==> aggregate_status(sts) == Status::Done,
{
}

/// Whether some member of `ps` currently has status `st`.
fn any_has(processes: &Vec<ProcessHandle>, st: Status) -> (r: bool)
    ensures
        r == exists|i: int|
            0 <= i < processes@.len() && handle_status(processes@[i]).status == st,
{
    let mut i: usize = 0;
    while i < processes.len()
        invariant
            i <= processes@.len(),
            forall|k: int| 0 <= k < i ==> handle_status(processes@[k]).status != st,
        decreases processes@.len() - i,
    {
        if processes[i].status() == st {
            return true;
        }
        i += 1;
    }
    false
}

/// The display line of a job: `[id]`, the process-group id, the status
/// name and the command name, separated by tabs.
pub open spec fn display_spec(j: Job) -> Seq<char> {
    seq!['['] + dec_nat(j.id as nat) + seq![']'] + seq!['\t'] + dec_int(j.pgid.0 as int)
        + seq!['\t'] + j.last_status.spec_name() + seq!['\t'] + j.name@
}

/// A member with status `st` makes `st` appear among the job's statuses.
proof fn lemma_some_status(j: Job, st: Status)
    requires
        exists|i: int| 0 <= i < j.processes@.len() && handle_status(j.processes@[i]).status == st,
    ensures
        some_status(j.statuses(), st),
{
    let k = choose|i: int|
        0 <= i < j.processes@.len() && handle_status(j.processes@[i]).status == st;
    assert(j.statuses()[k] == st);
}

/// With no member in status `st`, `st` does not appear among the job's
/// statuses.
proof fn lemma_no_status(j: Job, st: Status)
    requires
        !(exists|i: int|
            0 <= i < j.processes@.len() && handle_status(j.processes@[i]).status == st),
    ensures
        !some_status(j.statuses(), st),
{
    assert forall|i: int| 0 <= i < j.statuses().len() implies j.statuses()[i] != st by {
        assert(j.statuses()[i] == handle_status(j.processes@[i]).status);
    }
}

/// How one maintenance pass may take a job from `pre` to `post`: the
/// identity fields and member count are kept, each member keeps its kind,
/// pid and name, a member already terminal is untouched, and the aggregate
/// status is recomputed from the members under the precedence rule.
pub open spec fn job_stepped(pre: Job, post: Job) -> bool {
    &&& post.id == pre.id
    &&& post.pgid == pre.pgid
    &&& post.leader == pre.leader
    &&& post.background == pre.background
    &&& post.name == pre.name
    &&& post.processes@.len() == pre.processes@.len()
    &&& post.wf()
    &&& post.last_status == aggregate_status(post.statuses())
    &&& forall|k: int|
        0 <= k < pre.processes@.len() && handle_status(pre.processes@[k]).status.spec_finished()
            ==> post.processes@[k] == pre.processes@[k]
    &&& forall|k: int|
        0 <= k < pre.processes@.len() ==> handle_name(post.processes@[k]) == handle_name(
            pre.processes@[k],
        ) && handle_is_external(post.processes@[k]) == handle_is_external(pre.processes@[k])
            && handle_pid(post.processes@[k]) == handle_pid(pre.processes@[k])
}

impl Job {
    /// Structural invariant: at least one member, a valid leader index, and
    /// every member's cached state consistent.
    pub open spec fn wf(self) -> bool {
        &&& self.processes@.len() >= 1
        &&& self.leader < self.processes@.len()
        &&& forall|i: int| 0 <= i < self.processes@.len() ==> handle_ok(self.processes@[i])
    }

    /// The members' coarse statuses, in order.
    pub open spec fn statuses(self) -> Seq<Status> {
        Seq::new(self.processes@.len(), |i: int| handle_status(self.processes@[i]).status)
    }

    /// A new, unregistered job over the given members; a job without a
    /// member is not constructible.
    pub fn new(
        pgid: Pgid,
        processes: Vec<ProcessHandle>,
        last_status: Status,
        background: bool,
        name: String,
    ) -> (j: Job)
        requires
            processes@.len() >= 1,
            forall|i: int| 0 <= i < processes@.len() ==> handle_ok(processes@[i]),
        ensures
            j.wf(),
            j.id == 0,
            j.leader == 0,
            j.pgid == pgid,
            j.processes == processes,
            j.last_status == last_status,
            j.background == background,
            j.name == name,
    {
        Job { id: 0, leader: 0, pgid, processes, last_status, background, name }
    }

    /// Recomputes the aggregate status from the members, under the
    /// precedence rule.
    pub fn update_status(&mut self)
        ensures
            final(self).last_status == aggregate_status(old(self).statuses()),
            final(self).id == old(self).id,
            final(self).pgid == old(self).pgid,
            final(self).leader == old(self).leader,
            final(self).background == old(self).background,
            final(self).name == old(self).name,
            final(self).processes == old(self).processes,
    {
        let ghost sts = self.statuses();
        if any_has(&self.processes, Status::Running) {
            self.last_status = Status::Running;
            proof {
                lemma_some_status(*self, Status::Running);
            }
        } else if any_has(&self.processes, Status::Stopped) {
            self.last_status = Status::Stopped;
            proof {
                lemma_no_status(*self, Status::Running);
                lemma_some_status(*self, Status::Stopped);
            }
        } else if any_has(&self.processes, Status::Killed) {
            self.last_status = Status::Killed;
            proof {
                lemma_no_status(*self, Status::Running);
                lemma_no_status(*self, Status::Stopped);
                lemma_some_status(*self, Status::Killed);
            }
        } else {
            self.last_status = Status::Done;
            proof {
                lemma_no_status(*self, Status::Running);
                lemma_no_status(*self, Status::Stopped);
                lemma_no_status(*self, Status::Killed);
            }
        }
    }

    /// Renders the display line.
    pub fn display_line(&self) -> (r: String)
        ensures
            r@ == display_spec(*self),
    {
        let mut s = String::new();
        push_char(&mut s, '[');
        let id_text = format_usize(self.id);
        s.append(id_text.as_str());
        push_char(&mut s, ']');
        push_char(&mut s, '\t');
        let pgid_text = format_i32(self.pgid.0);
        s.append(pgid_text.as_str());
        push_char(&mut s, '\t');
        let status_text = self.last_status.name();
        s.append(status_text.as_str());
        push_char(&mut s, '\t');
        s.append(self.name.as_str());
        proof {
            assert(s@ =~= display_spec(*self));
        }
        s
    }

    /// Advances every member that is not yet finished with one wait pass
    /// (a finished member is left untouched and costs no OS call), then
    /// recomputes the aggregate status. A change of status prints the
    /// job's display line, unless a foreground job reached a terminal
    /// state, whose result the caller reports itself.
    pub fn update(&mut self, blocking: bool) -> (r: Result<(), ShellError>)
        requires
            old(self).wf(),
        ensures
            final(self).wf(),
            final(self).id == old(self).id,
            final(self).pgid == old(self).pgid,
            final(self).leader == old(self).leader,
            final(self).background == old(self).background,
            final(self).name == old(self).name,
            final(self).processes@.len() == old(self).processes@.len(),
            r is Ok ==> final(self).last_status == aggregate_status(final(self).statuses()),
            r is Ok ==> job_stepped(*old(self), *final(self)),
            r is Err ==> final(self).last_status == old(self).last_status,
            (forall|k: int|
                0 <= k < old(self).processes@.len() ==> handle_status(
                    old(self).processes@[k],
                ).status.spec_finished()) ==> r is Ok,
            r is Ok && blocking ==> forall|k: int|
                0 <= k < final(self).processes@.len() ==> handle_status(
                    final(self).processes@[k],
                ).status != Status::Running,
            r is Ok && blocking ==> final(self).last_status != Status::Running,
            forall|k: int|
                0 <= k < old(self).processes@.len() && handle_status(old(self).processes@[k]).status.spec_finished() ==> final(self).processes@[k] == old(
                    self,
                ).processes@[k],
            forall|k: int|
                0 <= k < old(self).processes@.len() ==> handle_name(final(self).processes@[k])
                    == handle_name(old(self).processes@[k]) && handle_is_external(
                    final(self).processes@[k],
                ) == handle_is_external(old(self).processes@[k]) && handle_pid(
                    final(self).processes@[k],
                ) == handle_pid(old(self).processes@[k]),
    {
        let mut i: usize = 0;
        while i < self.processes.len()
            invariant
                i <= self.processes@.len(),
                self.wf(),
                self.id == old(self).id,
                self.pgid == old(self).pgid,
                self.leader == old(self).leader,
                self.background == old(self).background,
                self.name == old(self).name,
                self.last_status == old(self).last_status,
                self.processes@.len() == old(self).processes@.len(),
                forall|k: int|
                    0 <= k < old(self).processes@.len() && handle_status(old(self).processes@[k]).status.spec_finished() ==> self.processes@[k] == old(
                        self,
                    ).processes@[k],
                forall|k: int|
                    i <= k < old(self).processes@.len() ==> self.processes@[k] == old(
                        self,
                    ).processes@[k],
                forall|k: int|
                    0 <= k < old(self).processes@.len() ==> handle_name(self.processes@[k])
                        == handle_name(old(self).processes@[k]) && handle_is_external(
                        self.processes@[k],
                    ) == handle_is_external(old(self).processes@[k]) && handle_pid(
                        self.processes@[k],
                    ) == handle_pid(old(self).processes@[k]),
                blocking ==> forall|k: int|
                    0 <= k < i ==> handle_status(self.processes@[k]).status != Status::Running,
            decreases self.processes@.len() - i,
        {
            let st = self.processes[i].status();
            if st.is_finished() {
                i += 1;
                continue ;
            }
            let p = vstd::std_specs::vec::vec_index_mut(&mut self.processes, i);
            match p.wait(blocking) {
                Ok(_) => {},
                Err(e) => {
                    return Err(e);
                },
            }
            i += 1;
        }
        let last_status = self.last_status;
        self.update_status();
        if !status_eq(last_status, self.last_status) {
            if self.background || !self.last_status.is_finished() {
                let line = self.display_line();
                print_line(line.as_str());
            }
        }
        Ok(())
    }

    /// The exit status of the job's leader process.
    pub fn exit_status(&self) -> (r: Option<ExitStatus>)
        requires
            self.wf(),
        ensures
            r == handle_status(self.processes@[self.leader as int]).exit_status,
    {
        self.processes[self.leader].exit_status()
    }
}

/// Whether two statuses are the same.
fn status_eq(a: Status, b: Status) -> (r: bool)
    ensures
        r == (a == b),
{
    a == b
}

} // verus!
