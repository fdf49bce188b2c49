use vstd::prelude::*;

use crate::builtins::builtin_spec;
use crate::builtins::cd::cd_spec;
use crate::builtins::exit::exit_spec;
use crate::builtins::get_builtin;
use crate::builtins::is_builtin_name;
use crate::builtins::jobs::jobs_spec;
use crate::builtins::kill::kill_spec;
use crate::error::ShellError;
use crate::error::UnwrapPrintError;
use crate::parser::ast::Command;
use crate::parser::ast::Redirectee;
use crate::parser::ast::Redirection;
use crate::parser::ast::RedirectionPermission;
use crate::parser::ast::RedirectionType;
use crate::proc::ExternalProcesss;
use crate::proc::InternalProcess;
use crate::proc::ProcessHandle;
use crate::proc::ProcessId;
use crate::proc::Status;
use crate::proc::handle_is_external;
use crate::proc::handle_name;
use crate::proc::handle_pid;
use crate::proc::handle_status;
use crate::proc::job::Job;
use crate::proc::job::Pgid;
use crate::proc::job::aggregate_status;
use crate::proc::job_table::add_post;
use crate::proc::job::some_status;
use crate::shell::DefaultShell;
use crate::shell::Shell;

verus! {

/// How a redirection target file is to be opened.
#[derive(Debug, PartialEq, Eq, Structural, Clone, Copy)]
pub struct OpenFlags {
    pub read: bool,
    pub write: bool,
    pub create: bool,
    pub truncate: bool,
    pub append: bool,
}

/// The open flags a redirection calls for: a stdin target is read only;
/// a stdout or stderr target is written, created if absent, and truncated
/// unless the mode appends.
pub open spec fn open_flags_of(type_: RedirectionType, perm: RedirectionPermission) -> OpenFlags {
    OpenFlags {
        read: type_ is Stdin,
        write: !(type_ is Stdin),
        create: !(type_ is Stdin),
        truncate: !(type_ is Stdin) && !(perm is Append),
        append: perm is Append,
    }
}

/// Computes the open flags of a redirection.
pub fn open_flags(redirection: &Redirection) -> (r: OpenFlags)
    ensures
        r == open_flags_of(redirection.type_, redirection.permissions),
{
    let is_stdin = match redirection.type_ {
        RedirectionType::Stdin => true,
        _ => false,
    };
    let append = match redirection.permissions {
        RedirectionPermission::Append => true,
        _ => false,
    };
    OpenFlags {
        read: is_stdin,
        write: !is_stdin,
        create: !is_stdin,
        truncate: !is_stdin && !append,
        append,
    }
}

/// A concrete descriptor binding: a file to open with given flags, or an
/// already-open descriptor to reuse.
#[derive(Debug, PartialEq, Eq, Clone)]
pub enum ResolvedRedirectee {
    File(String, OpenFlags),
    Fd(i32),
}

/// The binding a single redirection resolves to.
pub open spec fn resolved(r: Redirection) -> ResolvedRedirectee {
    match r.redirectee {
        Redirectee::FileName(p) => ResolvedRedirectee::File(
            p,
            open_flags_of(r.type_, r.permissions),
        ),
        Redirectee::FileDescriptor(fd) => ResolvedRedirectee::Fd(fd),
    }
}

/// The pending descriptor bindings of a child about to run: at most one
/// per standard stream. A later redirection for the same stream replaces
/// the earlier one, so application order must match parse order.
#[derive(Debug, PartialEq, Eq, Clone)]
pub struct RedirectionHolder {
    pub stdin: Option<ResolvedRedirectee>,
    pub stdout: Option<ResolvedRedirectee>,
    pub stderr: Option<ResolvedRedirectee>,
}

impl Default for RedirectionHolder {
    /// No bindings pending.
    fn default() -> (r: Self)
        ensures
            r.stdin is None,
            r.stdout is None,
            r.stderr is None,
    {
        RedirectionHolder { stdin: None, stdout: None, stderr: None }
    }
}

/// One redirection folded into the pending bindings: it lands on its own
/// stream and replaces what was there.
pub open spec fn apply_redirection(h: RedirectionHolder, r: Redirection) -> RedirectionHolder {
    match r.type_ {
        RedirectionType::Stdin => RedirectionHolder { stdin: Some(resolved(r)), ..h },
        RedirectionType::Stdout => RedirectionHolder { stdout: Some(resolved(r)), ..h },
        RedirectionType::Stderr => RedirectionHolder { stderr: Some(resolved(r)), ..h },
    }
}

/// The bindings left after folding a whole redirection list, in order.
pub open spec fn holder_after(rs: Seq<Redirection>) -> RedirectionHolder
    decreases rs.len(),
{
    if rs.len() == 0 {
        RedirectionHolder { stdin: None, stdout: None, stderr: None }
    } else {
        apply_redirection(holder_after(rs.drop_last()), rs.last())
    }
}

impl RedirectionHolder {
    /// Folds one redirection in; the last one for a stream wins.
    pub fn update(&mut self, redirection: &Redirection)
        ensures
            *final(self) == apply_redirection(*old(self), *redirection),
    {
        let binding = match &redirection.redirectee {
            Redirectee::FileName(p) => ResolvedRedirectee::File(
                p.clone(),
                open_flags(redirection),
            ),
            Redirectee::FileDescriptor(fd) => ResolvedRedirectee::Fd(*fd),
        };
        match redirection.type_ {
            RedirectionType::Stdin => {
                self.stdin = Some(binding);
            },
            RedirectionType::Stdout => {
                self.stdout = Some(binding);
            },
            RedirectionType::Stderr => {
                self.stderr = Some(binding);
            },
        }
    }
}

/// Resolves a command's redirection list into at most one pending binding
/// per standard stream, in parse order.
pub fn resolve_redirections(redirections: &Vec<Redirection>) -> (h: RedirectionHolder)
    ensures
        h == holder_after(redirections@),
{
    let mut h = RedirectionHolder::default();
    let mut i: usize = 0;
    while i < redirections.len()
        invariant
            i <= redirections@.len(),
            h == holder_after(redirections@.subrange(0, i as int)),
        decreases redirections@.len() - i,
    {
        h.update(&redirections[i]);
        i += 1;
        proof {
            let pre = redirections@.subrange(0, i as int);
            assert(pre.drop_last() =~= redirections@.subrange(0, i - 1));
        }
    }
    proof {
        assert(redirections@.subrange(0, redirections@.len() as int) =~= redirections@);
    }
    h
}

/// What the spawn step produced: a live child's process id seen from the
/// parent, or the exit code of a builtin that ran without a fork.
#[derive(Debug, Clone, Copy)]
pub enum RjshForkResult {
    Child(ProcessId),
    Exit(i32),
}

/// The behavior of the builtin a name refers to.
pub open spec fn builtin_by_name_spec(
    name: Seq<char>,
    pre: DefaultShell,
    args: Seq<String>,
    post: DefaultShell,
    r: Result<i32, ShellError>,
) -> bool {
    if name == "cd"@ {
        cd_spec(pre, args, post, r)
    } else if name == "exit"@ {
        exit_spec(pre, args, post, r)
    } else if name == "jobs"@ {
        jobs_spec(pre, args, post, r)
    } else if name == "kill"@ {
        kill_spec(pre, args, post, r)
    } else {
        false
    }
}

/// A builtin ran with the given arguments, and `code` is its exit code
/// (1 for a builtin that failed and printed its diagnostic).
pub open spec fn ran_builtin(
    name: Seq<char>,
    pre: DefaultShell,
    args: Seq<String>,
    post: DefaultShell,
    code: i32,
) -> bool {
    exists|res: Result<i32, ShellError>|
        #[trigger] builtin_by_name_spec(name, pre, args, post, res) && code == (match res {
            Ok(c) => c,
            Err(_) => 1,
        })
}

/// Runs the command as a builtin, whichever context the caller is: the
/// builtin's error becomes a printed diagnostic and exit code 1. `None`
/// when the name is no builtin.
pub fn run_builtin(shell: &mut DefaultShell, ast: &Command) -> (r: Option<i32>)
    requires
        old(shell).wf(),
    ensures
        final(shell).wf(),
        r is Some <==> is_builtin_name(ast.name@),
        r is None ==> *final(shell) == *old(shell),
        r matches Some(code) ==> ran_builtin(
            ast.name@,
            *old(shell),
            ast.args@,
            *final(shell),
            code,
        ),
{
    match get_builtin(ast) {
        Some(b) => {
            let res = b.call(shell, &ast.args);
            let ghost resg = res;
            let code = res.unwrap_error_with_print();
            proof {
                reveal_strlit("cd");
                reveal_strlit("exit");
                reveal_strlit("jobs");
                reveal_strlit("kill");
                assert(builtin_spec(b, *old(shell), ast.args@, *shell, resg));
                assert(ast.name@ == "cd"@ || ast.name@ == "exit"@ || ast.name@ == "jobs"@
                    || ast.name@ == "kill"@);
                assert("cd"@.len() == 2 && "exit"@.len() == 4 && "jobs"@.len() == 4
                    && "kill"@.len() == 4);
                assert("exit"@[0] == 'e' && "jobs"@[0] == 'j' && "kill"@[0] == 'k');
                assert(!("cd"@ == "exit"@ || "cd"@ == "jobs"@ || "cd"@ == "kill"@));
                assert(!("exit"@ == "jobs"@ || "exit"@ == "kill"@ || "jobs"@ == "kill"@));
                assert(builtin_by_name_spec(ast.name@, *old(shell), ast.args@, *shell, resg));
            }
            Some(code)
        },
        None => None,
    }
}

/// Runs the command as a builtin in the calling shell when it is one and
/// is not backgrounded; a background builtin is left for the child
/// context, so it cannot block or mutate the interactive shell.
pub fn run_builtin_foreground(shell: &mut DefaultShell, ast: &Command) -> (r: Option<i32>)
    requires
        old(shell).wf(),
    ensures
        final(shell).wf(),
        r is Some <==> (!ast.background && is_builtin_name(ast.name@)),
        r is None ==> *final(shell) == *old(shell),
        r matches Some(code) ==> ran_builtin(
            ast.name@,
            *old(shell),
            ast.args@,
            *final(shell),
            code,
        ),
{
    if ast.background {
        return None;
    }
    run_builtin(shell, ast)
}

/// Wraps the spawn step's outcome as a single-process job: a live child
/// becomes a running external process and its own group's leader; a
/// builtin's exit code becomes a terminal internal process with no group.
pub fn ast_to_job(outcome: RjshForkResult, background: bool, name: String) -> (j: Job)
    ensures
        j.wf(),
        j.id == 0,
        j.leader == 0,
        j.background == background,
        j.name == name,
        j.processes@.len() == 1,
        outcome matches RjshForkResult::Child(pid) ==> {
            &&& j.pgid.0 == pid.0
            &&& j.last_status is Running
            &&& (j.processes@[0] matches ProcessHandle::External(p) && p.pid == pid && p.name@
                == name@)
            &&& handle_status(j.processes@[0]).status is Running
            &&& handle_status(j.processes@[0]).exit_status is None
        },
        outcome matches RjshForkResult::Exit(code) ==> {
            &&& j.pgid.0 == 0
            &&& j.last_status is Done
            &&& (j.processes@[0] matches ProcessHandle::Internal(p) && p.name@ == name@)
            &&& handle_status(j.processes@[0]).status is Done
            &&& handle_status(j.processes@[0]).exit_status matches Some(es)
                && es.spec_code() == Some(code)
        },
{
    match outcome {
        RjshForkResult::Child(child_pid) => {
            let process = ExternalProcesss::new(child_pid, name.clone());
            let mut processes: Vec<ProcessHandle> = Vec::new();
            processes.push(ProcessHandle::External(process));
            Job::new(Pgid(child_pid.0), processes, Status::Running, background, name)
        },
        RjshForkResult::Exit(code) => {
            let process = InternalProcess::new(name.clone(), code);
            let mut processes: Vec<ProcessHandle> = Vec::new();
            processes.push(ProcessHandle::Internal(process));
            Job::new(Pgid(0), processes, Status::Done, background, name)
        },
    }
}

/// The shape of the job a spawn outcome is registered under: the display
/// name and the background flag as given, a single member of the spawn's
/// kind — for a live child, an external process carrying the child's pid,
/// which is also the job's process-group id; for a builtin's exit code, a
/// terminal internal process carrying that code.
pub open spec fn spawned_job_shape(
    j: Job,
    outcome: RjshForkResult,
    background: bool,
    name: String,
) -> bool {
    &&& j.id == 0
    &&& j.leader == 0
    &&& j.background == background
    &&& j.name == name
    &&& j.processes@.len() == 1
    &&& match outcome {
        RjshForkResult::Child(pid) => j.pgid.0 == pid.0 && (j.processes@[0]
            matches ProcessHandle::External(p) && p.pid == pid && p.name@ == name@),
        RjshForkResult::Exit(code) => j.pgid.0 == 0 && (j.processes@[0]
            matches ProcessHandle::Internal(p) && p.name@ == name@ && p.status.status is Done
            && (p.status.exit_status matches Some(es) && es.spec_code() == Some(code))),
    }
}

/// Completes one command after the spawn step: builds the job, performs
/// the first wait — blocking for a foreground command, a single poll for
/// a background one — and then either folds a finished foreground job's
/// exit code into the shell's last exit code, or registers the job in the
/// job table (always, for a background command; for a foreground one that
/// is still running or stopped).
///
/// A foreground process that a signal terminated yields the conventional
/// code 128 plus the signal number.
pub fn execute_command(
    shell: &mut DefaultShell,
    outcome: RjshForkResult,
    background: bool,
    name: String,
) -> (r: Result<Option<i32>, ShellError>)
    requires
        old(shell).wf(),
        old(shell).job_table.size < usize::MAX,
    ensures
        final(shell).wf(),
        final(shell).home == old(shell).home,
        final(shell).oldpwd == old(shell).oldpwd,
        final(shell).should_exit == old(shell).should_exit,
        r is Err ==> *final(shell) == *old(shell),
        background ==> final(shell).last_exit_code == old(shell).last_exit_code,
        background && r is Ok ==> (r matches Ok(o) && o is None) && final(shell).job_table.size
            == old(shell).job_table.size + 1,
        background && r is Ok ==> exists|j1: Job|
            #[trigger] spawned_job_shape(j1, outcome, background, name) && j1.wf() && add_post(
                old(shell).job_table,
                final(shell).job_table,
                j1,
            ),
        r matches Ok(o) ==> (o is Some ==> final(shell).job_table == old(shell).job_table),
        outcome matches RjshForkResult::Exit(c) ==> r is Ok,
        r matches Ok(o) ==> (o matches Some(code) ==> !background && final(shell).last_exit_code
            == code),
        r matches Ok(o) ==> (o is None ==> final(shell).job_table.size == old(
            shell).job_table.size + 1 && final(shell).last_exit_code == old(
            shell).last_exit_code),
        outcome matches RjshForkResult::Exit(c) ==> (!background && r is Ok ==> (r matches Ok(o)
            && o == Some(c)) && final(shell).last_exit_code == c),
{
    let mut job = ast_to_job(outcome, background, name);
    let ghost job0 = job;
    match job.update(!background) {
        Ok(_) => {},
        Err(e) => {
            return Err(e);
        },
    }
    if background {
        let ghost j1 = job;
        proof {
            match outcome {
                RjshForkResult::Child(pid) => {
                    match (job0.processes@[0], j1.processes@[0]) {
                        (ProcessHandle::External(p0), ProcessHandle::External(p1)) => {
                            assert(p1.pid.0 == handle_pid(j1.processes@[0]));
                            assert(p0.pid.0 == handle_pid(job0.processes@[0]));
                            assert(p1.name@ == handle_name(j1.processes@[0]));
                            assert(p0.name@ == handle_name(job0.processes@[0]));
                        },
                        _ => {
                            assert(handle_is_external(j1.processes@[0]) == handle_is_external(
                                job0.processes@[0],
                            ));
                            assert(false);
                        },
                    }
                },
                RjshForkResult::Exit(_) => {
                    assert(handle_status(job0.processes@[0]).status.spec_finished());
                    assert(j1.processes@[0] == job0.processes@[0]);
                },
            }
            assert(spawned_job_shape(j1, outcome, background, name));
        }
        shell.job_table.add_job(job);
        return Ok(None);
    }
    let finished = job.last_status.is_finished();
    if !finished {
        shell.job_table.add_job(job);
        return Ok(None);
    }
    proof {
        let sts = job.statuses();
        let leader = job.leader as int;
        if sts[leader] == Status::Running {
            assert(some_status(sts, Status::Running));
            assert(aggregate_status(sts) == Status::Running);
        }
        if sts[leader] == Status::Stopped {
            assert(some_status(sts, Status::Running) || aggregate_status(sts) != Status::Running);
            assert(some_status(sts, Status::Stopped));
        }
        assert(handle_status(job.processes@[leader]).status == sts[leader]);
    }
    let code: i32 = match job.exit_status() {
        Some(es) => match es.code() {
            Some(c) => c,
            None => match es.killed() {
                Some(sig) => {
                    if sig <= i32::MAX - 128 {
                        128 + sig
                    } else {
                        i32::MAX
                    }
                },
                None => {
                    proof {
                        assert(false);
                    }
                    unreached()
                },
            },
        },
        None => {
            proof {
                assert(false);
            }
            unreached()
        },
    };
    shell.last_exit_code = code;
    Ok(Some(code))
}

} // verus!
