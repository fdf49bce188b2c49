use vstd::prelude::*;

use crate::builtins::cd::Cd;
use crate::builtins::cd::cd_spec;
use crate::builtins::exit::Exit;
use crate::builtins::exit::exit_spec;
use crate::builtins::jobs::Jobs;
use crate::builtins::jobs::jobs_spec;
use crate::builtins::kill::Kill;
use crate::builtins::kill::kill_spec;
use crate::error::ShellError;
use crate::parser::ast::Command;
use crate::shell::DefaultShell;
use crate::strutil::str_eq;

pub mod cd;
pub mod exit;
pub mod jobs;
pub mod kill;

verus! {

/// A command implemented inside the shell process rather than by spawning
/// an external program.
pub trait BuiltIn {
    /// The builtin's behavior: how the result and the shell state after
    /// the call relate to the state before it and the arguments.
    spec fn call_spec(
        &self,
        pre: DefaultShell,
        args: Seq<String>,
        post: DefaultShell,
        r: Result<i32, ShellError>,
    ) -> bool;

    /// Runs the builtin against the shell state, with the raw argument
    /// list (the command name itself excluded).
    fn call(&self, shell: &mut DefaultShell, args: &Vec<String>) -> (r: Result<i32, ShellError>)
        requires
            old(shell).wf(),
        ensures
            final(shell).wf(),
            self.call_spec(*old(shell), args@, *final(shell), r),
    ;
}

/// Whether `name` names a builtin.
pub open spec fn is_builtin_name(name: Seq<char>) -> bool {
    name == "cd"@ || name == "exit"@ || name == "jobs"@ || name == "kill"@
}

/// One of the shell's builtins, ready to call.
pub enum BuiltinCommand {
    Cd(Cd),
    Exit(Exit),
    Jobs(Jobs),
    Kill(Kill),
}

/// The behavior of a given builtin, by its dispatch value.
pub open spec fn builtin_spec(
    b: BuiltinCommand,
    pre: DefaultShell,
    args: Seq<String>,
    post: DefaultShell,
    r: Result<i32, ShellError>,
) -> bool {
    match b {
        BuiltinCommand::Cd(_) => cd_spec(pre, args, post, r),
        BuiltinCommand::Exit(_) => exit_spec(pre, args, post, r),
        BuiltinCommand::Jobs(_) => jobs_spec(pre, args, post, r),
        BuiltinCommand::Kill(_) => kill_spec(pre, args, post, r),
    }
}

impl BuiltinCommand {
    /// Runs the builtin.
    pub fn call(&self, shell: &mut DefaultShell, args: &Vec<String>) -> (r: Result<
        i32,
        ShellError,
    >)
        requires
            old(shell).wf(),
        ensures
            final(shell).wf(),
            builtin_spec(*self, *old(shell), args@, *final(shell), r),
    {
        match self {
            BuiltinCommand::Cd(b) => b.call(shell, args),
            BuiltinCommand::Exit(b) => b.call(shell, args),
            BuiltinCommand::Jobs(b) => b.call(shell, args),
            BuiltinCommand::Kill(b) => b.call(shell, args),
        }
    }
}

/// The builtin a command name refers to, or `None` for a command that runs
/// as an external process.
pub fn get_builtin(command: &Command) -> (r: Option<BuiltinCommand>)
    ensures
        r is Some <==> is_builtin_name(command.name@),
        r matches Some(b) ==> match b {
            BuiltinCommand::Cd(_) => command.name@ == "cd"@,
            BuiltinCommand::Exit(_) => command.name@ == "exit"@,
            BuiltinCommand::Jobs(_) => command.name@ == "jobs"@,
            BuiltinCommand::Kill(_) => command.name@ == "kill"@,
        },
{
    if str_eq(&command.name, "cd") {
        Some(BuiltinCommand::Cd(Cd {  }))
    } else if str_eq(&command.name, "exit") {
        Some(BuiltinCommand::Exit(Exit {  }))
    } else if str_eq(&command.name, "jobs") {
        Some(BuiltinCommand::Jobs(Jobs {  }))
    } else if str_eq(&command.name, "kill") {
        Some(BuiltinCommand::Kill(Kill {  }))
    } else {
        None
    }
}

} // verus!
