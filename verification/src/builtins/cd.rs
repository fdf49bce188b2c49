use vstd::prelude::*;

use crate::builtins::BuiltIn;
use crate::error::ShellError;
use crate::shell::DefaultShell;
use crate::strutil::str_eq;
use crate::sys::sys_chdir;
use crate::sys::sys_getcwd;

verus! {

/// The `cd` builtin: changes the shell's working directory.
pub struct Cd {}

/// What `cd` does: no argument goes to the home directory, `-` goes to
/// the directory the last change left, one other argument is the target
/// path, and more than one argument is an error. The directory being left
/// is recorded only when the directory actually changes: a failed attempt
/// leaves the previous-directory value as it was.
pub open spec fn cd_spec(
    pre: DefaultShell,
    args: Seq<String>,
    post: DefaultShell,
    r: Result<i32, ShellError>,
) -> bool {
    if args.len() > 1 {
        post == pre && r == Err::<i32, ShellError>(ShellError::TooManyArguments)
    } else if args.len() == 0 && pre.home is None {
        post == pre && r == Err::<i32, ShellError>(ShellError::HomeNotSet)
    } else if args.len() == 1 && args[0]@ == "-"@ && pre.oldpwd is None {
        post == pre && r == Err::<i32, ShellError>(ShellError::OldpwdNotSet)
    } else {
        &&& post.home == pre.home
        &&& post.last_exit_code == pre.last_exit_code
        &&& post.should_exit == pre.should_exit
        &&& post.job_table == pre.job_table
        &&& (r is Ok ==> r == Ok::<i32, ShellError>(0) && post.oldpwd is Some)
        &&& (r matches Err(e) ==> e is Os || e is NoWorkingDirectory)
        &&& (r is Err ==> post.oldpwd == pre.oldpwd)
    }
}

/// Attempts the change of directory; on success, records the directory
/// that was just left in the shell state. A failed attempt leaves the
/// recorded value untouched.
fn set_new_cwd(shell: &mut DefaultShell, dir: &str) -> (r: Result<(), ShellError>)
    ensures
        final(shell).home == old(shell).home,
        final(shell).last_exit_code == old(shell).last_exit_code,
        final(shell).should_exit == old(shell).should_exit,
        final(shell).job_table == old(shell).job_table,
        r is Ok ==> final(shell).oldpwd is Some,
        r matches Err(e) ==> e is Os || e is NoWorkingDirectory,
        r is Err ==> final(shell).oldpwd == old(shell).oldpwd,
{
    let cwd = match sys_getcwd() {
        Some(c) => c,
        None => {
            return Err(ShellError::NoWorkingDirectory);
        },
    };
    match sys_chdir(dir) {
        Ok(_) => {
            shell.oldpwd = Some(cwd);
            Ok(())
        },
        Err(e) => Err(ShellError::Os(e)),
    }
}

impl BuiltIn for Cd {
    open spec fn call_spec(
        &self,
        pre: DefaultShell,
        args: Seq<String>,
        post: DefaultShell,
        r: Result<i32, ShellError>,
    ) -> bool {
        cd_spec(pre, args, post, r)
    }

    fn call(&self, shell: &mut DefaultShell, args: &Vec<String>) -> (r: Result<i32, ShellError>) {
        if args.len() > 1 {
            return Err(ShellError::TooManyArguments);
        }
        if args.len() == 0 {
            let home = match &shell.home {
                Some(h) => h.clone(),
                None => {
                    return Err(ShellError::HomeNotSet);
                },
            };
            match set_new_cwd(shell, home.as_str()) {
                Ok(_) => Ok(0),
                Err(e) => Err(e),
            }
        } else if str_eq(&args[0], "-") {
            let target = match &shell.oldpwd {
                Some(d) => d.clone(),
                None => {
                    return Err(ShellError::OldpwdNotSet);
                },
            };
            match set_new_cwd(shell, target.as_str()) {
                Ok(_) => Ok(0),
                Err(e) => Err(e),
            }
        } else {
            let target = args[0].clone();
            match set_new_cwd(shell, target.as_str()) {
                Ok(_) => Ok(0),
                Err(e) => Err(e),
            }
        }
    }
}

} // verus!
