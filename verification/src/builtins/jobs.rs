use vstd::prelude::*;

use crate::builtins::BuiltIn;
use crate::error::ShellError;
use crate::shell::DefaultShell;

verus! {

/// The `jobs` builtin: prints every active job's display line.
pub struct Jobs {}

/// What `jobs` does: with no argument it prints the job table and
/// succeeds; any argument is an error. The shell state never changes.
pub open spec fn jobs_spec(
    pre: DefaultShell,
    args: Seq<String>,
    post: DefaultShell,
    r: Result<i32, ShellError>,
) -> bool {
    &&& post == pre
    &&& if args.len() > 0 {
        r == Err::<i32, ShellError>(ShellError::TooManyArguments)
    } else {
        r == Ok::<i32, ShellError>(0)
    }
}

impl BuiltIn for Jobs {
    open spec fn call_spec(
        &self,
        pre: DefaultShell,
        args: Seq<String>,
        post: DefaultShell,
        r: Result<i32, ShellError>,
    ) -> bool {
        jobs_spec(pre, args, post, r)
    }

    fn call(&self, shell: &mut DefaultShell, args: &Vec<String>) -> (r: Result<i32, ShellError>) {
        if args.len() > 0 {
            return Err(ShellError::TooManyArguments);
        }
        shell.job_table.print_jobs();
        Ok(0)
    }
}

} // verus!
