use vstd::prelude::*;

use crate::builtins::BuiltIn;
use crate::decimal::int_text_ok;
use crate::decimal::int_text_val;
use crate::decimal::parse_i32;
use crate::error::ShellError;
use crate::shell::DefaultShell;
use crate::strutil::chars_of;

verus! {

/// The `exit` builtin: requests shell termination.
pub struct Exit {}

/// Whether the text is a decimal exit code within the `i32` range.
pub open spec fn exit_code_text_ok(s: Seq<char>) -> bool {
    int_text_ok(s) && i32::MIN <= int_text_val(s) <= i32::MAX
}

/// What `exit` does: with no argument it exits with the shell's current
/// last exit code; with one numeric argument, with that code. A malformed
/// number or more than one argument fails, and then the exit request flag
/// is not set.
pub open spec fn exit_spec(
    pre: DefaultShell,
    args: Seq<String>,
    post: DefaultShell,
    r: Result<i32, ShellError>,
) -> bool {
    if args.len() > 1 {
        post == pre && r == Err::<i32, ShellError>(ShellError::TooManyArguments)
    } else if args.len() == 1 && !exit_code_text_ok(args[0]@) {
        post == pre && r == Err::<i32, ShellError>(ShellError::InvalidNumber)
    } else {
        let code: int = if args.len() == 0 {
            pre.last_exit_code as int
        } else {
            int_text_val(args[0]@)
        };
        &&& post == DefaultShell { should_exit: true, ..pre }
        &&& r matches Ok(c) && c as int == code
    }
}

impl BuiltIn for Exit {
    open spec fn call_spec(
        &self,
        pre: DefaultShell,
        args: Seq<String>,
        post: DefaultShell,
        r: Result<i32, ShellError>,
    ) -> bool {
        exit_spec(pre, args, post, r)
    }

    fn call(&self, shell: &mut DefaultShell, args: &Vec<String>) -> (r: Result<i32, ShellError>) {
        if args.len() > 1 {
            return Err(ShellError::TooManyArguments);
        }
        let exit_code: i32;
        if args.len() == 0 {
            exit_code = shell.last_exit_code;
        } else {
            let chars = chars_of(args[0].as_str());
            match parse_i32(&chars) {
                Some(n) => {
                    exit_code = n;
                },
                None => {
                    return Err(ShellError::InvalidNumber);
                },
            }
        }
        shell.should_exit = true;
        Ok(exit_code)
    }
}

} // verus!
