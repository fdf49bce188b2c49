use vstd::prelude::*;

use crate::builtins::BuiltIn;
use crate::decimal::int_text_ok;
use crate::decimal::int_text_val;
use crate::decimal::parse_i32;
use crate::decimal::parse_usize;
use crate::decimal::uint_text_ok;
use crate::decimal::uint_text_val;
use crate::error::ShellError;
use crate::shell::DefaultShell;
use crate::shell::Shell;
use crate::shell::job_pgid_lookup;
use crate::strutil::chars_of;
use crate::strutil::string_from_chars;
use crate::strutil::subvec;
use crate::sys::is_signal_number;
use crate::sys::signal_of_name;
use crate::sys::sys_kill;
use crate::sys::sys_killpg;
use crate::sys::sys_signal_by_name;
use crate::sys::sys_signal_number_ok;
use crate::sys::sys_sigterm;

verus! {

/// The `kill` builtin: sends a signal to one process or to a whole job's
/// process group.
pub struct Kill {}

/// The signal a `-SIGNAL` argument names. Its first character is dropped;
/// the rest is read as a decimal signal number, or failing that, looked
/// up as a symbolic name. A number that no signal carries resolves to
/// nothing.
pub open spec fn signal_of_arg(a: Seq<char>) -> Option<i32> {
    if a.len() == 0 {
        None
    } else {
        let t = a.subrange(1, a.len() as int);
        if int_text_ok(t) && i32::MIN <= int_text_val(t) <= i32::MAX {
            if is_signal_number(int_text_val(t) as i32) {
                Some(int_text_val(t) as i32)
            } else {
                None
            }
        } else {
            signal_of_name(t)
        }
    }
}

/// What `kill` does once the signal is resolved: a `%N` target signals
/// job `N`'s process group, a bare decimal pid signals that process, and
/// anything else is a malformed number. Delivery itself can still fail in
/// the OS.
pub open spec fn kill_target_spec(
    pre: DefaultShell,
    target: Seq<char>,
    r: Result<i32, ShellError>,
) -> bool {
    if target.len() >= 1 && target[0] == '%' {
        let idt = target.subrange(1, target.len() as int);
        if !(uint_text_ok(idt) && uint_text_val(idt) <= usize::MAX) {
            r == Err::<i32, ShellError>(ShellError::InvalidNumber)
        } else {
            match job_pgid_lookup(pre.job_table, uint_text_val(idt)) {
                Ok(_) => r == Ok::<i32, ShellError>(0) || (r matches Err(e) && e is Os),
                Err(e2) => r == Err::<i32, ShellError>(e2),
            }
        }
    } else {
        if !(int_text_ok(target) && i32::MIN <= int_text_val(target) <= i32::MAX) {
            r == Err::<i32, ShellError>(ShellError::InvalidNumber)
        } else {
            r == Ok::<i32, ShellError>(0) || (r matches Err(e) && e is Os)
        }
    }
}

/// What `kill` does: it needs one or two arguments — an optional
/// `-SIGNAL` (by default SIGTERM) and the target. The shell state never
/// changes. An unknown signal, a malformed id or pid, and a missing job
/// each yield their own error.
pub open spec fn kill_spec(
    pre: DefaultShell,
    args: Seq<String>,
    post: DefaultShell,
    r: Result<i32, ShellError>,
) -> bool {
    &&& post == pre
    &&& if args.len() == 0 {
        r == Err::<i32, ShellError>(ShellError::NotEnoughArguments)
    } else if args.len() > 2 {
        r == Err::<i32, ShellError>(ShellError::TooManyArguments)
    } else {
        let sig = if args.len() == 2 {
            signal_of_arg(args[0]@)
        } else {
            signal_of_name("SIGTERM"@)
        };
        let target = if args.len() == 2 {
            args[1]@
        } else {
            args[0]@
        };
        match sig {
            None => r == Err::<i32, ShellError>(ShellError::InvalidSignal),
            Some(_) => kill_target_spec(pre, target, r),
        }
    }
}

impl BuiltIn for Kill {
    open spec fn call_spec(
        &self,
        pre: DefaultShell,
        args: Seq<String>,
        post: DefaultShell,
        r: Result<i32, ShellError>,
    ) -> bool {
        kill_spec(pre, args, post, r)
    }

    fn call(&self, shell: &mut DefaultShell, args: &Vec<String>) -> (r: Result<i32, ShellError>) {
        if args.len() == 0 {
            return Err(ShellError::NotEnoughArguments);
        }
        if args.len() > 2 {
            return Err(ShellError::TooManyArguments);
        }
        let signal: i32;
        if args.len() == 2 {
            let chars = chars_of(args[0].as_str());
            if chars.len() == 0 {
                return Err(ShellError::InvalidSignal);
            }
            let rest = subvec(&chars, 1);
            match parse_i32(&rest) {
                Some(n) => {
                    if sys_signal_number_ok(n) {
                        signal = n;
                    } else {
                        return Err(ShellError::InvalidSignal);
                    }
                },
                None => {
                    let name = string_from_chars(&chars, 1, chars.len());
                    match sys_signal_by_name(name.as_str()) {
                        Some(n) => {
                            signal = n;
                        },
                        None => {
                            return Err(ShellError::InvalidSignal);
                        },
                    }
                },
            }
        } else {
            signal = sys_sigterm();
        }
        let target = if args.len() == 2 {
            &args[1]
        } else {
            &args[0]
        };
        let tchars = chars_of(target.as_str());
        if tchars.len() >= 1 && tchars[0] == '%' {
            let idchars = subvec(&tchars, 1);
            match parse_usize(&idchars) {
                Some(job_id) => {
                    match shell.get_job_pid(job_id) {
                        Ok(pgid) => {
                            match sys_killpg(pgid, signal) {
                                Ok(_) => Ok(0),
                                Err(e) => Err(ShellError::Os(e)),
                            }
                        },
                        Err(e) => Err(e),
                    }
                },
                None => Err(ShellError::InvalidNumber),
            }
        } else {
            match parse_i32(&tchars) {
                Some(pid) => {
                    match sys_kill(pid, signal) {
                        Ok(_) => Ok(0),
                        Err(e) => Err(ShellError::Os(e)),
                    }
                },
                None => Err(ShellError::InvalidNumber),
            }
        }
    }
}

} // verus!
