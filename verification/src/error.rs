use vstd::prelude::*;

use crate::decimal::dec_int;
use crate::decimal::format_i32;
use crate::strutil::push_char;
use crate::sys::eprint_line;

verus! {

/// An error of the execution core. `Os` carries the raw `errno` value that
/// the failing system call reported.
#[derive(Debug, PartialEq, Eq, Clone, Copy)]
pub enum ShellError {
    /// A builtin was given more arguments than it takes.
    TooManyArguments,
    /// A builtin was given fewer arguments than it needs.
    NotEnoughArguments,
    /// An argument that had to be a decimal number was not one, or was out
    /// of range.
    InvalidNumber,
    /// A signal name or number that the platform does not know.
    InvalidSignal,
    /// A job id that no current job carries.
    JobNotFound,
    /// A job id beyond the job table's capacity.
    JobIndexOutOfBounds,
    /// `cd` with no argument, but no home directory is set.
    HomeNotSet,
    /// `cd -`, but no previous directory has been recorded.
    OldpwdNotSet,
    /// The current working directory could not be read.
    NoWorkingDirectory,
    /// A system call failed with this `errno`.
    Os(i32),
}

impl ShellError {
    /// The one-line diagnostic text of this error.
    pub open spec fn spec_message(self) -> Seq<char> {
        match self {
            ShellError::TooManyArguments => "too many arguments"@,
            ShellError::NotEnoughArguments => "not enough arguments"@,
            ShellError::InvalidNumber => "invalid number"@,
            ShellError::InvalidSignal => "invalid signal"@,
            ShellError::JobNotFound => "Job not found"@,
            ShellError::JobIndexOutOfBounds => "Job index out of bounds"@,
            ShellError::HomeNotSet => "HOME not set"@,
            ShellError::OldpwdNotSet => "OLDPWD not set"@,
            ShellError::NoWorkingDirectory => "cannot read the working directory"@,
            ShellError::Os(e) => "os error "@ + dec_int(e as int),
        }
    }

    /// Renders the one-line diagnostic.
    pub fn message(&self) -> (r: String)
        ensures
            r@ == self.spec_message(),
    {
        match self {
            ShellError::TooManyArguments => String::from_str("too many arguments"),
            ShellError::NotEnoughArguments => String::from_str("not enough arguments"),
            ShellError::InvalidNumber => String::from_str("invalid number"),
            ShellError::InvalidSignal => String::from_str("invalid signal"),
            ShellError::JobNotFound => String::from_str("Job not found"),
            ShellError::JobIndexOutOfBounds => String::from_str("Job index out of bounds"),
            ShellError::HomeNotSet => String::from_str("HOME not set"),
            ShellError::OldpwdNotSet => String::from_str("OLDPWD not set"),
            ShellError::NoWorkingDirectory => String::from_str(
                "cannot read the working directory",
            ),
            ShellError::Os(e) => {
                let mut s = String::from_str("os error ");
                let digits = format_i32(*e);
                s.append(digits.as_str());
                s
            },
        }
    }
}

/// Prints the shell's one-line diagnostic for an error to standard error.
pub fn report_error(e: &ShellError)
{
    let mut line = String::from_str("rjsh: ");
    let msg = e.message();
    line.append(msg.as_str());
    eprint_line(line.as_str());
}

/// Turns a fallible exit code into a definite one, printing the error:
/// a failing builtin becomes a diagnostic line plus exit code 1.
pub trait UnwrapPrintError {
    type T;

    /// What the unwrapping yields.
    spec fn unwrap_spec(self) -> Self::T;

    fn unwrap_error_with_print(self) -> (r: Self::T)
        ensures
            r == self.unwrap_spec(),
    ;
}

impl UnwrapPrintError for Result<i32, ShellError> {
    type T = i32;

    open spec fn unwrap_spec(self) -> i32 {
        match self {
            Ok(value) => value,
            Err(_) => 1,
        }
    }

    fn unwrap_error_with_print(self) -> (r: i32) {
        match self {
            Ok(value) => value,
            Err(error) => {
                report_error(&error);
                1
            },
        }
    }
}

} // verus!
