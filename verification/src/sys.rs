use vstd::prelude::*;

use std::io::Write;

use nix::sys::signal::Signal;
use nix::sys::signal::kill;
use nix::sys::signal::killpg;
use nix::sys::wait::WaitPidFlag;
use nix::sys::wait::WaitStatus;
use nix::sys::wait::waitpid;
use nix::unistd::Pid;
use nix::unistd::chdir;
use nix::unistd::getcwd;

use crate::proc::WaitEvent;

verus! {

/// Whether the platform defines a signal with this number: the numbers that
/// nix's `Signal::try_from` accepts.
pub uninterp spec fn is_signal_number(n: i32) -> bool;

/// The signal number a symbolic name such as `SIGTERM` stands for, `None`
/// for an unknown name: the fixed table of nix's `Signal::from_str`.
pub uninterp spec fn signal_of_name(s: Seq<char>) -> Option<i32>;

/// Collects one status change of the given child process.
///
/// Relies on nix's `sys::wait::waitpid`. A blocking call passes WUNTRACED,
/// so stops are reported too; a non-blocking one adds WNOHANG and
/// WCONTINUED. `waitpid` reports "still alive" only under WNOHANG, and a
/// continue only under WCONTINUED (a ptrace-syscall stop, the other source
/// of `Continued` here, arises only for a traced child, which the shell
/// never has); so a blocking call yields neither `StillAlive` nor
/// `Continued`. The error is the raw `errno`.
#[verifier::external_body]
pub(crate) fn sys_waitpid(pid: i32, blocking: bool) -> (r: Result<WaitEvent, i32>)
    ensures
        blocking ==> !(r matches Ok(e) && e is StillAlive),
        blocking ==> !(r matches Ok(e) && e is Continued),
{
    let flags = if blocking {
        WaitPidFlag::WUNTRACED
    } else {
        WaitPidFlag::WNOHANG | WaitPidFlag::WUNTRACED | WaitPidFlag::WCONTINUED
    };
    match waitpid(Pid::from_raw(pid), Some(flags)) {
        Ok(WaitStatus::Exited(_, code)) => Ok(WaitEvent::Exited(code)),
        Ok(WaitStatus::Signaled(_, sig, _)) => Ok(WaitEvent::Signaled(sig as i32)),
        Ok(WaitStatus::Stopped(_, sig)) => Ok(WaitEvent::Stopped(sig as i32)),
        Ok(WaitStatus::PtraceEvent(_, sig, _)) => Ok(WaitEvent::Stopped(sig as i32)),
        Ok(WaitStatus::PtraceSyscall(_)) | Ok(WaitStatus::Continued(_)) => Ok(WaitEvent::Continued),
        Ok(WaitStatus::StillAlive) => Ok(WaitEvent::StillAlive),
        Err(e) => Err(e as i32),
    }
}

/// Sends a signal to one process. The error is the raw `errno`; a number
/// that is no signal yields EINVAL, as the raw system call would.
///
/// Relies on nix's `sys::signal::kill`; `Signal::try_from` rebuilds the
/// signal value from its number.
#[verifier::external_body]
pub(crate) fn sys_kill(pid: i32, signal: i32) -> (r: Result<(), i32>)
{
    match Signal::try_from(signal) {
        Ok(sig) => kill(Pid::from_raw(pid), sig).map_err(|e| e as i32),
        Err(e) => Err(e as i32),
    }
}

/// Sends a signal to every process of a process group. The error is the
/// raw `errno`.
///
/// Relies on nix's `sys::signal::killpg`; `Signal::try_from` rebuilds the
/// signal value from its number.
#[verifier::external_body]
pub(crate) fn sys_killpg(pgid: i32, signal: i32) -> (r: Result<(), i32>)
{
    match Signal::try_from(signal) {
        Ok(sig) => killpg(Pid::from_raw(pgid), sig).map_err(|e| e as i32),
        Err(e) => Err(e as i32),
    }
}

/// Whether the platform defines a signal with this number.
///
/// Relies on nix's `Signal::try_from` over raw signal numbers: it succeeds
/// exactly on the numbers of the signals the platform defines.
#[verifier::external_body]
pub(crate) fn sys_signal_number_ok(n: i32) -> (r: bool)
    ensures
        r == is_signal_number(n),
{
    Signal::try_from(n).is_ok()
}

/// Looks a symbolic signal name up, yielding its number.
///
/// Relies on nix's `Signal::from_str` (through `str::parse`), a fixed
/// table from names such as `SIGTERM` to the platform's signals.
#[verifier::external_body]
pub(crate) fn sys_signal_by_name(name: &str) -> (r: Option<i32>)
    ensures
        r == signal_of_name(name@),
{
    name.parse::<Signal>().ok().map(|s| s as i32)
}

/// The number of SIGTERM, the default signal of the kill builtin.
///
/// Relies on nix's `Signal::SIGTERM`; its number is what the name table
/// yields for `SIGTERM`, and a valid signal number.
#[verifier::external_body]
pub(crate) fn sys_sigterm() -> (r: i32)
    ensures
        Some(r) == signal_of_name("SIGTERM"@),
        is_signal_number(r),
{
    Signal::SIGTERM as i32
}

/// Changes the calling process's working directory. The error is the raw
/// `errno`.
///
/// Relies on nix's `unistd::chdir`.
#[verifier::external_body]
pub(crate) fn sys_chdir(path: &str) -> (r: Result<(), i32>)
{
    chdir(path).map_err(|e| e as i32)
}

/// The current working directory, or `None` when it cannot be read or its
/// name is not valid UTF-8.
///
/// Relies on nix's `unistd::getcwd`.
#[verifier::external_body]
pub(crate) fn sys_getcwd() -> (r: Option<String>)
{
    getcwd().ok().and_then(|p| p.to_str().map(|s| s.to_string()))
}

/// Prints one line to standard output; a write failure is ignored.
///
/// Relies on std's `io::stdout` and the `writeln` macro.
#[verifier::external_body]
pub(crate) fn print_line(s: &str)
{
    let _ = writeln!(std::io::stdout(), "{}", s);
}

/// Prints one line to standard error; a write failure is ignored.
///
/// Relies on std's `io::stderr` and the `writeln` macro.
#[verifier::external_body]
pub(crate) fn eprint_line(s: &str)
{
    let _ = writeln!(std::io::stderr(), "{}", s);
}

} // verus!
