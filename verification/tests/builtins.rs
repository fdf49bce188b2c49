use rjsh::builtins::BuiltIn;
use rjsh::builtins::BuiltinCommand;
use rjsh::builtins::cd::Cd;
use rjsh::builtins::exit::Exit;
use rjsh::builtins::get_builtin;
use rjsh::builtins::jobs::Jobs;
use rjsh::builtins::kill::Kill;
use rjsh::error::ShellError;
use rjsh::error::UnwrapPrintError;
use rjsh::parser::ast::Command;
use rjsh::shell::DefaultShell;

fn args(list: &[&str]) -> Vec<String> {
    list.iter().map(|s| s.to_string()).collect()
}

#[test]
fn test_cd_too_many_arguments() {
    let mut shell = DefaultShell::default();
    let r = Cd {}.call(&mut shell, &args(&["a", "b"]));
    assert_eq!(r, Err(ShellError::TooManyArguments));
    assert!(shell.oldpwd.is_none());
    assert_eq!(
        ShellError::TooManyArguments.message(),
        "too many arguments".to_string()
    );
}

#[test]
fn test_cd_home_unset() {
    let mut shell = DefaultShell::default();
    let r = Cd {}.call(&mut shell, &args(&[]));
    assert_eq!(r, Err(ShellError::HomeNotSet));
}

#[test]
fn test_cd_dash_without_oldpwd() {
    let mut shell = DefaultShell::default();
    let r = Cd {}.call(&mut shell, &args(&["-"]));
    assert_eq!(r, Err(ShellError::OldpwdNotSet));
}

#[test]
fn test_cd_changes_directory_and_records_oldpwd() {
    let mut shell = DefaultShell::default();
    shell.home = Some("/tmp".to_string());
    let r = Cd {}.call(&mut shell, &args(&[]));
    assert_eq!(r, Ok(0));
    assert!(shell.oldpwd.is_some());

    // `cd -` goes back to the recorded directory.
    let r = Cd {}.call(&mut shell, &args(&["-"]));
    assert_eq!(r, Ok(0));
}

#[test]
fn test_cd_nonexistent_directory() {
    let mut shell = DefaultShell::default();
    let r = Cd {}.call(&mut shell, &args(&["/rjsh_no_such_directory_42"]));
    assert!(matches!(r, Err(ShellError::Os(_))));
    // A failed change does not clobber the previous-directory value.
    assert!(shell.oldpwd.is_none());

    shell.oldpwd = Some("/tmp".to_string());
    let r = Cd {}.call(&mut shell, &args(&["/rjsh_no_such_directory_42"]));
    assert!(matches!(r, Err(ShellError::Os(_))));
    assert_eq!(shell.oldpwd, Some("/tmp".to_string()));
}

#[test]
fn test_exit_too_many_arguments() {
    let mut shell = DefaultShell::default();
    let r = Exit {}.call(&mut shell, &args(&["a", "b"]));
    assert_eq!(r, Err(ShellError::TooManyArguments));
    assert!(!shell.should_exit);
}

#[test]
fn test_exit_invalid_number() {
    let mut shell = DefaultShell::default();
    let r = Exit {}.call(&mut shell, &args(&["abc"]));
    assert_eq!(r, Err(ShellError::InvalidNumber));
    assert!(!shell.should_exit);
}

#[test]
fn test_exit_without_argument_uses_last_code() {
    let mut shell = DefaultShell::default();
    shell.last_exit_code = 42;
    let r = Exit {}.call(&mut shell, &args(&[]));
    assert_eq!(r, Ok(42));
    assert!(shell.should_exit);
}

#[test]
fn test_exit_with_numeric_argument() {
    let mut shell = DefaultShell::default();
    let r = Exit {}.call(&mut shell, &args(&["-5"]));
    assert_eq!(r, Ok(-5));
    assert!(shell.should_exit);
}

#[test]
fn test_jobs_too_many_arguments() {
    let mut shell = DefaultShell::default();
    let r = Jobs {}.call(&mut shell, &args(&["x"]));
    assert_eq!(r, Err(ShellError::TooManyArguments));
}

#[test]
fn test_jobs_ok_when_empty() {
    let mut shell = DefaultShell::default();
    let r = Jobs {}.call(&mut shell, &args(&[]));
    assert_eq!(r, Ok(0));
}

#[test]
fn test_kill_not_enough_arguments() {
    let mut shell = DefaultShell::default();
    let r = Kill {}.call(&mut shell, &args(&[]));
    assert_eq!(r, Err(ShellError::NotEnoughArguments));
    assert_eq!(
        ShellError::NotEnoughArguments.message(),
        "not enough arguments".to_string()
    );
}

#[test]
fn test_kill_too_many_arguments() {
    let mut shell = DefaultShell::default();
    let r = Kill {}.call(&mut shell, &args(&["-9", "1", "2"]));
    assert_eq!(r, Err(ShellError::TooManyArguments));
}

#[test]
fn test_kill_invalid_signal_number() {
    let mut shell = DefaultShell::default();
    let r = Kill {}.call(&mut shell, &args(&["-999", "1"]));
    assert_eq!(r, Err(ShellError::InvalidSignal));
}

#[test]
fn test_kill_invalid_signal_name() {
    let mut shell = DefaultShell::default();
    let r = Kill {}.call(&mut shell, &args(&["-SIGNOTHING", "1"]));
    assert_eq!(r, Err(ShellError::InvalidSignal));
}

#[test]
fn test_kill_signal_name_accepted() {
    let mut shell = DefaultShell::default();
    // The signal resolves; the job id then fails to resolve.
    let r = Kill {}.call(&mut shell, &args(&["-SIGTERM", "%1"]));
    assert_eq!(r, Err(ShellError::JobNotFound));
}

#[test]
fn test_kill_job_not_found() {
    let mut shell = DefaultShell::default();
    let r = Kill {}.call(&mut shell, &args(&["%1"]));
    assert_eq!(r, Err(ShellError::JobNotFound));
    let r = Kill {}.call(&mut shell, &args(&["%0"]));
    assert_eq!(r, Err(ShellError::JobNotFound));
}

#[test]
fn test_kill_malformed_targets() {
    let mut shell = DefaultShell::default();
    let r = Kill {}.call(&mut shell, &args(&["abc"]));
    assert_eq!(r, Err(ShellError::InvalidNumber));
    let r = Kill {}.call(&mut shell, &args(&["%x"]));
    assert_eq!(r, Err(ShellError::InvalidNumber));
}

#[test]
fn test_get_builtin_dispatch() {
    let cmd = |name: &str| Command::new(name.to_string(), Vec::new(), Vec::new(), false);
    assert!(matches!(
        get_builtin(&cmd("cd")),
        Some(BuiltinCommand::Cd(_))
    ));
    assert!(matches!(
        get_builtin(&cmd("exit")),
        Some(BuiltinCommand::Exit(_))
    ));
    assert!(matches!(
        get_builtin(&cmd("jobs")),
        Some(BuiltinCommand::Jobs(_))
    ));
    assert!(matches!(
        get_builtin(&cmd("kill")),
        Some(BuiltinCommand::Kill(_))
    ));
    assert!(get_builtin(&cmd("ls")).is_none());
    assert!(get_builtin(&cmd("")).is_none());
}

#[test]
fn test_unwrap_error_with_print() {
    let ok: Result<i32, ShellError> = Ok(5);
    assert_eq!(ok.unwrap_error_with_print(), 5);
    let err: Result<i32, ShellError> = Err(ShellError::TooManyArguments);
    assert_eq!(err.unwrap_error_with_print(), 1);
}

#[test]
fn test_error_messages() {
    assert_eq!(
        ShellError::InvalidNumber.message(),
        "invalid number".to_string()
    );
    assert_eq!(
        ShellError::InvalidSignal.message(),
        "invalid signal".to_string()
    );
    assert_eq!(ShellError::JobNotFound.message(), "Job not found".to_string());
    assert_eq!(
        ShellError::JobIndexOutOfBounds.message(),
        "Job index out of bounds".to_string()
    );
    assert_eq!(ShellError::Os(2).message(), "os error 2".to_string());
    assert_eq!(ShellError::Os(-3).message(), "os error -3".to_string());
}
