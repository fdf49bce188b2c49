use rjsh::decimal::format_i32;
use rjsh::decimal::format_u64;
use rjsh::decimal::format_usize;
use rjsh::decimal::parse_i32;
use rjsh::decimal::parse_usize;
use rjsh::exec::OpenFlags;
use rjsh::exec::ResolvedRedirectee;
use rjsh::exec::RjshForkResult;
use rjsh::exec::ast_to_job;
use rjsh::exec::execute_command;
use rjsh::exec::open_flags;
use rjsh::exec::resolve_redirections;
use rjsh::exec::run_builtin;
use rjsh::exec::run_builtin_foreground;
use rjsh::parser::ast::Redirectee;
use rjsh::parser::ast::Redirection;
use rjsh::parser::ast::RedirectionPermission;
use rjsh::parser::ast::RedirectionType;
use rjsh::parser::parse_command;
use rjsh::proc::Process;
use rjsh::proc::ProcessId;
use rjsh::proc::Status;
use rjsh::shell::DefaultShell;
use rjsh::strutil::chars_of;

fn redirection(
    path: &str,
    type_: RedirectionType,
    permissions: RedirectionPermission,
) -> Redirection {
    Redirection::new(Redirectee::FileName(path.to_string()), type_, permissions)
}

#[test]
fn test_open_flags_mapping() {
    let stdin = open_flags(&redirection(
        "f",
        RedirectionType::Stdin,
        RedirectionPermission::Standard,
    ));
    assert_eq!(
        stdin,
        OpenFlags {
            read: true,
            write: false,
            create: false,
            truncate: false,
            append: false,
        }
    );

    let stdout = open_flags(&redirection(
        "f",
        RedirectionType::Stdout,
        RedirectionPermission::Standard,
    ));
    assert_eq!(
        stdout,
        OpenFlags {
            read: false,
            write: true,
            create: true,
            truncate: true,
            append: false,
        }
    );

    let clobber = open_flags(&redirection(
        "f",
        RedirectionType::Stderr,
        RedirectionPermission::Truncate,
    ));
    assert_eq!(
        clobber,
        OpenFlags {
            read: false,
            write: true,
            create: true,
            truncate: true,
            append: false,
        }
    );

    let append = open_flags(&redirection(
        "f",
        RedirectionType::Stdout,
        RedirectionPermission::Append,
    ));
    assert_eq!(
        append,
        OpenFlags {
            read: false,
            write: true,
            create: true,
            truncate: false,
            append: true,
        }
    );
}

#[test]
fn test_resolve_redirections_last_wins() {
    let rs = vec![
        redirection("a", RedirectionType::Stdout, RedirectionPermission::Standard),
        redirection("b", RedirectionType::Stdin, RedirectionPermission::Standard),
        redirection("c", RedirectionType::Stdout, RedirectionPermission::Append),
    ];
    let holder = resolve_redirections(&rs);
    match holder.stdout {
        Some(ResolvedRedirectee::File(path, flags)) => {
            assert_eq!(path, "c".to_string());
            assert!(flags.append);
        }
        other => panic!("unexpected stdout binding: {other:?}"),
    }
    match holder.stdin {
        Some(ResolvedRedirectee::File(path, _)) => assert_eq!(path, "b".to_string()),
        other => panic!("unexpected stdin binding: {other:?}"),
    }
    assert!(holder.stderr.is_none());
}

#[test]
fn test_resolve_explicit_descriptor() {
    let rs = vec![Redirection::new(
        Redirectee::FileDescriptor(7),
        RedirectionType::Stderr,
        RedirectionPermission::Standard,
    )];
    let holder = resolve_redirections(&rs);
    assert_eq!(holder.stderr, Some(ResolvedRedirectee::Fd(7)));
}

#[test]
fn test_ast_to_job_external() {
    let job = ast_to_job(
        RjshForkResult::Child(ProcessId(4321)),
        true,
        "sleep 5 ".to_string(),
    );
    assert_eq!(job.id, 0);
    assert_eq!(job.pgid.0, 4321);
    assert!(job.background);
    assert_eq!(job.last_status, Status::Running);
    assert_eq!(job.processes.len(), 1);
    assert_eq!(job.processes[0].pid().0, 4321);
    assert_eq!(job.processes[0].status(), Status::Running);
}

#[test]
fn test_ast_to_job_builtin_result() {
    let job = ast_to_job(RjshForkResult::Exit(3), false, "exit 3 ".to_string());
    assert_eq!(job.pgid.0, 0);
    assert!(!job.background);
    assert_eq!(job.last_status, Status::Done);
    assert_eq!(job.exit_status().unwrap().code(), Some(3));
}

#[test]
fn test_execute_command_builtin_outcome() {
    let mut shell = DefaultShell::default();
    let r = execute_command(&mut shell, RjshForkResult::Exit(5), false, "x ".to_string());
    assert_eq!(r, Ok(Some(5)));
    assert_eq!(shell.last_exit_code, 5);
    assert_eq!(shell.job_table.size(), 0);
}

#[test]
fn test_run_builtin_foreground_rules() {
    let mut shell = DefaultShell::default();

    let external = parse_command("ls -l").unwrap();
    assert_eq!(run_builtin_foreground(&mut shell, &external), None);

    let background_builtin = parse_command("exit &").unwrap();
    assert_eq!(run_builtin_foreground(&mut shell, &background_builtin), None);
    assert!(!shell.should_exit);

    let foreground_builtin = parse_command("exit 9").unwrap();
    assert_eq!(run_builtin_foreground(&mut shell, &foreground_builtin), Some(9));
    assert!(shell.should_exit);
}

#[test]
fn test_run_builtin_failure_reports_one() {
    let mut shell = DefaultShell::default();
    let bad = parse_command("exit a b").unwrap();
    assert_eq!(run_builtin(&mut shell, &bad), Some(1));
    assert!(!shell.should_exit);
}

#[test]
fn test_format_numbers() {
    assert_eq!(format_u64(0), "0".to_string());
    assert_eq!(format_u64(90210), "90210".to_string());
    assert_eq!(format_i32(-123), "-123".to_string());
    assert_eq!(format_i32(i32::MIN), "-2147483648".to_string());
    assert_eq!(format_usize(7), "7".to_string());
}

#[test]
fn test_parse_numbers() {
    assert_eq!(parse_i32(&chars_of("123")), Some(123));
    assert_eq!(parse_i32(&chars_of("-123")), Some(-123));
    assert_eq!(parse_i32(&chars_of("+7")), Some(7));
    assert_eq!(parse_i32(&chars_of("2147483647")), Some(i32::MAX));
    assert_eq!(parse_i32(&chars_of("-2147483648")), Some(i32::MIN));
    assert_eq!(parse_i32(&chars_of("2147483648")), None);
    assert_eq!(parse_i32(&chars_of("-2147483649")), None);
    assert_eq!(parse_i32(&chars_of("")), None);
    assert_eq!(parse_i32(&chars_of("12a")), None);
    assert_eq!(parse_i32(&chars_of("-")), None);

    assert_eq!(parse_usize(&chars_of("42")), Some(42));
    assert_eq!(parse_usize(&chars_of("+42")), Some(42));
    assert_eq!(parse_usize(&chars_of("-1")), None);
    assert_eq!(parse_usize(&chars_of("")), None);
}
