use nix::fcntl::OFlag;
use nix::spawn::PosixSpawnAttr;
use nix::spawn::PosixSpawnFileActions;
use nix::spawn::PosixSpawnFlags;
use nix::spawn::posix_spawn;
use nix::sys::stat::Mode;
use nix::unistd::Pid;

use rjsh::builtins::BuiltIn;
use rjsh::builtins::kill::Kill;
use rjsh::exec::OpenFlags;
use rjsh::exec::ResolvedRedirectee;
use rjsh::exec::RjshForkResult;
use rjsh::exec::execute_command;
use rjsh::exec::resolve_redirections;
use rjsh::parser::parse_command;
use rjsh::proc::ProcessId;
use rjsh::proc::Status;
use rjsh::shell::DefaultShell;
use rjsh::shell::Shell;

fn oflag_of(flags: OpenFlags) -> OFlag {
    let mut of = OFlag::empty();
    if flags.write {
        of |= OFlag::O_WRONLY;
    }
    if flags.create {
        of |= OFlag::O_CREAT;
    }
    if flags.truncate {
        of |= OFlag::O_TRUNC;
    }
    if flags.append {
        of |= OFlag::O_APPEND;
    }
    of
}

fn read_file(path: &str) -> String {
    let fd = nix::fcntl::open(path, OFlag::O_RDONLY, Mode::empty()).unwrap();
    let mut out: Vec<u8> = Vec::new();
    let mut buf = [0u8; 256];
    loop {
        let n = nix::unistd::read(&fd, &mut buf).unwrap();
        if n == 0 {
            break;
        }
        out.extend_from_slice(&buf[..n]);
    }
    String::from_utf8(out).unwrap()
}

// Plays the part of the unverified spawn edge: opens the resolved stdout
// binding for the child via spawn file actions and starts `/bin/echo hi`.
fn spawn_echo_hi(shell: &mut DefaultShell, line: &str) -> Option<i32> {
    let command = parse_command(line).unwrap();
    assert_eq!(command.name, "echo".to_string());
    let holder = resolve_redirections(&command.redirections);

    let mut actions = PosixSpawnFileActions::init().unwrap();
    match holder.stdout {
        Some(ResolvedRedirectee::File(path, flags)) => {
            actions
                .add_open(1, path.as_str(), oflag_of(flags), Mode::from_bits(0o644).unwrap())
                .unwrap();
        }
        other => panic!("expected a stdout file binding, got {other:?}"),
    }
    let attr = PosixSpawnAttr::init().unwrap();
    let argv = [c"echo", c"hi"];
    let pid = posix_spawn(c"/bin/echo", &actions, &attr, &argv, &argv[..0]).unwrap();

    let name = command.render();
    let background = command.background;
    execute_command(
        shell,
        RjshForkResult::Child(ProcessId(pid.as_raw())),
        background,
        name,
    )
    .unwrap()
}

#[test]
fn test_echo_redirection_end_to_end() {
    let path = "/tmp/rjsh_scenario_out.txt";
    let _ = nix::unistd::unlink(path);

    let mut shell = DefaultShell::default();
    let code = spawn_echo_hi(&mut shell, "echo hi > /tmp/rjsh_scenario_out.txt");
    assert_eq!(code, Some(0));
    assert_eq!(shell.last_exit_code, 0);
    assert_eq!(read_file(path), "hi\n".to_string());

    // Running it again with `>>` appends instead of truncating.
    let code = spawn_echo_hi(&mut shell, "echo hi >> /tmp/rjsh_scenario_out.txt");
    assert_eq!(code, Some(0));
    assert_eq!(read_file(path), "hi\nhi\n".to_string());

    let _ = nix::unistd::unlink(path);
}

#[test]
fn test_background_job_kill_and_update() {
    let command = parse_command("sleep 5 &").unwrap();
    assert!(command.background);

    // Spawn `sleep 5` as its own process-group leader, as the shell's
    // child context would.
    let actions = PosixSpawnFileActions::init().unwrap();
    let mut attr = PosixSpawnAttr::init().unwrap();
    attr.set_pgroup(Pid::from_raw(0)).unwrap();
    attr.set_flags(PosixSpawnFlags::POSIX_SPAWN_SETPGROUP).unwrap();
    let argv = [c"sleep", c"5"];
    let pid = posix_spawn(c"/bin/sleep", &actions, &attr, &argv, &argv[..0]).unwrap();

    let mut shell = DefaultShell::default();
    let name = command.render();
    let r = execute_command(
        &mut shell,
        RjshForkResult::Child(ProcessId(pid.as_raw())),
        true,
        name,
    );

    // The caller gets no exit code back, and exactly one running job.
    assert_eq!(r, Ok(None));
    assert_eq!(shell.job_number(), 1);
    let job = shell.job_table.get_job(1).unwrap();
    assert_eq!(job.id, 1);
    assert_eq!(job.last_status, Status::Running);
    assert_eq!(shell.get_job_pid(1), Ok(pid.as_raw()));

    // `kill %1` signals the job's process group.
    let kill_args = vec!["%1".to_string()];
    assert_eq!(Kill {}.call(&mut shell, &kill_args), Ok(0));

    // The next update passes see the job become Killed and remove it.
    let mut rounds = 0usize;
    while shell.job_number() > 0 && rounds < 200 {
        shell.job_table.update().unwrap();
        if shell.job_number() == 0 {
            break;
        }
        nix::unistd::sleep(1);
        rounds += 1;
    }
    assert_eq!(shell.job_number(), 0);
    assert!(shell.job_table.get_job(1).is_none());
}
