use rjsh::proc::ExitStatus;
use rjsh::proc::ExitStatusEnum;
use rjsh::proc::ExternalProcesss;
use rjsh::proc::InternalProcess;
use rjsh::proc::Process;
use rjsh::proc::ProcessHandle;
use rjsh::proc::ProcessId;
use rjsh::proc::ProcessStatus;
use rjsh::proc::Status;
use rjsh::proc::WaitEvent;
use rjsh::proc::job::Job;
use rjsh::proc::job::Pgid;
use rjsh::proc::job_table::JobTable;

fn terminal_job(name: &str) -> Job {
    let process = InternalProcess::new(name.to_string(), 0);
    Job::new(
        Pgid(0),
        vec![ProcessHandle::Internal(process)],
        Status::Done,
        true,
        name.to_string(),
    )
}

fn process_with_status(status: Status, exit_status: Option<ExitStatus>) -> ProcessHandle {
    ProcessHandle::External(ExternalProcesss {
        name: "p".to_string(),
        pid: ProcessId(424242),
        status: ProcessStatus {
            status,
            exit_status,
        },
    })
}

fn job_with_statuses(statuses: &[Status]) -> Job {
    let mut processes = Vec::new();
    for st in statuses {
        let exit_status = match st {
            Status::Running => None,
            Status::Done => Some(ExitStatus {
                exit_status: ExitStatusEnum::Done(0),
            }),
            Status::Killed => Some(ExitStatus {
                exit_status: ExitStatusEnum::Killed(15),
            }),
            Status::Stopped => Some(ExitStatus {
                exit_status: ExitStatusEnum::Stopped(19),
            }),
        };
        processes.push(process_with_status(*st, exit_status));
    }
    Job::new(Pgid(0), processes, Status::Running, true, "j".to_string())
}

#[test]
fn test_job_table_id_reuse() {
    let mut table = JobTable::default();
    table.add_job(terminal_job("a"));
    table.add_job(terminal_job("b"));
    table.add_job(terminal_job("c"));
    assert_eq!(table.size(), 3);
    assert_eq!(table.get_job(1).unwrap().id, 1);
    assert_eq!(table.get_job(2).unwrap().id, 2);
    assert_eq!(table.get_job(3).unwrap().id, 3);

    assert!(table.remove_job(2).is_ok());
    assert_eq!(table.size(), 2);
    assert!(table.get_job(2).is_none());
    assert_eq!(table.get_job(1).unwrap().name, "a".to_string());
    assert_eq!(table.get_job(3).unwrap().name, "c".to_string());

    table.add_job(terminal_job("d"));
    assert_eq!(table.size(), 3);
    let d = table.get_job(2).unwrap();
    assert_eq!(d.id, 2);
    assert_eq!(d.name, "d".to_string());
}

#[test]
fn test_job_table_grows_when_full() {
    let mut table = JobTable::default();
    table.add_job(terminal_job("a"));
    table.add_job(terminal_job("b"));
    table.add_job(terminal_job("c"));
    assert_eq!(table.get_job(3).unwrap().id, 3);
    assert_eq!(table.size(), 3);
}

#[test]
fn test_job_table_remove_out_of_bounds() {
    let mut table = JobTable::default();
    table.add_job(terminal_job("a"));
    assert_eq!(table.remove_job(9), Err(rjsh::error::ShellError::JobIndexOutOfBounds));
    assert_eq!(table.remove_job(0), Err(rjsh::error::ShellError::JobIndexOutOfBounds));
    assert_eq!(table.size(), 1);
}

#[test]
fn test_job_table_remove_empty_slot() {
    let mut table = JobTable::default();
    table.add_job(terminal_job("a"));
    table.add_job(terminal_job("b"));
    assert!(table.remove_job(1).is_ok());
    // The slot is already free: reported, and the table is unchanged.
    assert_eq!(table.remove_job(1), Err(rjsh::error::ShellError::JobNotFound));
    assert_eq!(table.size(), 1);
    assert_eq!(table.get_job(2).unwrap().name, "b".to_string());
}

#[test]
fn test_status_aggregation_precedence() {
    let mut j = job_with_statuses(&[Status::Stopped, Status::Done]);
    j.update_status();
    assert_eq!(j.last_status, Status::Stopped);

    let mut j = job_with_statuses(&[Status::Running, Status::Done]);
    j.update_status();
    assert_eq!(j.last_status, Status::Running);

    let mut j = job_with_statuses(&[Status::Killed, Status::Done]);
    j.update_status();
    assert_eq!(j.last_status, Status::Killed);

    let mut j = job_with_statuses(&[Status::Done, Status::Done]);
    j.update_status();
    assert_eq!(j.last_status, Status::Done);
}

#[test]
fn test_wait_idempotent_on_finished() {
    let mut p = InternalProcess::new("x".to_string(), 7);
    assert_eq!(p.wait(true).unwrap(), Status::Done);
    assert_eq!(p.wait(false).unwrap(), Status::Done);
    assert_eq!(p.exit_status().unwrap().code(), Some(7));

    // A finished external process is returned from its cache: a real wait
    // call on this made-up pid would fail, so an Ok result shows no call
    // was issued.
    let mut done = ExternalProcesss {
        name: "fake".to_string(),
        pid: ProcessId(999_999),
        status: ProcessStatus {
            status: Status::Done,
            exit_status: Some(ExitStatus {
                exit_status: ExitStatusEnum::Done(3),
            }),
        },
    };
    assert_eq!(done.wait(true).unwrap(), Status::Done);
    assert_eq!(done.wait(false).unwrap(), Status::Done);
    assert_eq!(done.exit_status().unwrap().code(), Some(3));

    let mut killed = ExternalProcesss {
        name: "fake2".to_string(),
        pid: ProcessId(999_998),
        status: ProcessStatus {
            status: Status::Killed,
            exit_status: Some(ExitStatus {
                exit_status: ExitStatusEnum::Killed(9),
            }),
        },
    };
    assert_eq!(killed.wait(false).unwrap(), Status::Killed);
    assert_eq!(killed.exit_status().unwrap().killed(), Some(9));
}

#[test]
fn test_process_status_update_events() {
    let mut ps = ProcessStatus::default();
    assert_eq!(ps.status, Status::Running);

    ps.update(WaitEvent::Stopped(19));
    assert_eq!(ps.status, Status::Stopped);
    assert_eq!(ps.exit_status.unwrap().stopped_signal(), Some(19));

    ps.update(WaitEvent::Continued);
    assert_eq!(ps.status, Status::Running);
    assert!(ps.exit_status.is_none());

    ps.update(WaitEvent::StillAlive);
    assert_eq!(ps.status, Status::Running);

    ps.update(WaitEvent::Signaled(15));
    assert_eq!(ps.status, Status::Killed);
    assert_eq!(ps.exit_status.unwrap().killed(), Some(15));

    ps.update(WaitEvent::Exited(4));
    assert_eq!(ps.status, Status::Done);
    assert_eq!(ps.exit_status.unwrap().code(), Some(4));
}

#[test]
fn test_exit_status_accessors() {
    let done = ExitStatus {
        exit_status: ExitStatusEnum::Done(5),
    };
    assert_eq!(done.code(), Some(5));
    assert_eq!(done.killed(), None);
    assert_eq!(done.stopped_signal(), None);

    let killed = ExitStatus {
        exit_status: ExitStatusEnum::Killed(9),
    };
    assert_eq!(killed.code(), None);
    assert_eq!(killed.killed(), Some(9));
    assert_eq!(killed.stopped_signal(), None);

    let stopped = ExitStatus {
        exit_status: ExitStatusEnum::Stopped(19),
    };
    assert_eq!(stopped.code(), None);
    assert_eq!(stopped.killed(), None);
    assert_eq!(stopped.stopped_signal(), Some(19));
}

#[test]
fn test_status_is_finished() {
    assert!(!Status::Running.is_finished());
    assert!(!Status::Stopped.is_finished());
    assert!(Status::Killed.is_finished());
    assert!(Status::Done.is_finished());
}

#[test]
fn test_job_display_line() {
    let process = InternalProcess::new("sleep 5 ".to_string(), 0);
    let mut job = Job::new(
        Pgid(1234),
        vec![ProcessHandle::Internal(process)],
        Status::Running,
        true,
        "sleep 5 ".to_string(),
    );
    job.id = 3;
    assert_eq!(job.display_line(), "[3]\t1234\tRunning\tsleep 5 ".to_string());
}

#[test]
fn test_status_names() {
    assert_eq!(Status::Running.name(), "Running".to_string());
    assert_eq!(Status::Stopped.name(), "Stopped".to_string());
    assert_eq!(Status::Killed.name(), "Killed".to_string());
    assert_eq!(Status::Done.name(), "Done".to_string());
}

#[test]
fn test_job_exit_status_is_leaders() {
    let job = terminal_job("a");
    assert_eq!(job.exit_status().unwrap().code(), Some(0));
}

#[test]
fn test_shell_update_jobs_clears_terminal_jobs() {
    let mut shell = rjsh::shell::DefaultShell::default();
    shell.job_table.add_job(terminal_job("a"));
    shell.job_table.add_job(terminal_job("b"));
    rjsh::shell::Shell::update_jobs(&mut shell);
    assert_eq!(rjsh::shell::Shell::job_number(&shell), 0);
}

#[test]
fn test_job_table_update_removes_finished() {
    let mut table = JobTable::default();
    table.add_job(terminal_job("a"));
    table.add_job(terminal_job("b"));
    assert_eq!(table.size(), 2);
    assert!(table.update().is_ok());
    assert_eq!(table.size(), 0);
    assert!(table.get_job(1).is_none());
    assert!(table.get_job(2).is_none());
}
