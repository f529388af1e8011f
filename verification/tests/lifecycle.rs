use backend_supervisor::api_manager::APIManager;
use backend_supervisor::output::{OutputLine, OutputReader};
use backend_supervisor::pattern::ReadinessPattern;
use backend_supervisor::status::{Phase, ProcessHandle, Status, Step, SupervisorError};

fn manager() -> APIManager {
    APIManager::new(ReadinessPattern::new().expect("the readiness pattern compiles"))
}

fn running() -> APIManager {
    let mut m = manager();
    assert_eq!(m.start_backend(), Step::Spawn(ProcessHandle { epoch: 1 }));
    assert_eq!(m.spawn_finished(true), Step::Done(Status::Started));
    m
}

fn line(text: &str, epoch: u64) -> OutputLine {
    OutputLine { text: text.to_string(), seq: 0, epoch }
}

#[test]
fn new_manager_is_stopped() {
    let m = manager();
    assert!(!m.is_running());
    assert_eq!(m.child(), None);
    assert_eq!(m.phase(), Phase::Idle);
    assert_eq!(m.query_address(), None);
}

#[test]
fn start_spawns_then_reports_started() {
    let mut m = manager();
    assert_eq!(m.start_backend(), Step::Spawn(ProcessHandle { epoch: 1 }));
    assert_eq!(m.phase(), Phase::Spawning { restart: false });
    assert!(!m.is_running());
    assert_eq!(m.spawn_finished(true), Step::Done(Status::Started));
    assert!(m.is_running());
    assert_eq!(m.child(), Some(ProcessHandle { epoch: 1 }));
    assert_eq!(m.phase(), Phase::Idle);
}

#[test]
fn second_start_is_already_running() {
    let mut m = running();
    assert_eq!(m.start_backend(), Step::Done(Status::AlreadyRunning));
    assert_eq!(m.child(), Some(ProcessHandle { epoch: 1 }));
    assert_eq!(m.phase(), Phase::Idle);
}

#[test]
fn failed_spawn_leaves_nothing_running() {
    let mut m = manager();
    assert_eq!(m.start_backend(), Step::Spawn(ProcessHandle { epoch: 1 }));
    assert_eq!(m.spawn_finished(false), Step::Failed(SupervisorError::SpawnFailed));
    assert!(!m.is_running());
    assert_eq!(m.phase(), Phase::Idle);
    assert_eq!(m.start_backend(), Step::Spawn(ProcessHandle { epoch: 1 }));
}

#[test]
fn stop_when_not_running() {
    let mut m = manager();
    assert_eq!(m.terminate_backend(), Step::Done(Status::NotRunning));
    assert!(!m.is_running());
    assert_eq!(m.phase(), Phase::Idle);
}

#[test]
fn stop_kills_then_reports_terminated() {
    let mut m = running();
    assert_eq!(m.terminate_backend(), Step::Kill(ProcessHandle { epoch: 1 }));
    assert_eq!(m.phase(), Phase::Killing { restart: false });
    assert!(m.is_running());
    assert_eq!(m.kill_finished(true), Step::Done(Status::Terminated));
    assert!(!m.is_running());
    assert_eq!(m.phase(), Phase::Idle);
}

#[test]
fn failed_kill_keeps_the_handle() {
    let mut m = running();
    m.on_output_line(&line("Server running on http://localhost:9000", 1));
    assert_eq!(m.terminate_backend(), Step::Kill(ProcessHandle { epoch: 1 }));
    assert_eq!(m.kill_finished(false), Step::Failed(SupervisorError::TerminationFailed));
    assert_eq!(m.child(), Some(ProcessHandle { epoch: 1 }));
    assert_eq!(m.phase(), Phase::Idle);
    assert_eq!(m.query_address(), Some("http://localhost:9000".to_string()));
}

#[test]
fn address_is_unavailable_after_stop() {
    let mut m = running();
    m.on_output_line(&line("Server running on http://127.0.0.1:4321/", 1));
    assert_eq!(m.query_address(), Some("http://127.0.0.1:4321/".to_string()));
    assert_eq!(m.terminate_backend(), Step::Kill(ProcessHandle { epoch: 1 }));
    assert_eq!(m.kill_finished(true), Step::Done(Status::Terminated));
    assert_eq!(m.query_address(), None);
}

#[test]
fn restart_while_running() {
    let mut m = running();
    m.on_output_line(&line("Server running on http://127.0.0.1:4321/", 1));
    assert_eq!(m.restart_backend(), Step::Kill(ProcessHandle { epoch: 1 }));
    assert_eq!(m.phase(), Phase::Killing { restart: true });
    assert_eq!(m.kill_finished(true), Step::Spawn(ProcessHandle { epoch: 2 }));
    assert!(!m.is_running());
    assert_eq!(m.query_address(), None);
    assert_eq!(m.phase(), Phase::Spawning { restart: true });
    assert_eq!(m.spawn_finished(true), Step::Done(Status::Restarted));
    assert_eq!(m.child(), Some(ProcessHandle { epoch: 2 }));
    assert_eq!(m.query_address(), None);
}

#[test]
fn restart_ignores_lines_of_the_old_instance() {
    let mut m = running();
    assert_eq!(m.restart_backend(), Step::Kill(ProcessHandle { epoch: 1 }));
    assert_eq!(m.kill_finished(true), Step::Spawn(ProcessHandle { epoch: 2 }));
    assert_eq!(m.spawn_finished(true), Step::Done(Status::Restarted));
    assert_eq!(m.on_output_line(&line("Server running on http://127.0.0.1:4321/", 1)), None);
    assert_eq!(m.query_address(), None);
    assert_eq!(
        m.on_output_line(&line("Server running on http://127.0.0.1:5000/", 2)),
        Some("http://127.0.0.1:5000/".to_string())
    );
    assert_eq!(m.query_address(), Some("http://127.0.0.1:5000/".to_string()));
}

#[test]
fn restart_when_not_running_only_spawns() {
    let mut m = manager();
    assert_eq!(m.restart_backend(), Step::Spawn(ProcessHandle { epoch: 1 }));
    assert_eq!(m.spawn_finished(true), Step::Done(Status::Restarted));
    assert_eq!(m.child(), Some(ProcessHandle { epoch: 1 }));
}

#[test]
fn restart_stops_at_a_failed_kill() {
    let mut m = running();
    assert_eq!(m.restart_backend(), Step::Kill(ProcessHandle { epoch: 1 }));
    assert_eq!(m.kill_finished(false), Step::Failed(SupervisorError::TerminationFailed));
    assert_eq!(m.child(), Some(ProcessHandle { epoch: 1 }));
    assert_eq!(m.phase(), Phase::Idle);
}

#[test]
fn restart_with_failed_spawn_ends_stopped() {
    let mut m = running();
    assert_eq!(m.restart_backend(), Step::Kill(ProcessHandle { epoch: 1 }));
    assert_eq!(m.kill_finished(true), Step::Spawn(ProcessHandle { epoch: 2 }));
    assert_eq!(m.spawn_finished(false), Step::Failed(SupervisorError::SpawnFailed));
    assert!(!m.is_running());
    assert_eq!(m.phase(), Phase::Idle);
}

#[test]
fn requests_wait_while_an_operation_is_under_way() {
    let mut m = manager();
    assert_eq!(m.start_backend(), Step::Spawn(ProcessHandle { epoch: 1 }));
    assert_eq!(m.start_backend(), Step::Busy);
    assert_eq!(m.terminate_backend(), Step::Busy);
    assert_eq!(m.restart_backend(), Step::Busy);
    assert_eq!(m.phase(), Phase::Spawning { restart: false });
    assert_eq!(m.spawn_finished(true), Step::Done(Status::Started));
    assert_eq!(m.start_backend(), Step::Done(Status::AlreadyRunning));
}

#[test]
fn many_starts_spawn_one_process() {
    let mut m = manager();
    let mut spawns = 0;
    for round in 0..10 {
        if let Step::Spawn(_) = m.start_backend() {
            spawns += 1;
        }
        if round == 4 {
            assert_eq!(m.spawn_finished(true), Step::Done(Status::Started));
        }
    }
    assert_eq!(spawns, 1);
    assert_eq!(m.child(), Some(ProcessHandle { epoch: 1 }));
}

#[test]
fn reports_nobody_asked_for_change_nothing() {
    let mut m = manager();
    assert_eq!(m.spawn_finished(true), Step::Unexpected);
    assert_eq!(m.kill_finished(true), Step::Unexpected);
    assert!(!m.is_running());
    let mut r = running();
    assert_eq!(r.spawn_finished(true), Step::Unexpected);
    assert_eq!(r.kill_finished(true), Step::Unexpected);
    assert_eq!(r.child(), Some(ProcessHandle { epoch: 1 }));
}

#[test]
fn epochs_grow_with_each_spawn() {
    let mut m = manager();
    for epoch in 1..=5u64 {
        assert_eq!(m.start_backend(), Step::Spawn(ProcessHandle { epoch }));
        assert_eq!(m.spawn_finished(true), Step::Done(Status::Started));
        assert_eq!(m.terminate_backend(), Step::Kill(ProcessHandle { epoch }));
        assert_eq!(m.kill_finished(true), Step::Done(Status::Terminated));
    }
}

#[test]
fn reader_numbers_lines_in_order() {
    let mut reader = OutputReader::new(ProcessHandle { epoch: 7 });
    assert_eq!(reader, OutputReader { epoch: 7, next_seq: 0 });
    let a = reader.tag("first".to_string());
    let b = reader.tag("second".to_string());
    assert_eq!(a, OutputLine { text: "first".to_string(), seq: 0, epoch: 7 });
    assert_eq!(b, OutputLine { text: "second".to_string(), seq: 1, epoch: 7 });
    assert_eq!(reader.next_seq, 2);
}

#[test]
fn reader_numbering_stops_at_the_largest_number() {
    let mut reader = OutputReader { epoch: 1, next_seq: u64::MAX - 1 };
    assert_eq!(reader.tag("a".to_string()).seq, u64::MAX - 1);
    assert_eq!(reader.tag("b".to_string()).seq, u64::MAX);
    assert_eq!(reader.tag("c".to_string()).seq, u64::MAX);
    assert_eq!(reader.next_seq, u64::MAX);
}

#[test]
fn status_messages() {
    assert_eq!(Status::Started.message(), "Server start successfully");
    assert_eq!(Status::AlreadyRunning.message(), "Starting Server");
    assert_eq!(Status::Terminated.message(), "Server Terminated");
    assert_eq!(
        Status::NotRunning.message(),
        "Attempt to terminate server failed: Server not running"
    );
    assert_eq!(Status::Restarted.message(), "Successfully restarted the server");
}

#[test]
fn error_messages() {
    assert_eq!(SupervisorError::SpawnFailed.message(), "Server start failed");
    assert_eq!(
        SupervisorError::TerminationFailed.message(),
        "Some error happened when killing child process"
    );
}
