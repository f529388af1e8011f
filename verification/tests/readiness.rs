use backend_supervisor::api_manager::APIManager;
use backend_supervisor::output::OutputLine;
use backend_supervisor::pattern::ReadinessPattern;
use backend_supervisor::status::{ProcessHandle, Status, Step};

fn pattern() -> ReadinessPattern {
    ReadinessPattern::new().expect("the readiness pattern compiles")
}

fn running_manager() -> APIManager {
    let mut m = APIManager::new(pattern());
    assert_eq!(m.start_backend(), Step::Spawn(ProcessHandle { epoch: 1 }));
    assert_eq!(m.spawn_finished(true), Step::Done(Status::Started));
    m
}

fn line(text: &str, epoch: u64) -> OutputLine {
    OutputLine { text: text.to_string(), seq: 0, epoch }
}

#[test]
fn readiness_pattern_compiles() {
    assert!(ReadinessPattern::new().is_ok());
}

#[test]
fn extracts_ipv4_address_with_port_and_slash() {
    assert_eq!(
        pattern().extract("Server running on http://127.0.0.1:4321/"),
        Some("http://127.0.0.1:4321/".to_string())
    );
}

#[test]
fn extracts_bracketed_ipv6_address() {
    assert_eq!(
        pattern().extract("Server running on http://[::1]:8080"),
        Some("http://[::1]:8080".to_string())
    );
}

#[test]
fn extracts_https_host_without_port() {
    assert_eq!(
        pattern().extract("Server running on https://api.example-host.org"),
        Some("https://api.example-host.org".to_string())
    );
}

#[test]
fn extracts_from_the_middle_of_a_line() {
    assert_eq!(
        pattern().extract("[info] Server running on http://localhost:3000/ (press Ctrl+C)"),
        Some("http://localhost:3000/".to_string())
    );
}

#[test]
fn rejects_lines_without_the_signal() {
    let p = pattern();
    assert_eq!(p.extract("Listening..."), None);
    assert_eq!(p.extract(""), None);
    assert_eq!(p.extract("http://127.0.0.1:4321/"), None);
    assert_eq!(p.extract("Server running on ftp://127.0.0.1"), None);
    assert_eq!(p.extract("server running on http://127.0.0.1"), None);
}

#[test]
fn watcher_publishes_the_address() {
    let mut m = running_manager();
    let ready = m.on_output_line(&line("Server running on http://127.0.0.1:4321/", 1));
    assert_eq!(ready, Some("http://127.0.0.1:4321/".to_string()));
    assert_eq!(m.query_address(), Some("http://127.0.0.1:4321/".to_string()));
}

#[test]
fn non_matching_line_changes_nothing() {
    let mut m = running_manager();
    assert_eq!(m.on_output_line(&line("Listening...", 1)), None);
    assert_eq!(m.query_address(), None);
    m.on_output_line(&line("Server running on http://127.0.0.1:4321/", 1));
    assert_eq!(m.on_output_line(&line("Listening...", 1)), None);
    assert_eq!(m.query_address(), Some("http://127.0.0.1:4321/".to_string()));
}

#[test]
fn first_match_wins() {
    let mut m = running_manager();
    assert_eq!(
        m.on_output_line(&line("Server running on http://127.0.0.1:4321/", 1)),
        Some("http://127.0.0.1:4321/".to_string())
    );
    assert_eq!(m.on_output_line(&line("Server running on http://127.0.0.1:9999/", 1)), None);
    assert_eq!(m.query_address(), Some("http://127.0.0.1:4321/".to_string()));
}

#[test]
fn lines_are_discarded_while_nothing_runs() {
    let mut m = APIManager::new(pattern());
    assert_eq!(m.on_output_line(&line("Server running on http://127.0.0.1:4321/", 0)), None);
    assert_eq!(m.on_output_line(&line("Server running on http://127.0.0.1:4321/", 1)), None);
    assert_eq!(m.query_address(), None);
}

#[test]
fn lines_of_another_epoch_are_discarded() {
    let mut m = running_manager();
    assert_eq!(m.on_output_line(&line("Server running on http://127.0.0.1:4321/", 2)), None);
    assert_eq!(m.on_output_line(&line("Server running on http://127.0.0.1:4321/", 0)), None);
    assert_eq!(m.query_address(), None);
}

#[test]
fn publish_takes_the_capture_as_given() {
    let mut m = running_manager();
    assert_eq!(m.publish(1, None), None);
    assert_eq!(m.publish(2, Some("http://a".to_string())), None);
    assert_eq!(m.publish(1, Some("http://a".to_string())), Some("http://a".to_string()));
    assert_eq!(m.publish(1, Some("http://b".to_string())), None);
    assert_eq!(m.query_address(), Some("http://a".to_string()));
}
