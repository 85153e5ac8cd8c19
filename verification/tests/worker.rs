use deno_http_worker::error::DenoWorkerError;
use deno_http_worker::monitor::classify_exit;
use deno_http_worker::monitor::marked_line;
use deno_http_worker::monitor::WaitResult;
use deno_http_worker::options::DenoWorkerOptions;
use deno_http_worker::readiness::readiness_step;
use deno_http_worker::readiness::WaitStep;
use deno_http_worker::readiness::SOCKET_POLL_INTERVAL_MS;
use deno_http_worker::readiness::SOCKET_WAIT_TIMEOUT_MS;
use deno_http_worker::worker::DenoHTTPWorker;
use deno_http_worker::worker::Startup;
use deno_http_worker::worker::StopSignal;
use deno_http_worker::worker::WorkerState;

fn starting() -> DenoHTTPWorker {
    DenoHTTPWorker::with_socket(
        "/tmp/w.sock".to_string(),
        "export default {}",
        DenoWorkerOptions::default(),
    )
}

fn running() -> DenoHTTPWorker {
    let mut worker = starting();
    worker.process_started();
    worker
}

fn bound() -> DenoHTTPWorker {
    let mut worker = running();
    assert!(matches!(worker.socket_polled(true, 40), Startup::Proceed));
    assert!(worker.awaits_answer());
    worker
}

fn ready() -> DenoHTTPWorker {
    let mut worker = bound();
    assert!(worker.warmed_up(Ok(())).is_ok());
    worker
}

#[test]
fn readiness_step_has_the_documented_values() {
    assert_eq!(SOCKET_POLL_INTERVAL_MS, 20);
    assert_eq!(SOCKET_WAIT_TIMEOUT_MS, 10000);
    assert_eq!(readiness_step(true, 0), WaitStep::Proceed);
    assert_eq!(readiness_step(true, 10000), WaitStep::Proceed);
    assert_eq!(readiness_step(true, u64::MAX), WaitStep::Proceed);
    assert_eq!(readiness_step(false, 0), WaitStep::Sleep(20));
    assert_eq!(readiness_step(false, 9980), WaitStep::Sleep(20));
    assert_eq!(readiness_step(false, 9981), WaitStep::Sleep(19));
    assert_eq!(readiness_step(false, 9999), WaitStep::Sleep(1));
    assert_eq!(readiness_step(false, 10000), WaitStep::TimedOut);
    assert_eq!(readiness_step(false, u64::MAX), WaitStep::TimedOut);
}

#[test]
fn a_wait_without_socket_ends_at_the_bound() {
    let mut waited: u64 = 0;
    let mut looks = 0;
    loop {
        match readiness_step(false, waited) {
            WaitStep::Sleep(pause) => {
                assert!(pause > 0 && pause <= 20);
                waited += pause;
                looks += 1;
            }
            WaitStep::TimedOut => break,
            WaitStep::Proceed => panic!("no socket was seen"),
        }
    }
    assert_eq!(waited, 10000);
    assert_eq!(looks, 500);
}

#[test]
fn new_worker_is_starting_with_its_launch_plan() {
    let worker = DenoHTTPWorker::new("code", DenoWorkerOptions::default(), "/tmp");
    assert_eq!(worker.state(), WorkerState::Starting);
    let socket = worker.socket_path().to_string();
    assert!(socket.starts_with("/tmp/"));
    assert!(socket.ends_with("-worker.sock"));
    assert_eq!(socket.len(), "/tmp/".len() + 36 + "-worker.sock".len());
    let plan = worker.launch_plan();
    assert_eq!(plan.command, "deno");
    assert_eq!(
        plan.arguments,
        vec![
            "run".to_string(),
            format!("--allow-read={}", socket),
            format!("--allow-write={}", socket),
            "../deno-bootstrap/index.ts".to_string(),
            socket.clone(),
            "script".to_string(),
            "code".to_string(),
        ]
    );
}

#[test]
fn new_worker_from_url_grants_the_module_file() {
    let worker =
        DenoHTTPWorker::new_from_url("file:///srv/mod.ts", DenoWorkerOptions::default(), "/run/");
    let socket = worker.socket_path().to_string();
    assert!(socket.starts_with("/run/"));
    assert_eq!(
        worker.launch_plan().arguments,
        vec![
            "run".to_string(),
            format!("--allow-read={},/srv/mod.ts", socket),
            format!("--allow-write={}", socket),
            "../deno-bootstrap/index.ts".to_string(),
            socket.clone(),
            "import".to_string(),
            "file:///srv/mod.ts".to_string(),
        ]
    );
}

#[test]
fn two_new_workers_have_their_own_sockets() {
    let a = DenoHTTPWorker::new("code", DenoWorkerOptions::default(), "/tmp");
    let b = DenoHTTPWorker::new("code", DenoWorkerOptions::default(), "/tmp");
    assert_ne!(a.socket_path(), b.socket_path());
}

#[test]
fn with_socket_from_url_uses_the_given_socket() {
    let worker = DenoHTTPWorker::with_socket_from_url(
        "/tmp/w.sock".to_string(),
        "https://x.test/m.ts",
        DenoWorkerOptions::default(),
    );
    assert_eq!(worker.socket_path(), "/tmp/w.sock");
    assert_eq!(worker.launch_plan().arguments[1], "--allow-read=/tmp/w.sock");
    assert_eq!(worker.launch_plan().arguments[5], "import");
}

#[test]
fn good_start_ends_ready() {
    let mut worker = starting();
    assert_eq!(worker.state(), WorkerState::Starting);
    worker.process_started();
    assert_eq!(worker.state(), WorkerState::Starting);
    assert!(matches!(worker.socket_polled(false, 0), Startup::Sleep(20)));
    assert!(matches!(worker.socket_polled(false, 9990), Startup::Sleep(10)));
    assert!(!worker.awaits_answer());
    assert!(matches!(worker.socket_polled(true, 9999), Startup::Proceed));
    assert_eq!(worker.state(), WorkerState::Starting);
    assert!(worker.awaits_answer());
    assert!(!worker.accepts_requests());
    assert!(worker.warmed_up(Ok(())).is_ok());
    assert_eq!(worker.state(), WorkerState::Ready);
    assert!(worker.accepts_requests());
    assert!(!worker.awaits_answer());
}

#[test]
fn socket_that_was_seen_stays_seen() {
    let mut worker = running();
    assert!(matches!(worker.socket_polled(true, 100), Startup::Proceed));
    assert!(matches!(worker.socket_polled(false, 200), Startup::Proceed));
    assert!(matches!(worker.socket_polled(false, 20000), Startup::Proceed));
    assert_eq!(worker.state(), WorkerState::Starting);
    assert!(worker.awaits_answer());
}

#[test]
fn poll_of_a_ready_worker_changes_nothing() {
    let mut worker = ready();
    assert!(matches!(worker.socket_polled(false, 20000), Startup::Proceed));
    assert_eq!(worker.state(), WorkerState::Ready);
    assert_eq!(worker.shutdown(false), StopSignal::Kill);
}

#[test]
fn no_answer_is_due_before_the_socket_or_the_process() {
    let mut worker = starting();
    assert!(!worker.awaits_answer());
    assert!(matches!(worker.socket_polled(true, 0), Startup::Proceed));
    assert!(!worker.awaits_answer());
    worker.process_started();
    assert!(worker.awaits_answer());
    assert!(!worker.accepts_requests());
}

#[test]
fn late_socket_still_lets_the_start_go_on() {
    let mut worker = running();
    assert!(matches!(worker.socket_polled(true, 60000), Startup::Proceed));
    assert_eq!(worker.state(), WorkerState::Starting);
}

#[test]
fn missing_socket_gives_socket_timeout_and_kills() {
    let mut worker = running();
    let ticket = worker.on_exit();
    assert_eq!(ticket, Some(0));
    match worker.socket_polled(false, 10000) {
        Startup::Abort(aborted) => {
            assert!(matches!(aborted.error, DenoWorkerError::SocketTimeout));
            assert!(aborted.cleanup.kill_process);
            assert!(aborted.cleanup.remove_socket);
            assert!(aborted.cleanup.notice.is_none());
        }
        _ => panic!("the start was not given up"),
    }
    assert_eq!(worker.state(), WorkerState::Exited);
    assert_eq!(worker.shutdown(true), StopSignal::Nothing);
    let ended = worker.process_exited(WaitResult::Exited(None));
    assert!(!ended.kill_process);
    assert!(ended.remove_socket);
    let notice = ended.notice.expect("the end is reported");
    assert_eq!(notice.outcome.code, None);
    assert_eq!(notice.outcome.signal, "");
    assert_eq!(notice.listeners, vec![0]);
}

#[test]
fn timeout_before_the_process_came_up_has_nothing_to_kill() {
    let mut worker = starting();
    match worker.socket_polled(false, 20000) {
        Startup::Abort(aborted) => {
            assert!(matches!(aborted.error, DenoWorkerError::SocketTimeout));
            assert!(!aborted.cleanup.kill_process);
            assert!(!aborted.cleanup.remove_socket);
            assert!(aborted.cleanup.notice.is_none());
        }
        _ => panic!("the start was not given up"),
    }
    assert_eq!(worker.state(), WorkerState::Exited);
}

#[test]
fn failed_first_request_gives_its_error_and_kills() {
    let mut worker = bound();
    let cause = DenoWorkerError::Io(std::io::Error::new(std::io::ErrorKind::BrokenPipe, "gone"));
    let aborted = worker.warmed_up(Err(cause)).unwrap_err();
    match aborted.error {
        DenoWorkerError::Io(error) => assert_eq!(error.kind(), std::io::ErrorKind::BrokenPipe),
        other => panic!("another error: {:?}", other),
    }
    assert!(aborted.cleanup.kill_process);
    assert!(aborted.cleanup.remove_socket);
    assert_eq!(worker.state(), WorkerState::Exited);
}

#[test]
fn failed_start_gives_the_io_error() {
    let mut worker = starting();
    let cause = std::io::Error::new(std::io::ErrorKind::NotFound, "no such program");
    match worker.start_failed(cause) {
        DenoWorkerError::Io(error) => assert_eq!(error.kind(), std::io::ErrorKind::NotFound),
        other => panic!("another error: {:?}", other),
    }
    assert_eq!(worker.state(), WorkerState::Exited);
    let cleanup = worker.terminate();
    assert!(!cleanup.kill_process && !cleanup.remove_socket && cleanup.notice.is_none());
}

#[test]
fn first_request_that_comes_back_after_the_process_went_leaves_exited() {
    let mut worker = bound();
    let cleanup = worker.process_exited(WaitResult::Exited(Some(1)));
    assert!(cleanup.notice.is_some());
    assert!(cleanup.remove_socket);
    assert!(worker.awaits_answer());
    assert!(worker.warmed_up(Ok(())).is_ok());
    assert_eq!(worker.state(), WorkerState::Exited);
    assert!(worker.accepts_requests());
}

#[test]
fn process_that_goes_early_still_ends_in_socket_timeout() {
    let mut worker = running();
    assert!(worker.process_exited(WaitResult::Exited(Some(1))).remove_socket);
    assert_eq!(worker.state(), WorkerState::Exited);
    assert!(matches!(worker.socket_polled(false, 5000), Startup::Sleep(20)));
    match worker.socket_polled(false, 10000) {
        Startup::Abort(aborted) => {
            assert!(matches!(aborted.error, DenoWorkerError::SocketTimeout));
            assert!(!aborted.cleanup.kill_process);
            assert!(aborted.cleanup.notice.is_none());
        }
        _ => panic!("the start was not given up"),
    }
    assert!(!worker.accepts_requests());
}

#[test]
fn failed_start_is_never_handed_out() {
    let mut worker = starting();
    assert!(matches!(worker.socket_polled(true, 0), Startup::Proceed));
    let cause = std::io::Error::new(std::io::ErrorKind::NotFound, "no such program");
    let _ = worker.start_failed(cause);
    assert_eq!(worker.state(), WorkerState::Exited);
    assert!(!worker.awaits_answer());
    assert!(!worker.accepts_requests());
    match worker.socket_polled(true, 0) {
        Startup::Abort(aborted) => {
            assert!(!aborted.cleanup.kill_process);
            assert!(!aborted.cleanup.remove_socket);
            assert!(aborted.cleanup.notice.is_none());
        }
        _ => panic!("the start was taken up again"),
    }
    assert!(!worker.awaits_answer());
    worker.process_started();
    assert_eq!(worker.state(), WorkerState::Exited);
    assert!(!worker.awaits_answer());
}

#[test]
fn socket_that_shows_after_the_timeout_changes_nothing() {
    let mut worker = running();
    assert!(matches!(worker.socket_polled(false, 10000), Startup::Abort(_)));
    assert!(!worker.awaits_answer());
    match worker.socket_polled(true, 10020) {
        Startup::Abort(aborted) => {
            assert!(matches!(aborted.error, DenoWorkerError::SocketTimeout));
            assert!(!aborted.cleanup.kill_process);
            assert!(aborted.cleanup.notice.is_none());
        }
        _ => panic!("the start was taken up again"),
    }
    assert!(!worker.awaits_answer());
    assert!(!worker.accepts_requests());
    assert_eq!(worker.state(), WorkerState::Exited);
}

#[test]
fn failed_first_request_ends_the_start_for_good() {
    let mut worker = bound();
    let cause = DenoWorkerError::SocketTimeout;
    assert!(worker.warmed_up(Err(cause)).is_err());
    assert!(!worker.awaits_answer());
    assert!(matches!(worker.socket_polled(true, 0), Startup::Abort(_)));
    assert!(!worker.awaits_answer());
    assert!(!worker.accepts_requests());
}

#[test]
fn terminate_kills_and_removes_and_leaves_the_report_to_the_wait() {
    let mut worker = ready();
    assert_eq!(worker.on_exit(), Some(0));
    assert_eq!(worker.on_exit(), Some(1));
    let cleanup = worker.terminate();
    assert!(cleanup.kill_process);
    assert!(cleanup.remove_socket);
    assert!(cleanup.notice.is_none());
    assert_eq!(worker.state(), WorkerState::Exited);

    let ended = worker.process_exited(WaitResult::Exited(None));
    assert!(!ended.kill_process);
    assert!(ended.remove_socket);
    let notice = ended.notice.expect("the end is reported");
    assert_eq!(notice.outcome.code, None);
    assert_eq!(notice.outcome.signal, "");
    assert_eq!(notice.listeners, vec![0, 1]);
}

#[test]
fn terminate_twice_is_silent_the_second_time() {
    let mut worker = ready();
    assert_eq!(worker.on_exit(), Some(0));
    let first = worker.terminate();
    assert!(first.kill_process && first.remove_socket && first.notice.is_none());
    let second = worker.terminate();
    assert!(!second.kill_process);
    assert!(!second.remove_socket);
    assert!(second.notice.is_none());
    let third = worker.terminate();
    assert!(!third.kill_process && !third.remove_socket && third.notice.is_none());
    assert_eq!(worker.state(), WorkerState::Exited);

    let ended = worker.process_exited(WaitResult::Exited(None));
    assert_eq!(ended.notice.expect("the end is reported").listeners, vec![0]);
    let again = worker.process_exited(WaitResult::Exited(None));
    assert!(!again.kill_process && !again.remove_socket && again.notice.is_none());
    let fourth = worker.terminate();
    assert!(!fourth.kill_process && !fourth.remove_socket && fourth.notice.is_none());
}

#[test]
fn natural_exit_is_reported_with_its_code() {
    let mut worker = ready();
    assert_eq!(worker.on_exit(), Some(0));
    let cleanup = worker.process_exited(WaitResult::Exited(Some(3)));
    assert!(!cleanup.kill_process);
    assert!(cleanup.remove_socket);
    let notice = cleanup.notice.expect("the end is reported");
    assert_eq!(notice.outcome.code, Some(3));
    assert_eq!(notice.outcome.signal, "");
    assert_eq!(notice.listeners, vec![0]);
    assert_eq!(worker.state(), WorkerState::Exited);
}

#[test]
fn failed_wait_is_reported_as_a_kill() {
    let mut worker = ready();
    assert_eq!(worker.on_exit(), Some(0));
    let notice = worker.process_exited(WaitResult::Failed).notice.expect("the end is reported");
    assert_eq!(notice.outcome.code, None);
    assert_eq!(notice.outcome.signal, "SIGKILL");
    assert_eq!(notice.listeners, vec![0]);
}

#[test]
fn exit_after_terminate_is_reported_once_by_the_wait() {
    let mut worker = ready();
    assert_eq!(worker.on_exit(), Some(0));
    assert!(worker.terminate().notice.is_none());
    let cleanup = worker.process_exited(WaitResult::Exited(Some(137)));
    assert!(!cleanup.kill_process);
    assert!(cleanup.remove_socket);
    let notice = cleanup.notice.expect("the end is reported");
    assert_eq!(notice.outcome.code, Some(137));
    assert_eq!(notice.listeners, vec![0]);
    let again = worker.process_exited(WaitResult::Exited(Some(137)));
    assert!(!again.kill_process && !again.remove_socket && again.notice.is_none());
}

#[test]
fn listener_between_terminate_and_the_end_still_hears() {
    let mut worker = ready();
    assert_eq!(worker.on_exit(), Some(0));
    assert!(worker.terminate().notice.is_none());
    assert_eq!(worker.on_exit(), Some(1));
    let notice = worker.process_exited(WaitResult::Exited(None)).notice.unwrap();
    assert_eq!(notice.listeners, vec![0, 1]);
    assert_eq!(worker.on_exit(), None);
}

#[test]
fn terminate_after_exit_does_nothing() {
    let mut worker = ready();
    assert!(worker.process_exited(WaitResult::Failed).notice.is_some());
    let cleanup = worker.terminate();
    assert!(!cleanup.kill_process && !cleanup.remove_socket && cleanup.notice.is_none());
}

#[test]
fn late_listener_hears_nothing() {
    let mut worker = ready();
    assert_eq!(worker.on_exit(), Some(0));
    let cleanup = worker.process_exited(WaitResult::Exited(Some(0)));
    assert_eq!(cleanup.notice.unwrap().listeners, vec![0]);
    assert_eq!(worker.on_exit(), None);
    assert!(worker.terminate().notice.is_none());
    assert!(worker.process_exited(WaitResult::Exited(Some(0))).notice.is_none());
}

#[test]
fn report_without_listeners_names_nobody() {
    let mut worker = ready();
    let notice = worker.process_exited(WaitResult::Exited(Some(0))).notice.unwrap();
    assert!(notice.listeners.is_empty());
}

#[test]
fn end_of_a_wait_without_a_process_reports_nothing() {
    let mut worker = starting();
    assert_eq!(worker.on_exit(), Some(0));
    let cleanup = worker.process_exited(WaitResult::Exited(Some(0)));
    assert!(!cleanup.kill_process && !cleanup.remove_socket && cleanup.notice.is_none());
    assert_eq!(worker.state(), WorkerState::Starting);
}

#[test]
fn shutdown_picks_the_signal() {
    let worker = starting();
    assert_eq!(worker.shutdown(true), StopSignal::Nothing);
    assert_eq!(worker.shutdown(false), StopSignal::Nothing);
    let mut worker = ready();
    assert_eq!(worker.shutdown(true), StopSignal::Interrupt);
    assert_eq!(worker.shutdown(false), StopSignal::Kill);
    assert_eq!(worker.state(), WorkerState::Ready);
    let _ = worker.terminate();
    assert_eq!(worker.shutdown(true), StopSignal::Nothing);
    assert_eq!(worker.shutdown(false), StopSignal::Nothing);
}

#[test]
fn second_start_of_the_process_changes_nothing() {
    let mut worker = ready();
    worker.process_started();
    assert_eq!(worker.state(), WorkerState::Ready);
    let _ = worker.terminate();
    worker.process_started();
    assert_eq!(worker.state(), WorkerState::Exited);
    assert_eq!(worker.shutdown(false), StopSignal::Nothing);
}

#[test]
fn exit_is_classified() {
    let ended = classify_exit(WaitResult::Exited(Some(0)));
    assert_eq!(ended.code, Some(0));
    assert_eq!(ended.signal, "");
    let ended = classify_exit(WaitResult::Exited(Some(-7)));
    assert_eq!(ended.code, Some(-7));
    assert_eq!(ended.signal, "");
    let by_signal = classify_exit(WaitResult::Exited(None));
    assert_eq!(by_signal.code, None);
    assert_eq!(by_signal.signal, "");
    let failed = classify_exit(WaitResult::Failed);
    assert_eq!(failed.code, None);
    assert_eq!(failed.signal, "SIGKILL");
}

#[test]
fn output_lines_are_marked() {
    assert_eq!(marked_line("listening\n"), "[deno] listening\n");
    assert_eq!(marked_line(""), "[deno] ");
}
