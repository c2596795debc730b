use stt_runtime::supervisor::{health_url, observed_status, start_failure_detail, ExitPoll, LogTail, RuntimeStatus};

#[test]
fn status_detects_external_process_exit_as_crashed() {
    assert_eq!(observed_status(RuntimeStatus::Running, ExitPoll::Exited), RuntimeStatus::Crashed);
    assert_eq!(observed_status(RuntimeStatus::Degraded, ExitPoll::PollFailed), RuntimeStatus::Crashed);
    assert_eq!(observed_status(RuntimeStatus::Running, ExitPoll::StillRunning), RuntimeStatus::Running);
    assert_eq!(observed_status(RuntimeStatus::Stopped, ExitPoll::Exited), RuntimeStatus::Stopped);
}

#[test]
fn log_tail_keeps_the_last_two_hundred_lines() {
    let mut tail = LogTail::new();
    for i in 0..250 {
        tail.push(format!("line {i}"));
    }
    let all = tail.tail(1000);
    assert_eq!(all.len(), 200);
    assert_eq!(all[0], "line 50");
    assert_eq!(all[199], "line 249");
    assert_eq!(tail.tail(2), vec!["line 248".to_string(), "line 249".to_string()]);
    assert!(tail.tail(0).is_empty());
}

#[test]
fn spawn_fails_with_logs_when_health_check_never_succeeds() {
    let mut tail = LogTail::new();
    tail.push("booting".to_string());
    tail.push("boom".to_string());
    assert_eq!(
        start_failure_detail("runtime did not become healthy", &tail),
        "runtime did not become healthy; last logs:\nbooting\nboom"
    );
    assert_eq!(health_url(5123, "/health"), "http://127.0.0.1:5123/health");
}
