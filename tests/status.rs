use ekka_node::status::{sanitize_error, NodeRunnerCallback, RunnerLoopState, RunnerStatus};

#[test]
fn sanitize_redacts_path_lines() {
    assert_eq!(
        sanitize_error("open failed\n/home/alice/.ekka/vault\nretrying"),
        "open failed [path redacted] retrying"
    );
    assert_eq!(sanitize_error("see /tmp/x"), "[path redacted]");
    assert_eq!(sanitize_error("a/b c"), "a/b c");
    assert_eq!(sanitize_error("one\n"), "one");
    assert_eq!(sanitize_error("a\n\nb"), "a  b");
    assert_eq!(sanitize_error(""), "");
}

#[test]
fn sanitize_truncates() {
    let long = "x".repeat(250);
    let s = sanitize_error(&long);
    assert_eq!(s, format!("{}...", "x".repeat(200)));
    assert_eq!(sanitize_error(&"y".repeat(200)), "y".repeat(200));
}

#[test]
fn status_transitions() {
    let mut s = RunnerStatus::new(Some("https://e".to_string()));
    assert!(!s.enabled);
    assert_eq!(s.state, RunnerLoopState::Stopped);
    s.on_start("runner-1");
    assert!(s.enabled);
    assert_eq!(s.state, RunnerLoopState::Running);
    assert_eq!(s.runner_id.as_deref(), Some("runner-1"));
    assert_eq!(s.engine_url.as_deref(), Some("https://e"));
    s.on_poll(10);
    assert_eq!(s.last_poll_at_ms, Some(10));
    s.on_claim("task-a", 11);
    assert_eq!(s.last_claim_at_ms, Some(11));
    assert_eq!(s.last_task_id.as_deref(), Some("task-a"));
    s.on_error("failed at /home/u/x");
    assert_eq!(s.state, RunnerLoopState::Error);
    assert_eq!(s.last_error.as_deref(), Some("[path redacted]"));
    s.on_complete("task-b", 12);
    assert_eq!(s.last_complete_at_ms, Some(12));
    assert_eq!(s.last_task_id.as_deref(), Some("task-b"));
    s.on_poll(13);
    assert_eq!(s.state, RunnerLoopState::Running);
    s.on_stop();
    assert_eq!(s.state, RunnerLoopState::Stopped);
    s.start("runner-2", None);
    assert_eq!(s.last_error, None);
}
