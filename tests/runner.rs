use ekka_node::runner::{
    excerpt, heartbeat_result, backoff_secs, completion_output, is_token_expired_error, new_runner_id, poll_url,
    runner_id_from, security_headers, task_url, CallStep, LoopAction, PollOutcome, RemoteCall,
    RunnerLoop, TaskAction, TaskEvent, EngineTaskInfo, TaskRun, TaskStage, TaskStep,
};

fn task(capability: &str) -> EngineTaskInfo {
    EngineTaskInfo {
        id: "t-1".to_string(),
        run_id: "r-1".to_string(),
        capability_identity: capability.to_string(),
        target_type: Some("runner_desktop".to_string()),
    }
}

#[test]
fn backoff_values() {
    let got: Vec<u64> = (0..10).map(backoff_secs).collect();
    assert_eq!(got, vec![5, 5, 5, 5, 10, 20, 40, 60, 60, 60]);
    assert_eq!(backoff_secs(1000), 60);
    assert_eq!(backoff_secs(u32::MAX), 60);
}

#[test]
fn backoff_grows_then_resets() {
    let mut l = RunnerLoop::new();
    let mut last = LoopAction::Stop;
    for _ in 0..4 {
        last = l.after_poll(PollOutcome::Failed);
    }
    match last {
        LoopAction::Backoff(secs) => assert!(secs > 5 && secs <= 60),
        other => panic!("unexpected {:?}", other),
    }
    assert_eq!(l.consecutive_errors, 4);
    assert_eq!(l.after_poll(PollOutcome::Tasks(0)), LoopAction::Idle(5));
    assert_eq!(l.consecutive_errors, 0);
    assert_eq!(l.after_poll(PollOutcome::Failed), LoopAction::Backoff(5));
    assert_eq!(l.after_poll(PollOutcome::Tasks(3)), LoopAction::ProcessTasks(1));
}

#[test]
fn shutdown_is_sticky() {
    let mut l = RunnerLoop::new();
    assert!(l.check_shutdown(false));
    assert!(!l.check_shutdown(true));
    assert!(!l.check_shutdown(false));
}

#[test]
fn recovery_after_one_unauthorized() {
    let mut call = RemoteCall::new();
    assert_eq!(call.on_response(401, ""), CallStep::Reauthenticate);
    assert_eq!(call.on_response(200, "{}"), CallStep::Succeeded);
    assert_eq!(call.reauths, 1);
}

#[test]
fn second_unauthorized_is_final() {
    let mut call = RemoteCall::new();
    assert_eq!(call.on_response(401, ""), CallStep::Reauthenticate);
    assert_eq!(call.on_response(401, ""), CallStep::Failed);
    assert_eq!(call.reauths, 1);
    let mut other = RemoteCall::new();
    assert_eq!(other.on_response(500, "boom"), CallStep::Failed);
    assert_eq!(other.reauths, 0);
    let mut expired = RemoteCall::new();
    assert_eq!(expired.on_response(400, "error: jwt expired"), CallStep::Reauthenticate);
    expired.on_reauth_failed();
    assert!(expired.finished);
}

#[test]
fn token_expiry_markers() {
    assert!(is_token_expired_error(401, ""));
    assert!(is_token_expired_error(500, "Token expired at noon"));
    assert!(is_token_expired_error(403, "the token expired"));
    assert!(is_token_expired_error(400, "invalid token"));
    assert!(!is_token_expired_error(403, "forbidden"));
    assert!(!is_token_expired_error(500, "Token Expired"));
}

#[test]
fn subtype_mapping() {
    assert_eq!(task("ekka.prompt.run.v1").task_subtype(), "prompt_run");
    assert_eq!(task("ekka.node_exec.v1").task_subtype(), "node_exec");
    assert_eq!(task("ekka.other.v2").task_subtype(), "ekka.other.v2");
}

#[test]
fn completion_decisions() {
    let ok = completion_output(true, Some("ignored"));
    assert_eq!(ok.decision, "ACCEPT");
    assert_eq!(ok.reason, "Task executed successfully");
    let bad = completion_output(false, Some("TIMEOUT"));
    assert_eq!(bad.decision, "REJECT");
    assert_eq!(bad.reason, "Task failed: TIMEOUT");
    assert_eq!(completion_output(false, None).reason, "Task failed: UNKNOWN");
}

#[test]
fn urls() {
    assert_eq!(
        poll_url("https://e.example", "t", "w"),
        "https://e.example/engine/runner-tasks-v2?target_type=runner_desktop&status=pending&limit=10&tenant_id=t&workspace_id=w"
    );
    assert_eq!(
        task_url("https://e.example", "abc", TaskAction::Claim, "t", "w"),
        "https://e.example/engine/runner-tasks-v2/abc/claim?tenant_id=t&workspace_id=w"
    );
    assert_eq!(
        task_url("u", "x", TaskAction::Heartbeat, "t", "w"),
        "u/engine/runner-tasks-v2/x/heartbeat?tenant_id=t&workspace_id=w"
    );
}

#[test]
fn runner_ids() {
    assert_eq!(
        runner_id_from("1234abcd-0000-0000-0000-000000000000"),
        "ekka-node-runner-1234abcd"
    );
    let a = new_runner_id().unwrap();
    let b = new_runner_id().unwrap();
    assert!(a.starts_with("ekka-node-runner-"));
    assert_eq!(a.len(), "ekka-node-runner-".len() + 8);
    assert_ne!(a, b);
}

#[test]
fn header_envelope() {
    let h = security_headers("tok", "req", "cor", "ekka-desktop", "node", "poll");
    assert_eq!(h.len(), 9);
    assert_eq!(h[0], ("Authorization".to_string(), "Bearer tok".to_string()));
    assert_eq!(h[1], ("X-EKKA-PROOF-TYPE".to_string(), "node_session".to_string()));
    assert_eq!(h[7], ("X-EKKA-NODE-ID".to_string(), "node".to_string()));
    assert_eq!(h[8], ("X-EKKA-ACTION".to_string(), "poll".to_string()));
}

#[test]
fn task_flow_success() {
    let mut run = TaskRun::new();
    assert_eq!(run.on_event(TaskEvent::ClaimSucceeded), TaskStep::FetchSession);
    assert_eq!(run.on_event(TaskEvent::SessionReady), TaskStep::Dispatch);
    assert_eq!(
        run.on_event(TaskEvent::Executed { success: false }),
        TaskStep::SendComplete { success: false }
    );
    assert_eq!(
        run.on_event(TaskEvent::Acknowledged { ok: true }),
        TaskStep::Finish { completed: true }
    );
    assert_eq!(run.stage, TaskStage::Done);
}

#[test]
fn task_flow_failures() {
    let mut run = TaskRun::new();
    assert_eq!(run.on_event(TaskEvent::ClaimFailed), TaskStep::Finish { completed: false });
    let mut run = TaskRun::new();
    run.on_event(TaskEvent::ClaimSucceeded);
    assert_eq!(
        run.on_event(TaskEvent::SessionFailed),
        TaskStep::SendFail { session_error: true, retryable: true }
    );
    assert_eq!(
        run.on_event(TaskEvent::Acknowledged { ok: true }),
        TaskStep::Finish { completed: false }
    );
    let mut run = TaskRun::new();
    run.on_event(TaskEvent::ClaimSucceeded);
    run.on_event(TaskEvent::SessionReady);
    assert_eq!(
        run.on_event(TaskEvent::ExecutionFailed { retryable: false }),
        TaskStep::SendFail { session_error: false, retryable: false }
    );
    let mut run = TaskRun::new();
    run.on_event(TaskEvent::ClaimSucceeded);
    run.on_event(TaskEvent::SessionReady);
    run.on_event(TaskEvent::Executed { success: true });
    assert_eq!(
        run.on_event(TaskEvent::Acknowledged { ok: false }),
        TaskStep::Finish { completed: false }
    );
}

#[test]
fn heartbeat_outcomes() {
    assert!(heartbeat_result(200, "").is_ok());
    assert!(heartbeat_result(204, "ignored").is_ok());
    let refused = heartbeat_result(503, "busy").unwrap_err();
    assert_eq!(refused.status, 503);
    assert_eq!(refused.body, "busy");
    let long = "z".repeat(250);
    assert_eq!(heartbeat_result(500, &long).unwrap_err().body, format!("{}...", "z".repeat(200)));
}

#[test]
fn body_excerpts() {
    assert_eq!(excerpt("abcdef", 3), "abc");
    assert_eq!(excerpt("ab", 3), "ab");
    assert_eq!(excerpt(&"é".repeat(150), 100), "é".repeat(100));
}
