//! Decisions of the node session runner: what to do after each poll, how a
//! remote call recovers from an expired session, how long to wait, and what
//! is reported to the engine for each task.

use vstd::prelude::*;
use vstd::string::*;
use crate::ids::new_request_id;
use crate::text::{contains_seq, str_contains};

verus! {

/// Seconds between polls when the engine has nothing pending.
pub const POLL_INTERVAL_SECS: u64 = 5;
/// Seconds paused after a processed batch.
pub const PAUSE_AFTER_ROUND_SECS: u64 = 1;
/// Largest number of tasks asked for in one poll.
pub const MAX_POLL_LIMIT: u32 = 10;
/// Consecutive poll failures tolerated before the wait starts to grow.
pub const MAX_CONSECUTIVE_ERRORS: u32 = 3;
/// Upper bound of the wait between polls, in seconds.
pub const MAX_BACKOFF_SECS: u64 = 60;

/// 2 to the power `n`.
pub open spec fn pow2(n: nat) -> nat
    decreases n,
{
    if n == 0 {
        1
    } else {
        2 * pow2((n - 1) as nat)
    }
}

/// Seconds to wait after a failed poll, once `errors` polls in a row have failed.
pub open spec fn backoff_spec(errors: nat) -> nat {
    if errors >= MAX_CONSECUTIVE_ERRORS {
        let grown = (POLL_INTERVAL_SECS * pow2((errors - MAX_CONSECUTIVE_ERRORS) as nat)) as nat;
        if grown < MAX_BACKOFF_SECS {
            grown
        } else {
            MAX_BACKOFF_SECS as nat
        }
    } else {
        POLL_INTERVAL_SECS as nat
    }
}

proof fn lemma_pow2_at_least(n: nat, m: nat)
    requires
        m <= n,
    ensures
        pow2(m) <= pow2(n),
    decreases n,
{
    if n > m {
        lemma_pow2_at_least((n - 1) as nat, m);
    }
}

/// Seconds to wait before the next poll after `consecutive_errors` failed polls in a row.
pub fn backoff_secs(consecutive_errors: u32) -> (r: u64)
    ensures
        r == backoff_spec(consecutive_errors as nat),
{
    if consecutive_errors < MAX_CONSECUTIVE_ERRORS {
        return POLL_INTERVAL_SECS;
    }
    let e = consecutive_errors - MAX_CONSECUTIVE_ERRORS;
    if e >= 4 {
        proof {
            lemma_pow2_at_least(e as nat, 4);
            reveal_with_fuel(pow2, 5);
        }
        return MAX_BACKOFF_SECS;
    }
    proof {
        reveal_with_fuel(pow2, 5);
    }
    let mut grown: u64 = POLL_INTERVAL_SECS;
    let mut k: u32 = 0;
    while k < e
        invariant
            e < 4,
            k <= e,
            grown == POLL_INTERVAL_SECS * pow2(k as nat),
            grown <= 40,
        decreases e - k,
    {
        proof {
            reveal_with_fuel(pow2, 5);
        }
        grown = grown * 2;
        k = k + 1;
    }
    if grown < MAX_BACKOFF_SECS {
        grown
    } else {
        MAX_BACKOFF_SECS
    }
}

/// What a poll of the engine came back with.
pub enum PollOutcome {
    /// The poll succeeded with this many pending tasks.
    Tasks(usize),
    /// The poll failed (transport, status or session error).
    Failed,
}

/// What the loop does next.
#[derive(Debug, PartialEq, Eq, Structural)]
pub enum LoopAction {
    /// Shutdown was observed: leave the loop.
    Stop,
    /// Nothing to do: wait this many seconds (or until shutdown), then poll again.
    Idle(u64),
    /// Process the polled tasks one by one, checking shutdown before each,
    /// then pause this many seconds.
    ProcessTasks(u64),
    /// The poll failed: wait this many seconds (at most the cap), then poll again.
    Backoff(u64),
}

/// The loop's memory between polls.
pub struct RunnerLoop {
    pub consecutive_errors: u32,
    pub stopped: bool,
}

/// Error count after one more poll with the given outcome.
pub open spec fn next_errors(errors: nat, failed: bool) -> nat {
    if failed {
        if errors < u32::MAX {
            errors + 1
        } else {
            errors
        }
    } else {
        0
    }
}

/// Action that follows a poll, given the error count after it.
pub open spec fn action_after_poll(errors_after: nat, outcome: PollOutcome) -> LoopAction {
    match outcome {
        PollOutcome::Tasks(n) => if n == 0 {
            LoopAction::Idle(POLL_INTERVAL_SECS)
        } else {
            LoopAction::ProcessTasks(PAUSE_AFTER_ROUND_SECS)
        },
        PollOutcome::Failed => LoopAction::Backoff(backoff_spec(errors_after) as u64),
    }
}

impl RunnerLoop {
    /// A loop that has not polled yet.
    pub fn new() -> (r: Self)
        ensures
            r.consecutive_errors == 0,
            !r.stopped,
    {
        RunnerLoop { consecutive_errors: 0, stopped: false }
    }

    /// Checked before each poll, between polls and before each task: once the
    /// shutdown signal is seen the loop stops for good.
    pub fn check_shutdown(&mut self, shutdown: bool) -> (keep_going: bool)
        ensures
            final(self).stopped == (old(self).stopped || shutdown),
            final(self).consecutive_errors == old(self).consecutive_errors,
            keep_going == !final(self).stopped,
    {
        if shutdown {
            self.stopped = true;
        }
        !self.stopped
    }

    /// Records the outcome of a poll and says what comes next. A success resets
    /// the failure count; a failure adds one and waits per the backoff policy.
    pub fn after_poll(&mut self, outcome: PollOutcome) -> (action: LoopAction)
        requires
            !old(self).stopped,
        ensures
            final(self).consecutive_errors == next_errors(
                old(self).consecutive_errors as nat,
                outcome is Failed,
            ),
            !final(self).stopped,
            action == action_after_poll(final(self).consecutive_errors as nat, outcome),
    {
        match outcome {
            PollOutcome::Tasks(n) => {
                self.consecutive_errors = 0;
                if n == 0 {
                    LoopAction::Idle(POLL_INTERVAL_SECS)
                } else {
                    LoopAction::ProcessTasks(PAUSE_AFTER_ROUND_SECS)
                }
            },
            PollOutcome::Failed => {
                if self.consecutive_errors < u32::MAX {
                    self.consecutive_errors = self.consecutive_errors + 1;
                }
                LoopAction::Backoff(backoff_secs(self.consecutive_errors))
            },
        }
    }
}

/// Whether a failed response says that the session token is no longer accepted:
/// status 401, or a body that names an expired or invalid token.
pub open spec fn token_expired_spec(status: u16, body: Seq<char>) -> bool {
    status == 401 || contains_seq(body, "Token expired"@) || contains_seq(body, "token expired"@)
        || contains_seq(body, "jwt expired"@) || contains_seq(body, "invalid token"@)
}

/// Whether a failed response calls for a fresh session and one retry.
pub fn is_token_expired_error(status: u16, body: &str) -> (r: bool)
    ensures
        r == token_expired_spec(status, body@),
{
    status == 401 || str_contains(body, "Token expired") || str_contains(body, "token expired")
        || str_contains(body, "jwt expired") || str_contains(body, "invalid token")
}

/// Whether an HTTP status is a success (2xx).
pub open spec fn is_success_spec(status: u16) -> bool {
    200 <= status < 300
}

/// The next step of one remote call (poll, claim, complete or fail).
#[derive(Debug, PartialEq, Eq, Structural)]
pub enum CallStep {
    /// The engine accepted the call.
    Succeeded,
    /// Clear the cached session, authenticate afresh, and send the call again.
    Reauthenticate,
    /// The call failed for good.
    Failed,
}

/// One remote call with its single recovery from an expired session.
pub struct RemoteCall {
    /// 0 on the first attempt, 1 on the retry.
    pub attempt: u8,
    /// How many fresh authentications this call asked for.
    pub reauths: u8,
    pub finished: bool,
}

/// Step taken on a response, from the attempt it answers.
pub open spec fn call_step_spec(attempt: u8, status: u16, body: Seq<char>) -> CallStep {
    if is_success_spec(status) {
        CallStep::Succeeded
    } else if attempt == 0 && token_expired_spec(status, body) {
        CallStep::Reauthenticate
    } else {
        CallStep::Failed
    }
}

impl RemoteCall {
    /// A call about to make its first attempt.
    pub fn new() -> (r: Self)
        ensures
            r.attempt == 0,
            r.reauths == 0,
            !r.finished,
    {
        RemoteCall { attempt: 0, reauths: 0, finished: false }
    }

    /// Records the engine's response to the current attempt. The first response
    /// that reports an expired session asks for one fresh authentication and a
    /// retry; any other failure, or a second such response, ends the call.
    pub fn on_response(&mut self, status: u16, body: &str) -> (step: CallStep)
        requires
            !old(self).finished,
            old(self).attempt <= 1,
            old(self).reauths == old(self).attempt,
        ensures
            step == call_step_spec(old(self).attempt, status, body@),
            step is Reauthenticate ==> final(self).attempt == 1 && final(self).reauths == 1
                && !final(self).finished,
            !(step is Reauthenticate) ==> final(self).attempt == old(self).attempt
                && final(self).reauths == old(self).reauths && final(self).finished,
            final(self).reauths == final(self).attempt,
    {
        if 200 <= status && status < 300 {
            self.finished = true;
            CallStep::Succeeded
        } else if self.attempt == 0 && is_token_expired_error(status, body) {
            self.attempt = 1;
            self.reauths = 1;
            CallStep::Reauthenticate
        } else {
            self.finished = true;
            CallStep::Failed
        }
    }

    /// Records that the fresh authentication asked for could not be had: the call fails.
    pub fn on_reauth_failed(&mut self)
        ensures
            final(self).finished,
            final(self).attempt == old(self).attempt,
            final(self).reauths == old(self).reauths,
    {
        self.finished = true;
    }
}

/// Prefix of every runner id.
pub const RUNNER_ID_PREFIX: &'static str = "ekka-node-runner";

/// A pending task as the engine lists it.
pub struct EngineTaskInfo {
    pub id: String,
    pub run_id: String,
    /// Capability identity, such as `ekka.prompt.run.v1`.
    pub capability_identity: String,
    pub target_type: Option<String>,
}

/// The executor task type that a capability identity maps to.
pub open spec fn task_subtype_spec(capability: Seq<char>) -> Seq<char> {
    if contains_seq(capability, "prompt"@) {
        "prompt_run"@
    } else if contains_seq(capability, "node_exec"@) {
        "node_exec"@
    } else {
        capability
    }
}

impl EngineTaskInfo {
    /// The executor type of this work item: capabilities naming `prompt` run as
    /// `prompt_run`, node execution as `node_exec`, anything else as named.
    pub fn task_subtype(&self) -> (r: String)
        ensures
            r@ == task_subtype_spec(self.capability_identity@),
    {
        if str_contains(self.capability_identity.as_str(), "prompt") {
            String::from_str("prompt_run")
        } else if str_contains(self.capability_identity.as_str(), "node_exec") {
            String::from_str("node_exec")
        } else {
            self.capability_identity.clone()
        }
    }
}

/// Decision and reason reported when the executor returned an output envelope.
pub struct EngineCompleteOutput {
    pub decision: String,
    pub reason: String,
}

/// The reason reported for an envelope whose own success flag is false.
pub open spec fn reject_reason_spec(failure_code: Option<Seq<char>>) -> Seq<char> {
    "Task failed: "@ + match failure_code {
        Some(c) => c,
        None => "UNKNOWN"@,
    }
}

/// Decision and reason for a task whose executor returned an envelope:
/// `ACCEPT` when the envelope reports success, otherwise `REJECT` naming its
/// failure code.
pub fn completion_output(success: bool, failure_code: Option<&str>) -> (r: EngineCompleteOutput)
    ensures
        success ==> r.decision@ == "ACCEPT"@ && r.reason@ == "Task executed successfully"@,
        !success ==> r.decision@ == "REJECT"@ && r.reason@ == reject_reason_spec(
            match failure_code {
                Some(c) => Some(c@),
                None => None,
            },
        ),
{
    if success {
        EngineCompleteOutput {
            decision: String::from_str("ACCEPT"),
            reason: String::from_str("Task executed successfully"),
        }
    } else {
        let mut reason = String::from_str("Task failed: ");
        match failure_code {
            Some(c) => reason.append(c),
            None => reason.append("UNKNOWN"),
        }
        EngineCompleteOutput { decision: String::from_str("REJECT"), reason }
    }
}

/// A per-task endpoint of the engine.
#[derive(Debug, Clone, Copy, PartialEq, Eq, Structural)]
pub enum TaskAction {
    Claim,
    Heartbeat,
    Complete,
    Fail,
}

/// The path segment of a per-task endpoint.
pub open spec fn action_segment_spec(action: TaskAction) -> Seq<char> {
    match action {
        TaskAction::Claim => "claim"@,
        TaskAction::Heartbeat => "heartbeat"@,
        TaskAction::Complete => "complete"@,
        TaskAction::Fail => "fail"@,
    }
}

impl TaskAction {
    /// The path segment of this endpoint.
    pub fn segment(&self) -> (r: &'static str)
        ensures
            r@ == action_segment_spec(*self),
    {
        match self {
            TaskAction::Claim => "claim",
            TaskAction::Heartbeat => "heartbeat",
            TaskAction::Complete => "complete",
            TaskAction::Fail => "fail",
        }
    }
}

/// URL that lists pending desktop-runner tasks of the session's tenant and workspace.
pub fn poll_url(engine_url: &str, tenant_id: &str, workspace_id: &str) -> (r: String)
    ensures
        r@ == engine_url@ + "/engine/runner-tasks-v2?target_type=runner_desktop&status=pending&limit=10&tenant_id="@
            + tenant_id@ + "&workspace_id="@ + workspace_id@,
{
    let mut url = String::from_str(engine_url);
    url.append("/engine/runner-tasks-v2?target_type=runner_desktop&status=pending&limit=10&tenant_id=");
    url.append(tenant_id);
    url.append("&workspace_id=");
    url.append(workspace_id);
    url
}

/// URL of a per-task endpoint (claim, heartbeat, complete, fail).
pub fn task_url(
    engine_url: &str,
    task_id: &str,
    action: TaskAction,
    tenant_id: &str,
    workspace_id: &str,
) -> (r: String)
    ensures
        r@ == engine_url@ + "/engine/runner-tasks-v2/"@ + task_id@ + "/"@ + action_segment_spec(
            action,
        ) + "?tenant_id="@ + tenant_id@ + "&workspace_id="@ + workspace_id@,
{
    let mut url = String::from_str(engine_url);
    url.append("/engine/runner-tasks-v2/");
    url.append(task_id);
    url.append("/");
    url.append(action.segment());
    url.append("?tenant_id=");
    url.append(tenant_id);
    url.append("&workspace_id=");
    url.append(workspace_id);
    url
}

/// Runner id made from a fresh UUID text: the prefix, a dash, and the UUID's first eight characters.
pub fn runner_id_from(uuid_text: &str) -> (r: String)
    requires
        uuid_text@.len() >= 8,
    ensures
        r@ == RUNNER_ID_PREFIX@ + "-"@ + uuid_text@.subrange(0, 8),
{
    let mut id = String::from_str(RUNNER_ID_PREFIX);
    id.append("-");
    id.append(uuid_text.substring_char(0, 8));
    id
}

/// A call whose first response reports an expired session and whose retry
/// succeeds ends in success after one fresh authentication, and a retry can
/// never ask for a second one.
pub proof fn lemma_single_reauth_recovery(
    first_body: Seq<char>,
    second_status: u16,
    second_body: Seq<char>,
)
    requires
        is_success_spec(second_status),
    ensures
        call_step_spec(0, 401, first_body) == CallStep::Reauthenticate,
        call_step_spec(1, second_status, second_body) == CallStep::Succeeded,
        forall|status: u16, body: Seq<char>|
            call_step_spec(1, status, body) != CallStep::Reauthenticate,
{
}

/// After four or more failed polls in a row the wait is longer than the base
/// interval and at most the cap; after a successful poll the next wait is the
/// base interval again, whether that poll was empty or the next one fails.
pub proof fn lemma_backoff_growth_and_reset(errors: nat)
    requires
        4 <= errors <= u32::MAX,
    ensures
        backoff_spec(errors) > POLL_INTERVAL_SECS,
        backoff_spec(errors) <= MAX_BACKOFF_SECS,
        action_after_poll(next_errors(errors, false), PollOutcome::Tasks(0)) == LoopAction::Idle(
            POLL_INTERVAL_SECS,
        ),
        action_after_poll(next_errors(next_errors(errors, false), true), PollOutcome::Failed)
            == LoopAction::Backoff(POLL_INTERVAL_SECS),
{
    lemma_pow2_at_least((errors - MAX_CONSECUTIVE_ERRORS) as nat, 1);
    reveal_with_fuel(pow2, 2);
}

/// The view of a list of headers.
pub open spec fn headers_view(h: Seq<(String, String)>) -> Seq<(Seq<char>, Seq<char>)> {
    h.map_values(|p: (String, String)| (p.0@, p.1@))
}

/// The header envelope that every runner call to the engine carries.
pub open spec fn security_headers_spec(
    token: Seq<char>,
    request_id: Seq<char>,
    correlation_id: Seq<char>,
    client: Seq<char>,
    node_id: Seq<char>,
    action: Seq<char>,
) -> Seq<(Seq<char>, Seq<char>)> {
    seq![
        ("Authorization"@, "Bearer "@ + token),
        ("X-EKKA-PROOF-TYPE"@, "node_session"@),
        ("X-REQUEST-ID"@, request_id),
        ("X-EKKA-CORRELATION-ID"@, correlation_id),
        ("X-EKKA-MODULE"@, "engine.runner_tasks"@),
        ("X-EKKA-CLIENT"@, client),
        ("X-EKKA-CLIENT-VERSION"@, "0.2.0"@),
        ("X-EKKA-NODE-ID"@, node_id),
        ("X-EKKA-ACTION"@, action),
    ]
}

fn header(name: &str, value: String) -> (r: (String, String))
    ensures
        r.0@ == name@,
        r.1@ == value@,
{
    (String::from_str(name), value)
}

/// The headers of a runner call: the session token as bearer, the proof type,
/// request and correlation ids, the module, client name and version, the node
/// id and the action.
pub fn security_headers(
    token: &str,
    request_id: &str,
    correlation_id: &str,
    client: &str,
    node_id: &str,
    action: &str,
) -> (r: Vec<(String, String)>)
    ensures
        headers_view(r@) == security_headers_spec(
            token@,
            request_id@,
            correlation_id@,
            client@,
            node_id@,
            action@,
        ),
{
    let mut h: Vec<(String, String)> = Vec::new();
    h.push(header("Authorization", String::from_str("Bearer ").concat(token)));
    h.push(header("X-EKKA-PROOF-TYPE", String::from_str("node_session")));
    h.push(header("X-REQUEST-ID", String::from_str(request_id)));
    h.push(header("X-EKKA-CORRELATION-ID", String::from_str(correlation_id)));
    h.push(header("X-EKKA-MODULE", String::from_str("engine.runner_tasks")));
    h.push(header("X-EKKA-CLIENT", String::from_str(client)));
    h.push(header("X-EKKA-CLIENT-VERSION", String::from_str("0.2.0")));
    h.push(header("X-EKKA-NODE-ID", String::from_str(node_id)));
    h.push(header("X-EKKA-ACTION", String::from_str(action)));
    assert(headers_view(h@) =~= security_headers_spec(
        token@,
        request_id@,
        correlation_id@,
        client@,
        node_id@,
        action@,
    ));
    h
}

/// A fresh runner id: the prefix, a dash, and eight characters of a random
/// UUID; `None` when the operating system's generator fails.
pub fn new_runner_id() -> (r: Option<String>)
    ensures
        r matches Some(id) ==> id@.len() == RUNNER_ID_PREFIX@.len() + 9 && id@.subrange(
            0,
            RUNNER_ID_PREFIX@.len() as int,
        ) == RUNNER_ID_PREFIX@,
{
    let u = match new_request_id() {
        Some(u) => u,
        None => {
            return None;
        },
    };
    let r = runner_id_from(u.as_str());
    proof {
        reveal_strlit("-");
    }
    assert(r@.subrange(0, RUNNER_ID_PREFIX@.len() as int) =~= RUNNER_ID_PREFIX@);
    Some(r)
}

/// Where the processing of one polled task stands.
#[derive(Debug, Clone, Copy, PartialEq, Eq, Structural)]
pub enum TaskStage {
    /// The claim has been sent.
    Claiming,
    /// Claimed; the session for the executor is being fetched.
    Preparing,
    /// Handed to the executor.
    Executing,
    /// The completion has been sent.
    Completing,
    /// The failure has been sent.
    Failing,
    /// The engine has been answered; processing has ended.
    Done,
}

/// What happened to the current step of a task.
#[derive(Debug, Clone, Copy, PartialEq, Eq, Structural)]
pub enum TaskEvent {
    ClaimSucceeded,
    ClaimFailed,
    SessionReady,
    SessionFailed,
    /// The executor returned an envelope; `success` is the envelope's own flag.
    Executed { success: bool },
    /// The executor returned an error, classified as `retryable` or not.
    ExecutionFailed { retryable: bool },
    /// The engine acknowledged (or refused) the completion or failure sent.
    Acknowledged { ok: bool },
}

/// What the runner does next for a task.
#[derive(Debug, Clone, Copy, PartialEq, Eq, Structural)]
pub enum TaskStep {
    /// Report the claim and fetch a valid session.
    FetchSession,
    /// Hand the task to the executor.
    Dispatch,
    /// Send a completion whose decision follows the envelope's success flag.
    SendComplete { success: bool },
    /// Send a failure; a session failure is sent as retryable.
    SendFail { session_error: bool, retryable: bool },
    /// Stop working on the task, reporting a completion or an error.
    Finish { completed: bool },
}

/// Whether an event can answer the step taken in a stage.
pub open spec fn event_fits(stage: TaskStage, event: TaskEvent) -> bool {
    match stage {
        TaskStage::Claiming => event is ClaimSucceeded || event is ClaimFailed,
        TaskStage::Preparing => event is SessionReady || event is SessionFailed,
        TaskStage::Executing => event is Executed || event is ExecutionFailed,
        TaskStage::Completing | TaskStage::Failing => event is Acknowledged,
        TaskStage::Done => false,
    }
}

/// The stage and step that follow an event.
pub open spec fn task_next(stage: TaskStage, event: TaskEvent) -> (TaskStage, TaskStep) {
    match event {
        TaskEvent::ClaimSucceeded => (TaskStage::Preparing, TaskStep::FetchSession),
        TaskEvent::ClaimFailed => (TaskStage::Done, TaskStep::Finish { completed: false }),
        TaskEvent::SessionReady => (TaskStage::Executing, TaskStep::Dispatch),
        TaskEvent::SessionFailed => (
            TaskStage::Failing,
            TaskStep::SendFail { session_error: true, retryable: true },
        ),
        TaskEvent::Executed { success } => (
            TaskStage::Completing,
            TaskStep::SendComplete { success },
        ),
        TaskEvent::ExecutionFailed { retryable } => (
            TaskStage::Failing,
            TaskStep::SendFail { session_error: false, retryable },
        ),
        TaskEvent::Acknowledged { ok } => (
            TaskStage::Done,
            TaskStep::Finish { completed: stage == TaskStage::Completing && ok },
        ),
    }
}

/// The processing of one polled task, one step at a time. Tasks of a batch
/// are processed one after the other.
pub struct TaskRun {
    pub stage: TaskStage,
}

impl TaskRun {
    /// Processing starts by sending the claim.
    pub fn new() -> (r: Self)
        ensures
            r.stage == TaskStage::Claiming,
    {
        TaskRun { stage: TaskStage::Claiming }
    }

    /// Records what happened to the current step and gives the next one.
    pub fn on_event(&mut self, event: TaskEvent) -> (step: TaskStep)
        requires
            event_fits(old(self).stage, event),
        ensures
            (final(self).stage, step) == task_next(old(self).stage, event),
    {
        let completing = match self.stage {
            TaskStage::Completing => true,
            _ => false,
        };
        match event {
            TaskEvent::ClaimSucceeded => {
                self.stage = TaskStage::Preparing;
                TaskStep::FetchSession
            },
            TaskEvent::ClaimFailed => {
                self.stage = TaskStage::Done;
                TaskStep::Finish { completed: false }
            },
            TaskEvent::SessionReady => {
                self.stage = TaskStage::Executing;
                TaskStep::Dispatch
            },
            TaskEvent::SessionFailed => {
                self.stage = TaskStage::Failing;
                TaskStep::SendFail { session_error: true, retryable: true }
            },
            TaskEvent::Executed { success } => {
                self.stage = TaskStage::Completing;
                TaskStep::SendComplete { success }
            },
            TaskEvent::ExecutionFailed { retryable } => {
                self.stage = TaskStage::Failing;
                TaskStep::SendFail { session_error: false, retryable }
            },
            TaskEvent::Acknowledged { ok } => {
                self.stage = TaskStage::Done;
                TaskStep::Finish { completed: completing && ok }
            },
        }
    }
}

/// Once a task is claimed it is never dropped silently: every event leads on
/// to execution, a completion or a failure sent to the engine, and the task is
/// only reported completed when the engine acknowledged its completion.
pub proof fn lemma_claimed_task_is_settled(stage: TaskStage, event: TaskEvent)
    requires
        stage == TaskStage::Preparing || stage == TaskStage::Executing,
        event_fits(stage, event),
    ensures
        task_next(stage, event).0 != TaskStage::Done,
        task_next(stage, event).0 == TaskStage::Executing || (task_next(stage, event).1 is SendComplete)
            || (task_next(stage, event).1 is SendFail),
        forall|ok: bool|
            #![auto]
            task_next(TaskStage::Failing, (TaskEvent::Acknowledged { ok })).1 == (TaskStep::Finish {
                completed: false,
            }),
{
}

/// Most characters of a response body quoted in a failed call's error.
pub const FAILURE_BODY_CHARS: usize = 100;

/// Most characters of a response body kept for a refused heartbeat.
pub const HEARTBEAT_BODY_CHARS: usize = 200;

/// The first `max` characters of `s`, or all of it when it is shorter.
pub open spec fn excerpt_spec(s: Seq<char>, max: nat) -> Seq<char> {
    if s.len() > max {
        s.subrange(0, max as int)
    } else {
        s
    }
}

/// The first `max` characters of `s`, for quoting a response body in an error.
pub fn excerpt(s: &str, max: usize) -> (r: String)
    ensures
        r@ == excerpt_spec(s@, max as nat),
{
    if s.unicode_len() > max {
        String::from_str(s.substring_char(0, max))
    } else {
        String::from_str(s)
    }
}

/// A heartbeat that the engine refused: its status and the start of its body.
pub struct HeartbeatRefused {
    pub status: u16,
    /// The first 200 characters of the body, followed by `...` when it was longer.
    pub body: String,
}

/// The body kept for a refused heartbeat.
pub open spec fn heartbeat_body_spec(body: Seq<char>) -> Seq<char> {
    if body.len() > HEARTBEAT_BODY_CHARS {
        body.subrange(0, HEARTBEAT_BODY_CHARS as int) + "..."@
    } else {
        body
    }
}

/// The outcome of a heartbeat from the engine's answer: any 2xx status is
/// accepted; anything else is refused, keeping the status and the start of the
/// body. A refused heartbeat does not stop the task's execution.
pub fn heartbeat_result(status: u16, body: &str) -> (r: Result<(), HeartbeatRefused>)
    ensures
        is_success_spec(status) ==> r is Ok,
        !is_success_spec(status) ==> (r matches Err(h) && h.status == status && h.body@
            == heartbeat_body_spec(body@)),
{
    if 200 <= status && status < 300 {
        return Ok(());
    }
    let kept = if body.unicode_len() > HEARTBEAT_BODY_CHARS {
        String::from_str(body.substring_char(0, HEARTBEAT_BODY_CHARS)).concat("...")
    } else {
        String::from_str(body)
    };
    Err(HeartbeatRefused { status, body: kept })
}

} // verus!
