//! The runner's observable status, and how errors are cleaned before they are shown.

use vstd::prelude::*;
use vstd::string::*;
use crate::text::{contains_seq, opt_view, push_char, str_contains};

verus! {

/// Longest shown error, in characters, before it is cut.
pub const MAX_ERROR_CHARS: usize = 200;

/// Whether the loop is running, stopped, or has hit an error.
#[derive(Debug, Clone, Copy, PartialEq, Eq, Structural)]
pub enum RunnerLoopState {
    Running,
    Stopped,
    Error,
}

/// The pieces of `s` between line feeds, in order (always at least one).
pub open spec fn split_lf(s: Seq<char>) -> Seq<Seq<char>>
    decreases s.len(),
{
    if s.len() == 0 {
        seq![Seq::<char>::empty()]
    } else if s.last() == '\n' {
        split_lf(s.drop_last()).push(Seq::<char>::empty())
    } else {
        let p = split_lf(s.drop_last());
        p.update(p.len() - 1, p.last().push(s.last()))
    }
}

/// The lines of `s`: its pieces between line feeds, without the empty piece
/// that follows a final line feed (so the empty text has no lines).
pub open spec fn lines_spec(s: Seq<char>) -> Seq<Seq<char>> {
    let p = split_lf(s);
    if p.last().len() == 0 {
        p.drop_last()
    } else {
        p
    }
}

/// A line that looks like it holds a file system path.
pub open spec fn looks_like_path(line: Seq<char>) -> bool {
    contains_seq(line, "/"@) && (contains_seq(line, "home"@) || contains_seq(line, "Users"@)
        || contains_seq(line, "tmp"@))
}

/// A line as shown: lines that look like paths are replaced.
pub open spec fn redact_spec(line: Seq<char>) -> Seq<char> {
    if looks_like_path(line) {
        "[path redacted]"@
    } else {
        line
    }
}

/// The redacted lines joined with single spaces.
pub open spec fn join_redacted(lines: Seq<Seq<char>>) -> Seq<char>
    decreases lines.len(),
{
    if lines.len() == 0 {
        Seq::empty()
    } else if lines.len() == 1 {
        redact_spec(lines[0])
    } else {
        join_redacted(lines.drop_last()) + " "@ + redact_spec(lines.last())
    }
}

/// An error as shown: redacted lines joined by spaces, cut after 200
/// characters with `...` appended.
pub open spec fn sanitize_spec(error: Seq<char>) -> Seq<char> {
    let joined = join_redacted(lines_spec(error));
    if joined.len() > MAX_ERROR_CHARS {
        joined.subrange(0, MAX_ERROR_CHARS as int) + "..."@
    } else {
        joined
    }
}

fn redact_line(line: &str) -> (r: String)
    ensures
        r@ == redact_spec(line@),
{
    if str_contains(line, "/") && (str_contains(line, "home") || str_contains(line, "Users")
        || str_contains(line, "tmp")) {
        String::from_str("[path redacted]")
    } else {
        String::from_str(line)
    }
}

proof fn lemma_join_push(lines: Seq<Seq<char>>, line: Seq<char>)
    ensures
        join_redacted(lines.push(line)) == if lines.len() == 0 {
            redact_spec(line)
        } else {
            join_redacted(lines) + " "@ + redact_spec(line)
        },
{
    assert(lines.push(line).drop_last() =~= lines);
}

/// Cleans an error before it is shown: each line that looks like a file
/// system path (a `/` and one of `home`, `Users`, `tmp`) becomes
/// `[path redacted]`, the lines are joined by spaces, and the result is cut
/// to 200 characters followed by `...`.
pub fn sanitize_error(error: &str) -> (r: String)
    ensures
        r@ == sanitize_spec(error@),
{
    let n = error.unicode_len();
    let mut out = String::new();
    let mut done: usize = 0;
    let mut cur = String::new();
    let mut i: usize = 0;
    while i < n
        invariant
            n == error@.len(),
            i <= n,
            done <= i,
            split_lf(error@.subrange(0, i as int)).len() == done + 1,
            split_lf(error@.subrange(0, i as int)).last() == cur@,
            out@ == join_redacted(split_lf(error@.subrange(0, i as int)).drop_last()),
        decreases n - i,
    {
        let c = error.get_char(i);
        let ghost prefix = error@.subrange(0, i as int);
        let ghost next = error@.subrange(0, i + 1);
        assert(next.drop_last() =~= prefix);
        if c == '\n' {
            let red = redact_line(cur.as_str());
            proof {
                lemma_join_push(split_lf(prefix).drop_last(), cur@);
                assert(split_lf(prefix).drop_last().push(cur@) =~= split_lf(prefix));
                assert(split_lf(next).drop_last() =~= split_lf(prefix));
            }
            if done > 0 {
                out.append(" ");
            }
            out.append(red.as_str());
            cur = String::new();
            done = done + 1;
        } else {
            push_char(&mut cur, c);
            proof {
                let p = split_lf(prefix);
                assert(split_lf(next).drop_last() =~= p.drop_last());
            }
        }
        i = i + 1;
    }
    assert(error@.subrange(0, n as int) =~= error@);
    if cur.as_str().unicode_len() > 0 {
        let red = redact_line(cur.as_str());
        proof {
            let p = split_lf(error@);
            lemma_join_push(p.drop_last(), cur@);
            assert(p.drop_last().push(cur@) =~= p);
        }
        if done > 0 {
            out.append(" ");
        }
        out.append(red.as_str());
    }
    let len = out.as_str().unicode_len();
    if len > MAX_ERROR_CHARS {
        String::from_str(out.as_str().substring_char(0, MAX_ERROR_CHARS)).concat("...")
    } else {
        out
    }
}

/// The runner's status as observed from outside. Instants are milliseconds
/// since the Unix epoch.
pub struct RunnerStatus {
    pub enabled: bool,
    pub state: RunnerLoopState,
    pub runner_id: Option<String>,
    pub engine_url: Option<String>,
    pub last_poll_at_ms: Option<i64>,
    pub last_claim_at_ms: Option<i64>,
    pub last_complete_at_ms: Option<i64>,
    pub last_task_id: Option<String>,
    pub last_error: Option<String>,
}

impl RunnerStatus {
    /// The status of a runner that has not started, for the given engine.
    pub fn new(engine_url: Option<String>) -> (r: Self)
        ensures
            !r.enabled,
            r.state == RunnerLoopState::Stopped,
            r.runner_id is None,
            r.engine_url == engine_url,
            r.last_poll_at_ms is None,
            r.last_claim_at_ms is None,
            r.last_complete_at_ms is None,
            r.last_task_id is None,
            r.last_error is None,
    {
        RunnerStatus {
            enabled: false,
            state: RunnerLoopState::Stopped,
            runner_id: None,
            engine_url,
            last_poll_at_ms: None,
            last_claim_at_ms: None,
            last_complete_at_ms: None,
            last_task_id: None,
            last_error: None,
        }
    }

    /// Records a successful poll at `now_ms`: the runner is running.
    pub fn record_poll(&mut self, now_ms: i64)
        ensures
            final(self).last_poll_at_ms == Some(now_ms),
            final(self).state == RunnerLoopState::Running,
            final(self).enabled == old(self).enabled,
            final(self).runner_id == old(self).runner_id,
            final(self).engine_url == old(self).engine_url,
            final(self).last_claim_at_ms == old(self).last_claim_at_ms,
            final(self).last_complete_at_ms == old(self).last_complete_at_ms,
            final(self).last_task_id == old(self).last_task_id,
            final(self).last_error == old(self).last_error,
    {
        self.last_poll_at_ms = Some(now_ms);
        self.state = RunnerLoopState::Running;
    }

    /// Records a claimed task at `now_ms`.
    pub fn record_claim(&mut self, task_id: &str, now_ms: i64)
        ensures
            final(self).last_claim_at_ms == Some(now_ms),
            opt_view(final(self).last_task_id) == Some(task_id@),
            final(self).enabled == old(self).enabled,
            final(self).state == old(self).state,
            final(self).runner_id == old(self).runner_id,
            final(self).engine_url == old(self).engine_url,
            final(self).last_poll_at_ms == old(self).last_poll_at_ms,
            final(self).last_complete_at_ms == old(self).last_complete_at_ms,
            final(self).last_error == old(self).last_error,
    {
        self.last_claim_at_ms = Some(now_ms);
        self.last_task_id = Some(String::from_str(task_id));
    }

    /// Records a completed task at `now_ms`.
    pub fn record_complete(&mut self, task_id: &str, now_ms: i64)
        ensures
            final(self).last_complete_at_ms == Some(now_ms),
            opt_view(final(self).last_task_id) == Some(task_id@),
            final(self).enabled == old(self).enabled,
            final(self).state == old(self).state,
            final(self).runner_id == old(self).runner_id,
            final(self).engine_url == old(self).engine_url,
            final(self).last_poll_at_ms == old(self).last_poll_at_ms,
            final(self).last_claim_at_ms == old(self).last_claim_at_ms,
            final(self).last_error == old(self).last_error,
    {
        self.last_complete_at_ms = Some(now_ms);
        self.last_task_id = Some(String::from_str(task_id));
    }

    /// Records an error: the state becomes `Error` and the cleaned error is kept.
    pub fn record_error(&mut self, error: &str)
        ensures
            final(self).state == RunnerLoopState::Error,
            opt_view(final(self).last_error) == Some(sanitize_spec(error@)),
            final(self).enabled == old(self).enabled,
            final(self).runner_id == old(self).runner_id,
            final(self).engine_url == old(self).engine_url,
            final(self).last_poll_at_ms == old(self).last_poll_at_ms,
            final(self).last_claim_at_ms == old(self).last_claim_at_ms,
            final(self).last_complete_at_ms == old(self).last_complete_at_ms,
            final(self).last_task_id == old(self).last_task_id,
    {
        self.state = RunnerLoopState::Error;
        self.last_error = Some(sanitize_error(error));
    }

    /// Records the start of a runner with this id against this engine; the last error is cleared.
    pub fn start(&mut self, runner_id: &str, engine_url: Option<String>)
        ensures
            final(self).enabled,
            final(self).state == RunnerLoopState::Running,
            opt_view(final(self).runner_id) == Some(runner_id@),
            final(self).engine_url == engine_url,
            final(self).last_error is None,
            final(self).last_poll_at_ms == old(self).last_poll_at_ms,
            final(self).last_claim_at_ms == old(self).last_claim_at_ms,
            final(self).last_complete_at_ms == old(self).last_complete_at_ms,
            final(self).last_task_id == old(self).last_task_id,
    {
        self.enabled = true;
        self.state = RunnerLoopState::Running;
        self.runner_id = Some(String::from_str(runner_id));
        self.engine_url = engine_url;
        self.last_error = None;
    }

    /// Records that the runner stopped.
    pub fn stop(&mut self)
        ensures
            final(self).state == RunnerLoopState::Stopped,
            final(self).enabled == old(self).enabled,
            final(self).runner_id == old(self).runner_id,
            final(self).engine_url == old(self).engine_url,
            final(self).last_poll_at_ms == old(self).last_poll_at_ms,
            final(self).last_claim_at_ms == old(self).last_claim_at_ms,
            final(self).last_complete_at_ms == old(self).last_complete_at_ms,
            final(self).last_task_id == old(self).last_task_id,
            final(self).last_error == old(self).last_error,
    {
        self.state = RunnerLoopState::Stopped;
    }
}

/// Hooks through which the runner loop reports what it does.
pub trait NodeRunnerCallback {
    fn on_start(&mut self, runner_id: &str);

    fn on_poll(&mut self, now_ms: i64);

    fn on_claim(&mut self, task_id: &str, now_ms: i64);

    fn on_complete(&mut self, task_id: &str, now_ms: i64);

    fn on_error(&mut self, error: &str);

    fn on_stop(&mut self);
}

impl NodeRunnerCallback for RunnerStatus {
    fn on_start(&mut self, runner_id: &str) {
        let engine_url = self.engine_url.clone();
        self.start(runner_id, engine_url);
    }

    fn on_poll(&mut self, now_ms: i64) {
        self.record_poll(now_ms);
    }

    fn on_claim(&mut self, task_id: &str, now_ms: i64) {
        self.record_claim(task_id, now_ms);
    }

    fn on_complete(&mut self, task_id: &str, now_ms: i64) {
        self.record_complete(task_id, now_ms);
    }

    fn on_error(&mut self, error: &str) {
        self.record_error(error);
    }

    fn on_stop(&mut self) {
        self.stop();
    }
}

} // verus!
