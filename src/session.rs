//! The node's session: the token obtained by authenticating, the cache that
//! holds it, and the single-flight guard over authentication attempts.

use vstd::prelude::*;

verus! {

/// A token counts as expired this many milliseconds before its expiry.
pub const EXPIRY_MARGIN_MS: i64 = 60_000;

/// A session token of the node. Held in memory only.
pub struct NodeAuthToken {
    pub token: String,
    pub node_id: u128,
    pub tenant_id: u128,
    pub workspace_id: u128,
    pub session_id: u128,
    /// Expiry, in milliseconds since the Unix epoch.
    pub expires_at_ms: i64,
}

impl Clone for NodeAuthToken {
    fn clone(&self) -> (r: Self)
        ensures
            r == *self,
    {
        NodeAuthToken {
            token: self.token.clone(),
            node_id: self.node_id,
            tenant_id: self.tenant_id,
            workspace_id: self.workspace_id,
            session_id: self.session_id,
            expires_at_ms: self.expires_at_ms,
        }
    }
}

/// The token expires within the margin of `now_ms`, or has already.
pub open spec fn expired_at(expires_at_ms: i64, now_ms: i64) -> bool {
    now_ms + EXPIRY_MARGIN_MS >= expires_at_ms
}

impl NodeAuthToken {
    /// Whether the token is expired or expires within 60 seconds of `now_ms`.
    pub fn is_expired(&self, now_ms: i64) -> (r: bool)
        ensures
            r == expired_at(self.expires_at_ms, now_ms),
    {
        (now_ms as i128) + (EXPIRY_MARGIN_MS as i128) >= self.expires_at_ms as i128
    }
}

/// The cache of the current session token: at most one.
pub struct NodeAuthTokenHolder {
    pub inner: Option<NodeAuthToken>,
}

/// What `get_valid` returns for a cache content at `now_ms`.
pub open spec fn valid_token(inner: Option<NodeAuthToken>, now_ms: i64) -> Option<NodeAuthToken> {
    match inner {
        Some(t) => if expired_at(t.expires_at_ms, now_ms) {
            None
        } else {
            Some(t)
        },
        None => None,
    }
}

impl NodeAuthTokenHolder {
    /// An empty cache.
    pub fn new() -> (r: Self)
        ensures
            r.inner is None,
    {
        NodeAuthTokenHolder { inner: None }
    }

    /// The cached token, expired or not.
    pub fn get(&self) -> (r: Option<NodeAuthToken>)
        ensures
            r == self.inner,
    {
        match &self.inner {
            Some(t) => Some(t.clone()),
            None => None,
        }
    }

    /// Replaces the cached token.
    pub fn set(&mut self, token: NodeAuthToken)
        ensures
            final(self).inner == Some(token),
    {
        self.inner = Some(token);
    }

    /// Empties the cache, so that the next caller authenticates afresh.
    pub fn clear(&mut self)
        ensures
            final(self).inner is None,
    {
        self.inner = None;
    }

    /// The cached token if there is one and it is not within 60 seconds of expiry.
    pub fn get_valid(&self, now_ms: i64) -> (r: Option<NodeAuthToken>)
        ensures
            r == valid_token(self.inner, now_ms),
    {
        match &self.inner {
            Some(t) => if t.is_expired(now_ms) {
                None
            } else {
                Some(t.clone())
            },
            None => None,
        }
    }
}

/// A token that expires less than the margin after `now_ms` is not handed out;
/// one that expires later than that is.
pub proof fn lemma_expiry_margin(holder: NodeAuthTokenHolder, t: NodeAuthToken, now_ms: i64)
    requires
        holder.inner == Some(t),
    ensures
        t.expires_at_ms <= now_ms + EXPIRY_MARGIN_MS ==> valid_token(holder.inner, now_ms) is None,
        t.expires_at_ms > now_ms + EXPIRY_MARGIN_MS ==> valid_token(holder.inner, now_ms) == Some(
            t,
        ),
{
}

/// Where authentication of the node stands in this process.
#[derive(Debug, Clone, Copy, PartialEq, Eq, Structural)]
pub enum NodeAuthState {
    /// No attempt yet.
    Unauthenticated,
    /// An attempt is under way; others must not start one.
    Authenticating,
    /// The attempt succeeded and the token is cached.
    Authenticated,
    /// The attempt failed; no retry in this process.
    Failed,
}

/// Whether an attempt to start is let through from state `s`, and the state after it.
pub open spec fn start_outcome(s: NodeAuthState) -> (bool, NodeAuthState) {
    if s == NodeAuthState::Unauthenticated {
        (true, NodeAuthState::Authenticating)
    } else {
        (false, s)
    }
}

/// The single-flight guard: the state and the last error of authentication.
pub struct NodeAuthStateHolder {
    pub state: NodeAuthState,
    pub last_error: Option<String>,
}

impl NodeAuthStateHolder {
    /// A guard that has seen no attempt.
    pub fn new() -> (r: Self)
        ensures
            r.state == NodeAuthState::Unauthenticated,
            r.last_error is None,
    {
        NodeAuthStateHolder { state: NodeAuthState::Unauthenticated, last_error: None }
    }

    /// The current state.
    pub fn get(&self) -> (r: NodeAuthState)
        ensures
            r == self.state,
    {
        self.state
    }

    /// Claims the right to authenticate: succeeds only from `Unauthenticated`,
    /// which it leaves for `Authenticating`; from any other state nothing changes.
    pub fn try_start(&mut self) -> (r: bool)
        ensures
            (r, final(self).state) == start_outcome(old(self).state),
            final(self).last_error == old(self).last_error,
    {
        match self.state {
            NodeAuthState::Unauthenticated => {
                self.state = NodeAuthState::Authenticating;
                true
            },
            _ => false,
        }
    }

    /// Records a successful attempt and forgets the last error.
    pub fn set_authenticated(&mut self)
        ensures
            final(self).state == NodeAuthState::Authenticated,
            final(self).last_error is None,
    {
        self.state = NodeAuthState::Authenticated;
        self.last_error = None;
    }

    /// Records a failed attempt and its error.
    pub fn set_failed(&mut self, error: String)
        ensures
            final(self).state == NodeAuthState::Failed,
            final(self).last_error == Some(error),
    {
        self.state = NodeAuthState::Failed;
        self.last_error = Some(error);
    }

    /// The error of the last failed attempt, if any.
    pub fn get_last_error(&self) -> (r: Option<String>)
        ensures
            r == self.last_error,
    {
        self.last_error.clone()
    }

    /// Back to `Unauthenticated`, as after a logout or new credentials.
    pub fn reset(&mut self)
        ensures
            final(self).state == NodeAuthState::Unauthenticated,
            final(self).last_error is None,
    {
        self.state = NodeAuthState::Unauthenticated;
        self.last_error = None;
    }
}

/// Of two attempts to start authentication from `Unauthenticated`, in
/// whichever order they reach the guard, exactly one is let through.
pub proof fn lemma_single_flight(s0: NodeAuthState)
    requires
        s0 == NodeAuthState::Unauthenticated,
    ensures
        start_outcome(s0).0,
        !start_outcome(start_outcome(s0).1).0,
{
}

} // verus!
