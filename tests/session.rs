use ekka_node::credentials::{
    auth_result, credentials_to_store, finish_authentication, load_credentials, CredentialsError,
};
use ekka_node::session::{NodeAuthState, NodeAuthStateHolder, NodeAuthToken, NodeAuthTokenHolder};

const NOW: i64 = 1_700_000_000_000;

fn token(expires_at_ms: i64) -> NodeAuthToken {
    NodeAuthToken {
        token: "test".to_string(),
        node_id: 1,
        tenant_id: 2,
        workspace_id: 3,
        session_id: 4,
        expires_at_ms,
    }
}

#[test]
fn test_session_expiry() {
    let session = token(NOW + 3_600_000);
    assert!(!session.is_expired(NOW));

    let expired_session = token(NOW - 3_600_000);
    assert!(expired_session.is_expired(NOW));
}

#[test]
fn cache_expiry_margin() {
    let mut holder = NodeAuthTokenHolder::new();
    holder.set(token(NOW + 30_000));
    assert!(holder.get_valid(NOW).is_none());
    assert!(holder.get().is_some());
    holder.set(token(NOW + 120_000));
    assert_eq!(holder.get_valid(NOW).map(|t| t.expires_at_ms), Some(NOW + 120_000));
    holder.set(token(NOW + 60_000));
    assert!(holder.get_valid(NOW).is_none());
    holder.set(token(NOW + 60_001));
    assert!(holder.get_valid(NOW).is_some());
    holder.clear();
    assert!(holder.get().is_none());
}

#[test]
fn expiry_check_at_extreme_instants() {
    assert!(token(i64::MAX).is_expired(i64::MAX));
    assert!(!token(i64::MAX).is_expired(i64::MIN));
}

#[test]
fn single_flight_lets_one_through() {
    let mut guard = NodeAuthStateHolder::new();
    assert_eq!(guard.get(), NodeAuthState::Unauthenticated);
    let first = guard.try_start();
    let second = guard.try_start();
    assert!(first);
    assert!(!second);
    assert_eq!(guard.get(), NodeAuthState::Authenticating);
}

#[test]
fn single_flight_failure_is_terminal_until_reset() {
    let mut guard = NodeAuthStateHolder::new();
    assert!(guard.try_start());
    guard.set_failed("boom".to_string());
    assert_eq!(guard.get(), NodeAuthState::Failed);
    assert_eq!(guard.get_last_error().as_deref(), Some("boom"));
    assert!(!guard.try_start());
    guard.reset();
    assert_eq!(guard.get_last_error(), None);
    assert!(guard.try_start());
    guard.set_authenticated();
    assert_eq!(guard.get(), NodeAuthState::Authenticated);
    assert!(!guard.try_start());
}

#[test]
fn end_to_end_store_authenticate_cache() {
    let node = "550e8400-e29b-41d4-a716-446655440000";
    let stored = credentials_to_store(node, "a-valid-32-char-secret-string!!").unwrap();
    let (id, secret) = load_credentials(Ok(Some(stored))).unwrap();
    assert_eq!(secret, "a-valid-32-char-secret-string!!");
    let body = r#"{"token":"jwt","tenant_id":"11111111-1111-1111-1111-111111111111","workspace_id":"22222222-2222-2222-2222-222222222222","session_id":"33333333-3333-3333-3333-333333333333","expires_at_iso_utc":"2030-01-01T00:00:00Z"}"#;
    let t = auth_result(200, body, id).unwrap();
    let mut cache = NodeAuthTokenHolder::new();
    cache.set(t);
    let valid = cache.get_valid(NOW).unwrap();
    assert_eq!(valid.token, "jwt");
    assert_eq!(valid.node_id, 0x550e8400_e29b_41d4_a716_446655440000);
}

#[test]
fn finishing_authentication() {
    let mut guard = NodeAuthStateHolder::new();
    let mut cache = NodeAuthTokenHolder::new();
    assert!(guard.try_start());
    assert!(!finish_authentication(&mut guard, &mut cache, Ok(token(NOW + 600_000)), String::new()));
    assert_eq!(guard.get(), NodeAuthState::Authenticated);
    assert!(cache.get_valid(NOW).is_some());

    let mut guard = NodeAuthStateHolder::new();
    let mut cache = NodeAuthTokenHolder::new();
    assert!(guard.try_start());
    let revoked = CredentialsError::AuthFailed(401, r#"{"error":"secret_revoked"}"#.to_string());
    assert!(finish_authentication(&mut guard, &mut cache, Err(revoked), "revoked".to_string()));
    assert_eq!(guard.get(), NodeAuthState::Failed);
    assert_eq!(guard.get_last_error().as_deref(), Some("revoked"));
    assert!(cache.get().is_none());

    let mut guard = NodeAuthStateHolder::new();
    assert!(guard.try_start());
    let blip = CredentialsError::HttpError("Request failed".to_string());
    assert!(!finish_authentication(&mut guard, &mut cache, Err(blip), "blip".to_string()));
    let mut guard = NodeAuthStateHolder::new();
    assert!(guard.try_start());
    let limited = CredentialsError::AuthFailed(401, r#"{"error":"rate_limited"}"#.to_string());
    assert!(!finish_authentication(&mut guard, &mut cache, Err(limited), "limited".to_string()));
}
