//! Node credentials: validating and loading the (node id, node secret) pair,
//! and turning the identity endpoint's answer into a session token or an error.

use vstd::prelude::*;
use vstd::string::*;
use crate::ids::{format_uuid, parse_uuid, uuid_parse, uuid_text};
use crate::json::{json_str_member, str_member};
use crate::text::opt_view;
use crate::session::{NodeAuthState, NodeAuthStateHolder, NodeAuthToken, NodeAuthTokenHolder};
use crate::timestamp::{parse_rfc3339_millis, rfc3339_millis};
use crate::vault::{describe_spec, VaultError};

verus! {

/// Fewest characters a node secret may have.
pub const MIN_NODE_SECRET_CHARS: usize = 16;

/// The durable identity of the node, as stored in the vault.
pub struct NodeCredentials {
    pub node_id: String,
    pub node_secret: String,
}

/// Whether credentials are stored, and for which node.
pub struct CredentialsStatus {
    pub has_credentials: bool,
    pub node_id: Option<String>,
}

/// Failures of credential operations.
#[derive(Debug)]
pub enum CredentialsError {
    /// The vault could not store or give back the credentials.
    VaultError(String),
    InvalidNodeId(String),
    InvalidNodeSecret(String),
    /// No credentials are stored: the node was never set up.
    NotConfigured,
    /// The identity endpoint answered with this non-success status and body.
    AuthFailed(u16, String),
    /// The identity endpoint could not be reached or its answer not read.
    HttpError(String),
}

/// Validates a node secret: not empty, and at least 16 characters.
pub fn validate_node_secret(node_secret: &str) -> (r: Result<(), CredentialsError>)
    ensures
        node_secret@.len() == 0 ==> (r matches Err(CredentialsError::InvalidNodeSecret(m))
            && m@ == "node_secret cannot be empty"@),
        0 < node_secret@.len() < MIN_NODE_SECRET_CHARS ==> (r matches Err(
            CredentialsError::InvalidNodeSecret(m),
        ) && m@ == "node_secret must be at least 16 characters"@),
        node_secret@.len() >= MIN_NODE_SECRET_CHARS ==> r is Ok,
{
    let n = node_secret.unicode_len();
    if n == 0 {
        return Err(CredentialsError::InvalidNodeSecret(String::from_str("node_secret cannot be empty")));
    }
    if n < MIN_NODE_SECRET_CHARS {
        return Err(
            CredentialsError::InvalidNodeSecret(
                String::from_str("node_secret must be at least 16 characters"),
            ),
        );
    }
    Ok(())
}

/// Validates a node id: it must be a UUID; gives its value.
pub fn validate_node_id(node_id: &str) -> (r: Result<u128, CredentialsError>)
    ensures
        match uuid_parse(node_id@) {
            Some(v) => r matches Ok(x) && x == v,
            None => r matches Err(CredentialsError::InvalidNodeId(_)),
        },
{
    match parse_uuid(node_id) {
        Some(v) => Ok(v),
        None => Err(CredentialsError::InvalidNodeId(String::from_str("Invalid UUID format"))),
    }
}

/// The record to store for a node id and secret, once both are valid: the id
/// is checked first, then the secret; the id is stored in hyphenated form.
/// Nothing may be written when this fails.
pub fn credentials_to_store(node_id: &str, node_secret: &str) -> (r: Result<
    NodeCredentials,
    CredentialsError,
>)
    ensures
        uuid_parse(node_id@) is None ==> r matches Err(CredentialsError::InvalidNodeId(_)),
        uuid_parse(node_id@) is Some && node_secret@.len() < MIN_NODE_SECRET_CHARS ==> r matches Err(
            CredentialsError::InvalidNodeSecret(_),
        ),
        uuid_parse(node_id@) is Some && node_secret@.len() >= MIN_NODE_SECRET_CHARS ==> (r matches Ok(
            c,
        ) && c.node_id@ == uuid_text(uuid_parse(node_id@)->0) && uuid_parse(c.node_id@) == uuid_parse(
            node_id@,
        ) && c.node_secret@ == node_secret@),
{
    let id = validate_node_id(node_id)?;
    validate_node_secret(node_secret)?;
    Ok(NodeCredentials { node_id: format_uuid(id), node_secret: String::from_str(node_secret) })
}

/// Credentials as read from the vault: a vault failure stays a vault error,
/// an absent entry is `NotConfigured`, and a stored id that is not a UUID is
/// an invalid id.
pub fn load_credentials(read: Result<Option<NodeCredentials>, VaultError>) -> (r: Result<
    (u128, String),
    CredentialsError,
>)
    ensures
        read matches Err(e) ==> (r matches Err(CredentialsError::VaultError(m)) && m@ == describe_spec(
            e,
        )),
        read matches Ok(None) ==> r matches Err(CredentialsError::NotConfigured),
        read matches Ok(Some(c)) ==> match uuid_parse(c.node_id@) {
            Some(v) => r matches Ok((id, s)) && id == v && s@ == c.node_secret@,
            None => r matches Err(CredentialsError::InvalidNodeId(_)),
        },
{
    match read {
        Err(e) => Err(CredentialsError::VaultError(e.describe())),
        Ok(None) => Err(CredentialsError::NotConfigured),
        Ok(Some(c)) => match parse_uuid(c.node_id.as_str()) {
            Some(v) => Ok((v, c.node_secret)),
            None => Err(CredentialsError::InvalidNodeId(String::from_str("Invalid UUID"))),
        },
    }
}

/// The status shown for the result of loading credentials.
pub fn get_status(loaded: &Result<(u128, String), CredentialsError>) -> (r: CredentialsStatus)
    ensures
        r.has_credentials == loaded is Ok,
        match loaded {
            Ok((id, _)) => opt_view(r.node_id) == Some(uuid_text(*id)),
            Err(_) => r.node_id is None,
        },
{
    match loaded {
        Ok((id, _)) => CredentialsStatus { has_credentials: true, node_id: Some(format_uuid(*id)) },
        Err(_) => CredentialsStatus { has_credentials: false, node_id: None },
    }
}

/// An error code by which the identity endpoint says the secret is invalid or revoked.
pub open spec fn secret_code_spec(code: Seq<char>) -> bool {
    code == "invalid_secret"@ || code == "secret_revoked"@ || code == "invalid_credentials"@
}

/// A rejection (401 or 403) whose error code condemns the stored secret.
pub open spec fn secret_error_spec(status: u16, code: Option<Seq<char>>) -> bool {
    (status == 401 || status == 403) && (code matches Some(c) && secret_code_spec(c))
}

/// Whether a rejection with this status and error code means the stored
/// secret is invalid or revoked, so that the credentials must be cleared.
pub fn is_secret_code(status: u16, code: Option<&str>) -> (r: bool)
    ensures
        r == secret_error_spec(
            status,
            match code {
                Some(c) => Some(c@),
                None => None,
            },
        ),
{
    if status != 401 && status != 403 {
        return false;
    }
    match code {
        Some(c) => {
            let c = String::from_str(c);
            c == String::from_str("invalid_secret") || c == String::from_str("secret_revoked")
                || c == String::from_str("invalid_credentials")
        },
        None => false,
    }
}

/// Whether a failed authentication (status and body) means the stored secret
/// is invalid or revoked: status 401 or 403 and a JSON body whose `error`
/// names such a code. Any other failure leaves the credentials alone.
pub fn is_secret_error(status: u16, body: &str) -> (r: bool)
    ensures
        r == secret_error_spec(status, json_str_member(body@, "error"@)),
{
    let code = str_member(body, "error");
    match code {
        Some(c) => is_secret_code(status, Some(c.as_str())),
        None => is_secret_code(status, None),
    }
}

/// The members of the identity endpoint's answer, each under either of its names.
pub struct NodeAuthResponse {
    pub token: Option<String>,
    pub tenant_id: Option<String>,
    pub workspace_id: Option<String>,
    pub session_id: Option<String>,
    pub expires_at: Option<String>,
}

/// The first of two member names that the answer holds as a string.
pub open spec fn member_either(body: Seq<char>, a: Seq<char>, b: Seq<char>) -> Option<Seq<char>> {
    match json_str_member(body, a) {
        Some(v) => Some(v),
        None => json_str_member(body, b),
    }
}

/// The expiry member, under any of its four names.
pub open spec fn expiry_member(body: Seq<char>) -> Option<Seq<char>> {
    match member_either(body, "expires_at_iso_utc"@, "expiresAtIsoUtc"@) {
        Some(v) => Some(v),
        None => member_either(body, "expiresAt"@, "expires_at"@),
    }
}

fn str_member_either(body: &str, a: &str, b: &str) -> (r: Option<String>)
    ensures
        opt_view(r) == member_either(body@, a@, b@),
{
    match str_member(body, a) {
        Some(v) => Some(v),
        None => str_member(body, b),
    }
}

impl NodeAuthResponse {
    /// Reads the members of an answer body.
    pub fn parse(body: &str) -> (r: Self)
        ensures
            opt_view(r.token) == json_str_member(body@, "token"@),
            opt_view(r.tenant_id) == member_either(body@, "tenant_id"@, "tenantId"@),
            opt_view(r.workspace_id) == member_either(body@, "workspace_id"@, "workspaceId"@),
            opt_view(r.session_id) == member_either(body@, "session_id"@, "sessionId"@),
            opt_view(r.expires_at) == expiry_member(body@),
    {
        let expires_at = match str_member_either(body, "expires_at_iso_utc", "expiresAtIsoUtc") {
            Some(v) => Some(v),
            None => str_member_either(body, "expiresAt", "expires_at"),
        };
        NodeAuthResponse {
            token: str_member(body, "token"),
            tenant_id: str_member_either(body, "tenant_id", "tenantId"),
            workspace_id: str_member_either(body, "workspace_id", "workspaceId"),
            session_id: str_member_either(body, "session_id", "sessionId"),
            expires_at,
        }
    }
}

/// An answer's members make a session token: all present, the ids UUIDs and
/// the expiry an RFC 3339 date-time.
pub open spec fn usable_spec(
    token: Option<Seq<char>>,
    tenant: Option<Seq<char>>,
    workspace: Option<Seq<char>>,
    session: Option<Seq<char>>,
    expires: Option<Seq<char>>,
) -> bool {
    &&& token is Some
    &&& tenant matches Some(t) && uuid_parse(t) is Some
    &&& workspace matches Some(w) && uuid_parse(w) is Some
    &&& session matches Some(s) && uuid_parse(s) is Some
    &&& expires matches Some(e) && rfc3339_millis(e) is Some
}

/// The token made from usable members for the node that authenticated.
pub open spec fn token_matches(
    t: NodeAuthToken,
    node_id: u128,
    token: Option<Seq<char>>,
    tenant: Option<Seq<char>>,
    workspace: Option<Seq<char>>,
    session: Option<Seq<char>>,
    expires: Option<Seq<char>>,
) -> bool {
    &&& Some(t.token@) == token
    &&& t.node_id == node_id
    &&& Some(t.tenant_id) == uuid_parse(tenant->0)
    &&& Some(t.workspace_id) == uuid_parse(workspace->0)
    &&& Some(t.session_id) == uuid_parse(session->0)
    &&& Some(t.expires_at_ms) == rfc3339_millis(expires->0)
}

fn required(member: &Option<String>, missing: &str) -> (r: Result<String, CredentialsError>)
    ensures
        match member {
            Some(m) => r matches Ok(x) && x@ == m@,
            None => r matches Err(CredentialsError::HttpError(_)),
        },
{
    match member {
        Some(m) => Ok(m.clone()),
        None => Err(CredentialsError::HttpError(String::from_str(missing))),
    }
}

fn required_uuid(text: &String, invalid: &str) -> (r: Result<u128, CredentialsError>)
    ensures
        match uuid_parse(text@) {
            Some(v) => r matches Ok(x) && x == v,
            None => r matches Err(CredentialsError::HttpError(_)),
        },
{
    match parse_uuid(text.as_str()) {
        Some(v) => Ok(v),
        None => Err(CredentialsError::HttpError(String::from_str(invalid))),
    }
}

/// The session token for `node_id` made from an answer's members; an
/// answer that lacks a member or holds an unreadable one is an HTTP error.
pub fn token_from_auth_response(resp: &NodeAuthResponse, node_id: u128) -> (r: Result<
    NodeAuthToken,
    CredentialsError,
>)
    ensures
        r is Ok <==> usable_spec(
            opt_view(resp.token),
            opt_view(resp.tenant_id),
            opt_view(resp.workspace_id),
            opt_view(resp.session_id),
            opt_view(resp.expires_at),
        ),
        r matches Ok(t) ==> token_matches(
            t,
            node_id,
            opt_view(resp.token),
            opt_view(resp.tenant_id),
            opt_view(resp.workspace_id),
            opt_view(resp.session_id),
            opt_view(resp.expires_at),
        ),
        r matches Err(e) ==> e is HttpError,
{
    let token = required(&resp.token, "Parse error: response missing token")?;
    let tenant = required(&resp.tenant_id, "Response missing tenant_id/tenantId field")?;
    let workspace = required(&resp.workspace_id, "Response missing workspace_id/workspaceId field")?;
    let session = required(&resp.session_id, "Response missing session_id/sessionId field")?;
    let expires = required(&resp.expires_at, "Response missing expires_at field")?;
    let tenant_id = required_uuid(&tenant, "Invalid tenant_id")?;
    let workspace_id = required_uuid(&workspace, "Invalid workspace_id")?;
    let session_id = required_uuid(&session, "Invalid session_id")?;
    let expires_at_ms = match parse_rfc3339_millis(expires.as_str()) {
        Some(ms) => ms,
        None => {
            return Err(CredentialsError::HttpError(String::from_str("Invalid expires_at")));
        },
    };
    Ok(NodeAuthToken { token, node_id, tenant_id, workspace_id, session_id, expires_at_ms })
}

/// The outcome of authenticating `node_id`, from the identity endpoint's
/// status and body: a non-success status is `AuthFailed` with that status and
/// body; a success gives the token its body describes, or an HTTP error.
pub fn auth_result(status: u16, body: &str, node_id: u128) -> (r: Result<
    NodeAuthToken,
    CredentialsError,
>)
    ensures
        !(200 <= status < 300) ==> (r matches Err(CredentialsError::AuthFailed(s, b)) && s == status
            && b@ == body@),
        200 <= status < 300 ==> {
            &&& r is Ok <==> usable_spec(
                json_str_member(body@, "token"@),
                member_either(body@, "tenant_id"@, "tenantId"@),
                member_either(body@, "workspace_id"@, "workspaceId"@),
                member_either(body@, "session_id"@, "sessionId"@),
                expiry_member(body@),
            )
            &&& r matches Ok(t) ==> token_matches(
                t,
                node_id,
                json_str_member(body@, "token"@),
                member_either(body@, "tenant_id"@, "tenantId"@),
                member_either(body@, "workspace_id"@, "workspaceId"@),
                member_either(body@, "session_id"@, "sessionId"@),
                expiry_member(body@),
            )
            &&& r matches Err(e) ==> e is HttpError
        },
{
    if !(200 <= status && status < 300) {
        return Err(CredentialsError::AuthFailed(status, String::from_str(body)));
    }
    let resp = NodeAuthResponse::parse(body);
    token_from_auth_response(&resp, node_id)
}

/// Whether an authentication error condemns the stored secret.
pub open spec fn condemns_secret(e: CredentialsError) -> bool {
    e matches CredentialsError::AuthFailed(status, body) && secret_error_spec(
        status,
        json_str_member(body@, "error"@),
    )
}

/// Settles the attempt that the single-flight guard let through. A token is
/// cached and the guard marked authenticated; an error marks the guard failed
/// with `message` and leaves the cache as it was. Returns whether the stored
/// credentials must be cleared: only when the identity endpoint said that the
/// secret is invalid or revoked, never on a transport or other failure.
pub fn finish_authentication(
    guard: &mut NodeAuthStateHolder,
    cache: &mut NodeAuthTokenHolder,
    result: Result<NodeAuthToken, CredentialsError>,
    message: String,
) -> (clear_credentials: bool)
    requires
        old(guard).state == NodeAuthState::Authenticating,
    ensures
        match result {
            Ok(t) => {
                &&& final(cache).inner == Some(t)
                &&& final(guard).state == NodeAuthState::Authenticated
                &&& final(guard).last_error is None
                &&& !clear_credentials
            },
            Err(e) => {
                &&& final(cache).inner == old(cache).inner
                &&& final(guard).state == NodeAuthState::Failed
                &&& final(guard).last_error == Some(message)
                &&& clear_credentials == condemns_secret(e)
            },
        },
{
    match result {
        Ok(t) => {
            cache.set(t);
            guard.set_authenticated();
            false
        },
        Err(e) => {
            guard.set_failed(message);
            match e {
                CredentialsError::AuthFailed(status, body) => is_secret_error(status, body.as_str()),
                _ => false,
            }
        },
    }
}

} // verus!
