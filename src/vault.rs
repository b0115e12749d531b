//! The node vault: where each secret's envelope lives, and the envelope that
//! carries its encrypted bytes.

use vstd::prelude::*;
use vstd::string::*;
use crate::paths::{join, join_spec};

verus! {

/// Identifier of the node credentials in the vault.
pub const SECRET_ID_NODE_CREDENTIALS: &'static str = "node_credentials";

/// The only envelope version this library reads and writes.
pub const ENVELOPE_VERSION: u8 = 1;

/// Failures of the vault and of the device secret.
#[derive(Debug)]
pub enum VaultError {
    /// A file could not be read or written.
    Io(String),
    /// Key derivation, encryption or authenticated decryption failed.
    Crypto(String),
    /// An envelope file is not well-formed.
    Format(String),
    /// An envelope of a version this library does not read.
    UnsupportedVersion(u8),
    /// An envelope's payload is not valid base64.
    Base64,
    /// The device secret file holds fewer bytes than a device secret.
    DeviceSecretTooShort(usize),
}

/// The message of a vault error.
pub open spec fn describe_spec(e: VaultError) -> Seq<char> {
    match e {
        VaultError::Io(m) => "I/O error: "@ + m@,
        VaultError::Crypto(m) => "Crypto error: "@ + m@,
        VaultError::Format(m) => "Invalid envelope: "@ + m@,
        VaultError::UnsupportedVersion(_) => "Unsupported envelope version"@,
        VaultError::Base64 => "Base64 decode failed"@,
        VaultError::DeviceSecretTooShort(_) => "Device secret file is too short"@,
    }
}

impl VaultError {
    /// A message for the error that holds no secret material.
    pub fn describe(&self) -> (r: String)
        ensures
            r@ == describe_spec(*self),
    {
        match self {
            VaultError::Io(m) => String::from_str("I/O error: ").concat(m.as_str()),
            VaultError::Crypto(m) => String::from_str("Crypto error: ").concat(m.as_str()),
            VaultError::Format(m) => String::from_str("Invalid envelope: ").concat(m.as_str()),
            VaultError::UnsupportedVersion(_) => String::from_str("Unsupported envelope version"),
            VaultError::Base64 => String::from_str("Base64 decode failed"),
            VaultError::DeviceSecretTooShort(_) => String::from_str("Device secret file is too short"),
        }
    }
}

/// The base64 text (standard alphabet, padded) of some bytes.
pub uninterp spec fn base64_text(b: Seq<u8>) -> Seq<char>;

/// The bytes that a standard padded base64 text stands for, if it is one.
pub uninterp spec fn base64_bytes(s: Seq<char>) -> Option<Seq<u8>>;

/// The view of an optional byte vector.
pub open spec fn opt_bytes(o: Option<Vec<u8>>) -> Option<Seq<u8>> {
    match o {
        Some(v) => Some(v@),
        None => None,
    }
}

/// Relies on `base64::engine::general_purpose::STANDARD.encode`, which panics
/// only when the encoded length overflows `usize`.
#[verifier::external_body]
fn encode_base64(b: &[u8]) -> (r: String)
    requires
        b@.len() <= usize::MAX / 2,
    ensures
        r@ == base64_text(b@),
{
    base64::Engine::encode(&base64::engine::general_purpose::STANDARD, b)
}

/// Relies on `base64::engine::general_purpose::STANDARD.decode`, which reads
/// back exactly the bytes that `encode` wrote.
#[verifier::external_body]
fn decode_base64(s: &str) -> (r: Option<Vec<u8>>)
    ensures
        opt_bytes(r) == base64_bytes(s@),
        forall|b: Seq<u8>| #[trigger] base64_text(b) == s@ ==> opt_bytes(r) == Some(b),
{
    base64::Engine::decode(&base64::engine::general_purpose::STANDARD, s).ok()
}

/// The vault directory of the node: `<home>/vault/node`.
pub fn node_vault_dir(home: &str) -> (r: String)
    ensures
        r@ == join_spec(join_spec(home@, "vault"@), "node"@),
{
    let vault = join(home, "vault");
    join(vault.as_str(), "node")
}

/// The directory of the vault's values: `<home>/vault/node/values`.
pub fn node_vault_values_dir(home: &str) -> (r: String)
    ensures
        r@ == join_spec(join_spec(join_spec(home@, "vault"@), "node"@), "values"@),
{
    let dir = node_vault_dir(home);
    join(dir.as_str(), "values")
}

/// The envelope file of a secret: `<values dir>/<secret_id>.enc`.
pub fn secret_path(home: &str, secret_id: &str) -> (r: String)
    ensures
        r@ == join_spec(
            join_spec(join_spec(join_spec(home@, "vault"@), "node"@), "values"@),
            secret_id@ + ".enc"@,
        ),
{
    let dir = node_vault_values_dir(home);
    let file = String::from_str(secret_id).concat(".enc");
    join(dir.as_str(), file.as_str())
}

/// The file a new envelope is written to before it is renamed over the secret's file.
pub fn temp_secret_path(home: &str, secret_id: &str) -> (r: String)
    ensures
        r@ == join_spec(
            join_spec(join_spec(join_spec(home@, "vault"@), "node"@), "values"@),
            secret_id@ + ".enc"@,
        ) + ".tmp"@,
{
    secret_path(home, secret_id).concat(".tmp")
}

/// The versioned container of a secret's encrypted bytes, as stored on disk.
pub struct EncryptedEnvelope {
    pub v: u8,
    /// The encrypted bytes (nonce and ciphertext) in base64.
    pub data_b64: String,
}

impl EncryptedEnvelope {
    /// Wraps encrypted bytes in an envelope of the current version.
    pub fn new(encrypted: &[u8]) -> (r: Self)
        requires
            encrypted@.len() <= usize::MAX / 2,
        ensures
            r.v == ENVELOPE_VERSION,
            r.data_b64@ == base64_text(encrypted@),
    {
        EncryptedEnvelope { v: ENVELOPE_VERSION, data_b64: encode_base64(encrypted) }
    }

    /// The encrypted bytes of the envelope. Fails closed on any other version
    /// and on a payload that is not base64; an envelope made by `new` gives
    /// back exactly the bytes it was made from.
    pub fn decode(&self) -> (r: Result<Vec<u8>, VaultError>)
        ensures
            self.v != ENVELOPE_VERSION ==> r == Err::<Vec<u8>, VaultError>(
                VaultError::UnsupportedVersion(self.v),
            ),
            self.v == ENVELOPE_VERSION ==> match r {
                Ok(b) => base64_bytes(self.data_b64@) == Some(b@),
                Err(e) => e is Base64 && base64_bytes(self.data_b64@) is None,
            },
            forall|b: Seq<u8>|
                self.v == ENVELOPE_VERSION && #[trigger] base64_text(b) == self.data_b64@ ==> (
                r matches Ok(x) && x@ == b),
    {
        if self.v != ENVELOPE_VERSION {
            return Err(VaultError::UnsupportedVersion(self.v));
        }
        match decode_base64(self.data_b64.as_str()) {
            Some(b) => Ok(b),
            None => Err(VaultError::Base64),
        }
    }
}

} // verus!
