use ekka_node::device_secret::{device_secret_from_file, device_secret_path, new_device_secret};
use ekka_node::paths::join;
use ekka_node::vault::{
    node_vault_dir, node_vault_values_dir, secret_path, temp_secret_path, EncryptedEnvelope,
    VaultError, SECRET_ID_NODE_CREDENTIALS,
};

#[test]
fn envelope_round_trip() {
    let payloads: Vec<Vec<u8>> = vec![vec![], b"test secret data".to_vec(), (0..=255).collect()];
    for p in payloads {
        let env = EncryptedEnvelope::new(&p);
        assert_eq!(env.v, 1);
        assert_eq!(env.decode().unwrap(), p);
    }
}

#[test]
fn envelope_is_base64() {
    let env = EncryptedEnvelope::new(b"hello world~");
    assert_eq!(env.data_b64, "aGVsbG8gd29ybGR+");
}

#[test]
fn envelope_fails_closed() {
    let env = EncryptedEnvelope { v: 2, data_b64: "aGk=".to_string() };
    assert!(matches!(env.decode(), Err(VaultError::UnsupportedVersion(2))));
    let env = EncryptedEnvelope { v: 1, data_b64: "not base64!".to_string() };
    assert!(matches!(env.decode(), Err(VaultError::Base64)));
}

#[test]
fn vault_paths() {
    assert_eq!(node_vault_dir("/h"), "/h/vault/node");
    assert_eq!(node_vault_values_dir("/h/"), "/h/vault/node/values");
    assert_eq!(
        secret_path("/h", SECRET_ID_NODE_CREDENTIALS),
        "/h/vault/node/values/node_credentials.enc"
    );
    assert_eq!(temp_secret_path("/h", "x"), "/h/vault/node/values/x.enc.tmp");
    assert_eq!(join("", "a"), "a");
}

#[test]
fn device_secret_file() {
    assert_eq!(device_secret_path("/h"), "/h/.ekka-device-secret");
    let short = vec![7u8; 31];
    assert!(matches!(device_secret_from_file(&short), Err(VaultError::DeviceSecretTooShort(31))));
    let long: Vec<u8> = (0..40).collect();
    assert_eq!(device_secret_from_file(&long).unwrap(), (0..32).collect::<Vec<u8>>());
}

#[test]
fn fresh_device_secrets_differ() {
    let a = new_device_secret().unwrap();
    let b = new_device_secret().unwrap();
    assert_eq!(a.len(), 32);
    assert_ne!(a, b);
}

#[test]
fn vault_error_messages() {
    assert_eq!(VaultError::Io("disk".to_string()).describe(), "I/O error: disk");
    assert_eq!(VaultError::UnsupportedVersion(9).describe(), "Unsupported envelope version");
}
