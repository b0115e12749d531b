//! The device secret: 32 bytes bound to this machine, from which vault keys
//! are derived.

use vstd::prelude::*;
use vstd::string::*;
use crate::paths::{join, join_spec};
use crate::random::os_random_bytes;
use crate::vault::VaultError;

verus! {

/// Name of the device secret file in the home directory.
pub const DEVICE_SECRET_FILENAME: &'static str = ".ekka-device-secret";

/// Size of the device secret in bytes (256 bits).
pub const DEVICE_SECRET_SIZE: usize = 32;

/// The device secret file: `<home>/.ekka-device-secret`.
pub fn device_secret_path(home: &str) -> (r: String)
    ensures
        r@ == join_spec(home@, DEVICE_SECRET_FILENAME@),
{
    join(home, DEVICE_SECRET_FILENAME)
}

/// A fresh device secret, for a home that has none yet; an error when the
/// operating system's generator fails.
pub fn new_device_secret() -> (r: Result<Vec<u8>, VaultError>)
    ensures
        r matches Ok(s) ==> s@.len() == DEVICE_SECRET_SIZE,
        r matches Err(e) ==> e is Crypto,
{
    match os_random_bytes(DEVICE_SECRET_SIZE) {
        Some(b) => Ok(b),
        None => Err(VaultError::Crypto(String::from_str("random generator unavailable"))),
    }
}

/// The device secret held by the contents of an existing secret file: its
/// first 32 bytes. A shorter file is an error.
pub fn device_secret_from_file(contents: &Vec<u8>) -> (r: Result<Vec<u8>, VaultError>)
    ensures
        contents@.len() < DEVICE_SECRET_SIZE ==> (r matches Err(
            VaultError::DeviceSecretTooShort(n),
        ) && n == contents@.len()),
        contents@.len() >= DEVICE_SECRET_SIZE ==> (r matches Ok(s) && s@ == contents@.subrange(
            0,
            DEVICE_SECRET_SIZE as int,
        )),
{
    if contents.len() < DEVICE_SECRET_SIZE {
        return Err(VaultError::DeviceSecretTooShort(contents.len()));
    }
    let mut secret: Vec<u8> = Vec::new();
    let mut i: usize = 0;
    while i < DEVICE_SECRET_SIZE
        invariant
            i <= DEVICE_SECRET_SIZE <= contents@.len(),
            secret@ == contents@.subrange(0, i as int),
        decreases DEVICE_SECRET_SIZE - i,
    {
        secret.push(contents[i]);
        i = i + 1;
    }
    Ok(secret)
}

} // verus!
