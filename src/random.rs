//! Random bytes from the operating system.

use vstd::prelude::*;

verus! {

/// Largest number of random bytes asked for at once.
pub const MAX_RANDOM_BYTES: usize = 4096;

/// Relies on `rand::rngs::OsRng` and `RngCore::try_fill_bytes`: `n` bytes
/// from the operating system's cryptographic generator, or `None` when the
/// generator fails. Nothing else is known of the bytes.
#[verifier::external_body]
pub(crate) fn os_random_bytes(n: usize) -> (r: Option<Vec<u8>>)
    requires
        n <= MAX_RANDOM_BYTES,
    ensures
        r matches Some(v) ==> v@.len() == n,
{
    let mut bytes = vec![0u8; n];
    rand::RngCore::try_fill_bytes(&mut rand::rngs::OsRng, &mut bytes).ok()?;
    Some(bytes)
}

} // verus!
