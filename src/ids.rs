//! UUIDs as 128-bit values, read and written through the `uuid` crate.

use vstd::prelude::*;
use vstd::arithmetic::power::pow;
use crate::random::os_random_bytes;

verus! {

/// The value of a UUID written in any form that `uuid` reads, if `s` is one.
pub uninterp spec fn uuid_parse(s: Seq<char>) -> Option<u128>;

/// A hexadecimal digit in lower case.
pub open spec fn hex_digit_char(d: int) -> char {
    seq!['0', '1', '2', '3', '4', '5', '6', '7', '8', '9', 'a', 'b', 'c', 'd', 'e', 'f'][d]
}

/// The `i`-th hexadecimal digit of `v`, counted from the most significant (0) to the least (31).
pub open spec fn nibble(v: u128, i: int) -> int {
    ((v as int) / pow(16, (31 - i) as nat)) % 16
}

/// Which hexadecimal digit stands at character position `k` of the hyphenated form.
pub open spec fn digit_index(k: int) -> int {
    if k < 8 {
        k
    } else if k < 13 {
        k - 1
    } else if k < 18 {
        k - 2
    } else if k < 23 {
        k - 3
    } else {
        k - 4
    }
}

/// The hyphenated lower-case text of a UUID value: its 32 hexadecimal digits,
/// most significant first, in groups of 8, 4, 4, 4 and 12 joined by `-`.
pub open spec fn uuid_text(v: u128) -> Seq<char> {
    Seq::new(
        36,
        |k: int|
            if k == 8 || k == 13 || k == 18 || k == 23 {
                '-'
            } else {
                hex_digit_char(nibble(v, digit_index(k)))
            },
    )
}

/// Relies on `uuid::Uuid::parse_str` (hyphenated, simple, braced or URN form)
/// and `Uuid::as_u128`.
#[verifier::external_body]
pub(crate) fn parse_uuid(s: &str) -> (r: Option<u128>)
    ensures
        r == uuid_parse(s@),
{
    uuid::Uuid::parse_str(s).ok().map(|u| u.as_u128())
}

/// Relies on `uuid::Uuid::from_u128` and `Uuid`'s `Display`, which writes the
/// hyphenated lower-case form; `Uuid::parse_str` reads that form back.
#[verifier::external_body]
pub(crate) fn format_uuid(v: u128) -> (r: String)
    ensures
        r@ == uuid_text(v),
        uuid_parse(r@) == Some(v),
{
    uuid::Uuid::from_u128(v).to_string()
}

/// Relies on `uuid::Builder::from_random_bytes`, which sets the version 4
/// and variant bits, and `Uuid`'s `Display`: 36 characters.
#[verifier::external_body]
fn uuid_v4_text(random: &Vec<u8>) -> (r: String)
    requires
        random@.len() == 16,
    ensures
        r@.len() == 36,
{
    let mut raw = [0u8; 16];
    raw.copy_from_slice(random);
    uuid::Builder::from_random_bytes(raw).into_uuid().to_string()
}

/// The hyphenated text of a UUID value.
pub fn uuid_to_text(v: u128) -> (r: String)
    ensures
        r@ == uuid_text(v),
        uuid_parse(r@) == Some(v),
{
    format_uuid(v)
}

/// A fresh random (version 4) UUID in hyphenated form, for request and
/// correlation ids; `None` when the operating system's generator fails.
pub fn new_request_id() -> (r: Option<String>)
    ensures
        r matches Some(s) ==> s@.len() == 36,
{
    match os_random_bytes(16) {
        Some(b) => Some(uuid_v4_text(&b)),
        None => None,
    }
}

} // verus!
