//! Instants as milliseconds since the Unix epoch, read through `chrono`.

use vstd::prelude::*;

verus! {

/// Milliseconds since the Unix epoch of an RFC 3339 date-time, if `s` is one.
pub uninterp spec fn rfc3339_millis(s: Seq<char>) -> Option<i64>;

/// Relies on `chrono::DateTime::parse_from_rfc3339` and `DateTime::timestamp_millis`.
#[verifier::external_body]
pub(crate) fn parse_rfc3339_millis(s: &str) -> (r: Option<i64>)
    ensures
        r == rfc3339_millis(s@),
{
    chrono::DateTime::parse_from_rfc3339(s).ok().map(|d| d.timestamp_millis())
}

} // verus!
