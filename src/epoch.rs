//! The security epoch: the rotation counter that enters vault key derivation.
//! Precedence: an explicit override, then the instance marker, then 1.

use vstd::prelude::*;
use crate::json::{json_u64_member, u64_member};
use crate::paths::{join, join_spec};

verus! {

/// Name of the instance marker file in the home directory.
pub const MARKER_FILENAME: &'static str = ".ekka-marker.json";

/// The epoch used when neither an override nor a marker gives one.
pub const DEFAULT_EPOCH: u32 = 1;

/// Where a resolved epoch came from.
#[derive(Debug, Clone, Copy, PartialEq, Eq, Structural)]
pub enum EpochSource {
    Env,
    Marker,
    Default,
}

impl EpochSource {
    /// The source's lower-case name.
    pub fn name(&self) -> (r: &'static str)
        ensures
            *self == EpochSource::Env ==> r@ == "env"@,
            *self == EpochSource::Marker ==> r@ == "marker"@,
            *self == EpochSource::Default ==> r@ == "default"@,
    {
        match self {
            EpochSource::Env => "env",
            EpochSource::Marker => "marker",
            EpochSource::Default => "default",
        }
    }
}

/// The marker file: `<home>/.ekka-marker.json`.
pub fn marker_path(home: &str) -> (r: String)
    ensures
        r@ == join_spec(home@, MARKER_FILENAME@),
{
    join(home, MARKER_FILENAME)
}

/// The epoch a marker's text records in `epoch_seen`, if it is a
/// non-negative integer that fits in 32 bits; any other marker counts as corrupt.
pub open spec fn marker_epoch_spec(content: Seq<char>) -> Option<u32> {
    match json_u64_member(content, "epoch_seen"@) {
        Some(v) => if v <= u32::MAX {
            Some(v as u32)
        } else {
            None
        },
        None => None,
    }
}

/// Reads `epoch_seen` from the text of a marker file. Anything unreadable,
/// and a value too large for an epoch, gives `None`.
pub fn marker_epoch(content: &str) -> (r: Option<u32>)
    ensures
        r == marker_epoch_spec(content@),
{
    match u64_member(content, "epoch_seen") {
        Some(v) => if v <= u32::MAX as u64 {
            Some(v as u32)
        } else {
            None
        },
        None => None,
    }
}

/// The epoch and its source, from an override and a marker value.
pub open spec fn resolve_spec(env_epoch: Option<u32>, marker: Option<u32>) -> (u32, EpochSource) {
    match env_epoch {
        Some(e) => (e, EpochSource::Env),
        None => match marker {
            Some(m) => (m, EpochSource::Marker),
            None => (DEFAULT_EPOCH, EpochSource::Default),
        },
    }
}

/// Picks the epoch: the override if there is one, else the marker's value,
/// else the default.
pub fn resolve_from_values(env_epoch: Option<u32>, marker: Option<u32>) -> (r: (u32, EpochSource))
    ensures
        r == resolve_spec(env_epoch, marker),
{
    match env_epoch {
        Some(e) => (e, EpochSource::Env),
        None => match marker {
            Some(m) => (m, EpochSource::Marker),
            None => (DEFAULT_EPOCH, EpochSource::Default),
        },
    }
}

/// Resolves the epoch and its source from the process override and the text
/// of the marker file, if there is one. Never fails: an unreadable marker
/// counts as none.
pub fn resolve_with_source(env_epoch: Option<u32>, marker_content: Option<&str>) -> (r: (
    u32,
    EpochSource,
))
    ensures
        r == resolve_spec(
            env_epoch,
            match marker_content {
                Some(c) => marker_epoch_spec(c@),
                None => None,
            },
        ),
{
    let marker = match marker_content {
        Some(c) => marker_epoch(c),
        None => None,
    };
    resolve_from_values(env_epoch, marker)
}

/// The epoch alone, resolved as `resolve_with_source` does.
pub fn resolve_security_epoch(env_epoch: Option<u32>, marker_content: Option<&str>) -> (r: u32)
    ensures
        r == resolve_spec(
            env_epoch,
            match marker_content {
                Some(c) => marker_epoch_spec(c@),
                None => None,
            },
        ).0,
{
    resolve_with_source(env_epoch, marker_content).0
}

/// Whether every character of `s` is an ASCII digit.
pub open spec fn all_digits(s: Seq<char>) -> bool {
    forall|i: int| 0 <= i < s.len() ==> '0' <= #[trigger] s[i] <= '9'
}

/// The number written by a string of decimal digits.
pub open spec fn digits_value(s: Seq<char>) -> nat
    decreases s.len(),
{
    if s.len() == 0 {
        0
    } else {
        digits_value(s.drop_last()) * 10 + (s.last() as nat - '0' as nat) as nat
    }
}

/// The digits of an override: the text without one leading `+`.
pub open spec fn override_digits(s: Seq<char>) -> Seq<char> {
    if s.len() > 0 && s[0] == '+' {
        s.drop_first()
    } else {
        s
    }
}

/// The epoch an override text gives, read as `u32::from_str` reads it: an
/// optional `+`, then one or more decimal digits whose value fits in 32 bits.
pub open spec fn override_spec(s: Seq<char>) -> Option<u32> {
    let d = override_digits(s);
    if d.len() > 0 && all_digits(d) && digits_value(d) <= u32::MAX {
        Some(digits_value(d) as u32)
    } else {
        None
    }
}

proof fn lemma_digits_value_grows(d: Seq<char>, j: int, k: int)
    requires
        0 <= j <= k <= d.len(),
        all_digits(d),
    ensures
        digits_value(d.subrange(0, j)) <= digits_value(d.subrange(0, k)),
    decreases k - j,
{
    if j < k {
        lemma_digits_value_grows(d, j, k - 1);
        assert(d.subrange(0, k).drop_last() =~= d.subrange(0, k - 1));
        assert('0' <= d[k - 1] <= '9');
    }
}

/// Reads an epoch override such as the process environment carries.
pub fn parse_epoch_override(s: &str) -> (r: Option<u32>)
    ensures
        r == override_spec(s@),
{
    let n = s.unicode_len();
    let mut i: usize = 0;
    if n > 0 && s.get_char(0) == '+' {
        i = 1;
    }
    let start = i;
    let ghost d = override_digits(s@);
    assert(d =~= s@.subrange(start as int, n as int));
    if start == n {
        return None;
    }
    let mut acc: u64 = 0;
    while i < n
        invariant
            n == s@.len(),
            start <= i <= n,
            d == s@.subrange(start as int, n as int),
            d == override_digits(s@),
            all_digits(d.subrange(0, i - start)),
            acc == digits_value(d.subrange(0, i - start)),
            acc <= u32::MAX,
        decreases n - i,
    {
        let c = s.get_char(i);
        let ghost prefix = d.subrange(0, i - start);
        let ghost next = d.subrange(0, i + 1 - start);
        assert(next.drop_last() =~= prefix);
        assert(d[i - start] == c);
        assert(next.last() == c);
        if c < '0' || c > '9' {
            assert(!all_digits(d));
            return None;
        }
        acc = acc * 10 + (c as u64 - '0' as u64);
        assert(acc == digits_value(next));
        assert(all_digits(next)) by {
            assert forall|k: int| 0 <= k < next.len() implies '0' <= #[trigger] next[k] <= '9' by {
                if k < prefix.len() {
                    assert(next[k] == prefix[k]);
                }
            }
        }
        if acc > u32::MAX as u64 {
            proof {
                if all_digits(d) {
                    lemma_digits_value_grows(d, i + 1 - start, d.len() as int);
                    assert(d.subrange(0, d.len() as int) =~= d);
                    assert(digits_value(d) > u32::MAX);
                }
                assert(override_spec(s@) is None);
            }
            return None;
        }
        i = i + 1;
    }
    assert(d.subrange(0, n - start) =~= d);
    Some(acc as u32)
}

} // verus!
