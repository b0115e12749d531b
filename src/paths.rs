//! Paths under the node home directory, as text.

use vstd::prelude::*;
use vstd::string::*;

verus! {

/// `part` appended to `base` with one separator, as `Path::join` does for a relative part.
pub open spec fn join_spec(base: Seq<char>, part: Seq<char>) -> Seq<char> {
    if base.len() == 0 || base.last() == '/' {
        base + part
    } else {
        base + "/"@ + part
    }
}

/// Appends the relative path `part` to `base`.
pub fn join(base: &str, part: &str) -> (r: String)
    ensures
        r@ == join_spec(base@, part@),
{
    let n = base.unicode_len();
    let mut out = String::from_str(base);
    if n > 0 && base.get_char(n - 1) != '/' {
        out.append("/");
    }
    out.append(part);
    out
}

} // verus!
