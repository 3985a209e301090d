//! Conversion of share paths into the null-terminated byte strings the
//! native layer expects, rejecting paths that hold an embedded NUL byte.

use vstd::prelude::*;
use crate::result::Error;

verus! {

/// Whether the byte sequence holds a NUL byte anywhere.
pub open spec fn has_nul(s: Seq<u8>) -> bool {
    exists|i: int| 0 <= i < s.len() && s[i] == 0u8
}

/// Converts a path into the null-terminated byte string handed to the
/// native layer. A path with an embedded NUL byte cannot be represented as
/// a C string, so it is rejected with `Error::NulInPath` carrying the index
/// of the first NUL, before any native call could be attempted; otherwise
/// the result is exactly the path with one terminating NUL byte appended.
pub fn to_c_path(path: &[u8]) -> (r: Result<Vec<u8>, Error>)
    ensures
        match r {
            Ok(v) => !has_nul(path@) && v@ == path@.push(0u8),
            Err(e) => {
                &&& has_nul(path@)
                &&& e matches Error::NulInPath(i)
                &&& 0 <= i < path@.len()
                &&& path@[i as int] == 0u8
                &&& forall|j: int| 0 <= j < i ==> path@[j] != 0u8
            },
        },
{
    let len = path.len();
    let mut out: Vec<u8> = Vec::new();
    let mut i: usize = 0;
    while i < len
        invariant
            len == path@.len(),
            0 <= i <= len,
            out@ == path@.take(i as int),
            forall|j: int| 0 <= j < i ==> path@[j] != 0u8,
        decreases len - i,
    {
        let b = path[i];
        if b == 0u8 {
            return Err(Error::NulInPath(i));
        }
        out.push(b);
        i += 1;
    }
    out.push(0u8);
    Ok(out)
}

} // verus!
