//! Input marshaling for the foreign interface.
//!
//! A path travels to the foreign decoder as a null-terminated byte string, so
//! text holding an interior null byte must be rejected before the call: the
//! foreign side would silently truncate it. An in-memory byte buffer needs no
//! such form; it is always passed with an explicit length, since image data
//! may legitimately contain null bytes.

use vstd::prelude::*;

verus! {

/// Message reported when a path cannot be represented as legal text.
pub open spec fn not_text_message() -> Seq<char> {
    "path is not valid text"@
}

/// Message reported when a path's text holds an interior null byte.
pub open spec fn embedded_nul_message() -> Seq<char> {
    "path contains an embedded null byte"@
}

/// True when a byte string is free of null bytes and can therefore survive
/// the round trip through a null-terminated foreign call unchanged.
pub open spec fn nul_free(s: Seq<u8>) -> bool {
    forall|i: int| 0 <= i < s.len() ==> s[i] != 0
}

/// The error message for a path that is not representable as legal text.
/// The check itself lives with the platform's path type, outside this crate;
/// only the reported message is owned here.
pub fn not_text_error() -> (m: String)
    ensures
        m@ == not_text_message(),
{
    "path is not valid text".to_owned()
}

/// Builds the null-terminated byte string the foreign interface expects from
/// a path's text, rejecting text that holds an interior null byte.
pub fn make_c_path(path: &[u8]) -> (r: Result<Vec<u8>, String>)
    ensures
        nul_free(path@) ==> (r matches Ok(v) && v@ == path@.push(0u8)),
        !nul_free(path@) ==> (r matches Err(m) && m@ == embedded_nul_message()),
{
    let mut out: Vec<u8> = Vec::new();
    let mut i: usize = 0;
    while i < path.len()
        invariant
            0 <= i <= path@.len(),
            out@ == path@.subrange(0, i as int),
            forall|j: int| 0 <= j < i ==> path@[j] != 0,
        decreases path@.len() - i,
    {
        let b = path[i];
        if b == 0 {
            assert(!nul_free(path@)) by {
                assert(path@[i as int] == 0);
            }
            return Err("path contains an embedded null byte".to_owned());
        }
        out.push(b);
        proof {
            assert(out@ =~= path@.subrange(0, i + 1 as int));
        }
        i = i + 1;
    }
    out.push(0);
    proof {
        assert(path@.subrange(0, path@.len() as int) =~= path@);
        assert(out@ =~= path@.push(0u8));
    }
    Ok(out)
}

} // verus!
