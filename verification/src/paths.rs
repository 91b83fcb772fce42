//! File paths, held as the bytes that the system spells them in. A path
//! need not be text.

use vstd::prelude::*;
use vstd::utf8::encode_utf8;

verus! {

/// The path `p` with the UTF-8 bytes of `s` appended. Nothing is put
/// between the two: no separator, and no dot unless `s` brings one. The
/// bytes of `p` stay as they are, text or not.
pub fn append_to_path(p: Vec<u8>, s: &str) -> (r: Vec<u8>)
    ensures
        r@ == p@ + encode_utf8(s@),
{
    let mut r = p;
    r.extend_from_slice(s.as_bytes());
    assert(r@ =~= p@ + encode_utf8(s@));
    r
}

} // verus!
