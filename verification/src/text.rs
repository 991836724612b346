//! Byte/string conversion at the wire boundary.
//!
//! Wire records carry UTF-8 byte segments; the records the library hands
//! out carry `String`s. Decoding leans on one trusted wrapper around
//! `String::from_utf8`, whose contract is stated in `vstd`'s UTF-8 model;
//! encoding is fully specified by `vstd` already.

use vstd::prelude::*;

verus! {

/// Relies on `String::from_utf8`: it succeeds exactly on valid UTF-8
/// input, and the string it returns decodes those bytes.
#[verifier::external_body]
pub fn bytes_to_string(bytes: Vec<u8>) -> (r: Option<String>)
    ensures
        r is Some <==> vstd::utf8::valid_utf8(bytes@),
        r matches Some(s) ==> s@ == vstd::utf8::decode_utf8(bytes@),
{
    match String::from_utf8(bytes) {
        Ok(s) => Some(s),
        Err(_) => None,
    }
}

/// Appends the UTF-8 bytes of `s` to `out`.
pub fn push_str_bytes(out: &mut Vec<u8>, s: &str)
    ensures
        final(out)@ == old(out)@ + vstd::utf8::encode_utf8(s@),
{
    crate::tlv::push_bytes(out, s.as_bytes());
}

/// Copies sixteen bytes out of `src`, starting at `at`.
#[verifier::loop_isolation(false)]
pub fn read_bytes16(src: &[u8], at: usize) -> (r: [u8; 16])
    requires
        at + 16 <= src@.len(),
    ensures
        r@ =~= src@.subrange(at as int, at as int + 16),
{
    let n: usize = src.len();
    let mut r: [u8; 16] = [0; 16];
    let mut i: usize = 0;
    while i < 16
        invariant
            i <= 16,
            forall|j: int| 0 <= j < i ==> r@[j] == src@[at + j],
        decreases 16 - i,
    {
        r[i] = src[at + i];
        i += 1;
    }
    proof {
        assert(r@ =~= src@.subrange(at as int, at as int + 16));
    }
    r
}

} // verus!
