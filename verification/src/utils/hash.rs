use vstd::prelude::*;

use crate::utils::hexcode::{hex_decode, lemma_hex_round_trip, spec_hex_decode, spec_hex_lower, spec_hex_upper};

verus! {

/// The error of [`string_to_hash`]: the text is not the hex form of a 32-byte hash.
#[derive(Debug, Clone, Copy, PartialEq, Eq, Structural)]
pub struct InvalidHash;

impl InvalidHash {
    /// The error's message, "Invalid hash".
    pub fn message(&self) -> (res: String)
        ensures
            res@ == "Invalid hash"@,
    {
        String::from_str("Invalid hash")
    }
}

/// The 32-byte hash that the text `s` is the hex form of, if it is one: the
/// UTF-8 bytes of `s` hex-decode (either case) to exactly 32 bytes.
pub open spec fn spec_string_to_hash(s: Seq<char>) -> Option<Seq<u8>> {
    match spec_hex_decode(vstd::utf8::encode_utf8(s)) {
        Some(bytes) => if bytes.len() == 32 {
            Some(bytes)
        } else {
            None
        },
        None => None,
    }
}

/// Parses the hex text of a 32-byte hash.
///
/// Returns `Ok` exactly when the text hex-decodes to 32 bytes, and then those
/// bytes; every other text is `Err(InvalidHash)`.
pub fn string_to_hash(s: &str) -> (res: Result<[u8; 32], InvalidHash>)
    ensures
        match res {
            Ok(h) => spec_string_to_hash(s@) == Some(h@),
            Err(_) => spec_string_to_hash(s@) is None,
        },
{
    let hash_vec = match hex_decode(s.as_bytes()) {
        Some(v) => v,
        None => return Err(InvalidHash),
    };
    if hash_vec.len() != 32 {
        return Err(InvalidHash);
    }
    let mut result = [0u8; 32];
    for i in 0..32
        invariant
            hash_vec@.len() == 32,
            forall|j: int| 0 <= j < i ==> result@[j] == hash_vec@[j],
    {
        result[i] = hash_vec[i];
    }
    assert(result@ =~= hash_vec@);
    Ok(result)
}

/// The hex text of a 32-byte hash, written in either case, parses back to
/// that hash.
pub proof fn law_hash_text_round_trip(h: Seq<u8>)
    requires
        h.len() == 32,
    ensures
        spec_string_to_hash(spec_hex_lower(h)) == Some(h),
        spec_string_to_hash(spec_hex_upper(h)) == Some(h),
{
    lemma_hex_round_trip(h);
}

} // verus!
