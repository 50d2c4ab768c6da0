use vstd::prelude::*;

use rs_merkle::Hasher;
use sha2::Digest;

verus! {

/// What `sha2::Sha256` computes on a byte string: its SHA-256 digest.
pub uninterp spec fn sha256_of(data: Seq<u8>) -> Seq<u8>;

/// `sha2::Sha256` (`new`, `update`, `finalize`): the 32-byte digest of
/// `data`, a function of `data` alone, named `sha256_of`.
#[verifier::external_body]
pub(crate) fn sha256_digest(data: &[u8]) -> (res: [u8; 32])
    ensures
        res@ == sha256_of(data@),
{
    let mut hasher = sha2::Sha256::new();
    hasher.update(data);
    hasher.finalize().into()
}

/// `rs_merkle::algorithms::Sha256::hash`: the crate computes it with
/// `sha2::Sha256` (`new`, `update`, `finalize_fixed`), so its result is the
/// same digest, `sha256_of(data)`.
#[verifier::external_body]
pub(crate) fn merkle_hash(data: &[u8]) -> (res: [u8; 32])
    ensures
        res@ == sha256_of(data@),
{
    rs_merkle::algorithms::Sha256::hash(data)
}

} // verus!
