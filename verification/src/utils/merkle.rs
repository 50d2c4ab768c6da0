use vstd::prelude::*;

use rs_merkle::algorithms::Sha256;
use rs_merkle::{MerkleProof, MerkleTree};

use crate::utils::hexcode::spec_hex_lower;

verus! {

/// The hex text of every node of a Merkle tree, as it is written out.
pub struct MerkleTreeJson {
    pub nodes: Vec<String>,
}

/// A `rs_merkle::MerkleTree` over SHA-256. Verus refuses a declaration of
/// that generic type (its parameter is bound by a trait of the crate), so the
/// tree is held in a private field, and only the wrappers below touch it.
#[verifier::external_body]
pub struct LeafTree {
    tree: MerkleTree<Sha256>,
}

/// A `rs_merkle::MerkleProof` over SHA-256, held as [`LeafTree`] is.
#[verifier::external_body]
pub struct LeafProof {
    proof: MerkleProof<Sha256>,
}

/// The committed leaves of a tree, in order: those that its root is built from.
pub uninterp spec fn committed_leaves(tree: LeafTree) -> Seq<Seq<u8>>;

/// The leaves inserted into a tree since its last commit, in order.
pub uninterp spec fn pending_leaves(tree: LeafTree) -> Seq<Seq<u8>>;

/// The root that `rs_merkle` computes for a tree whose committed leaves are
/// `leaves`. It depends on the leaves alone: the crate builds a tree from
/// leaves by inserting and committing them, and documents that committing
/// gives the root that the leaves have together.
pub uninterp spec fn merkle_root_of(leaves: Seq<Seq<u8>>) -> Seq<u8>;

/// The proof hashes that `rs_merkle` gives for `indices` in a tree whose
/// committed leaves are `leaves`.
pub uninterp spec fn merkle_proof_of(leaves: Seq<Seq<u8>>, indices: Seq<usize>) -> Seq<Seq<u8>>;

/// The hashes that a proof holds, in order.
pub uninterp spec fn proof_hashes(proof: LeafProof) -> Seq<Seq<u8>>;

/// The views of a slice of 32-byte hashes.
pub open spec fn hash_views(hashes: Seq<[u8; 32]>) -> Seq<Seq<u8>> {
    hashes.map_values(|h: [u8; 32]| h@)
}

/// `MerkleTree::new`: a tree with no leaves, committed or pending.
#[verifier::external_body]
pub(crate) fn merkle_new() -> (tree: LeafTree)
    ensures
        committed_leaves(tree) == Seq::<Seq<u8>>::empty(),
        pending_leaves(tree) == Seq::<Seq<u8>>::empty(),
{
    LeafTree { tree: MerkleTree::<Sha256>::new() }
}

/// `MerkleTree::from_leaves`: a tree whose committed leaves are `leaves`, in
/// order, with nothing pending.
#[verifier::external_body]
pub(crate) fn merkle_from_leaves(leaves: &[[u8; 32]]) -> (tree: LeafTree)
    ensures
        committed_leaves(tree) == hash_views(leaves@),
        pending_leaves(tree) == Seq::<Seq<u8>>::empty(),
{
    LeafTree { tree: MerkleTree::<Sha256>::from_leaves(leaves) }
}

/// `MerkleTree::insert`: appends `leaf` to the pending leaves; the committed
/// leaves stay as they were.
#[verifier::external_body]
pub(crate) fn merkle_insert(tree: &mut LeafTree, leaf: [u8; 32])
    ensures
        committed_leaves(*final(tree)) == committed_leaves(*old(tree)),
        pending_leaves(*final(tree)) == pending_leaves(*old(tree)).push(leaf@),
{
    tree.tree.insert(leaf);
}

/// `MerkleTree::commit`: the pending leaves are appended to the committed
/// ones, in order, and nothing is left pending.
#[verifier::external_body]
pub(crate) fn merkle_commit(tree: &mut LeafTree)
    ensures
        committed_leaves(*final(tree)) == committed_leaves(*old(tree)) + pending_leaves(*old(tree)),
        pending_leaves(*final(tree)) == Seq::<Seq<u8>>::empty(),
{
    tree.tree.commit();
}

/// `MerkleTree::root`: `None` for a tree with no committed leaves, else the
/// root of the committed leaves.
#[verifier::external_body]
pub(crate) fn merkle_root(tree: &LeafTree) -> (res: Option<[u8; 32]>)
    ensures
        res is None <==> committed_leaves(*tree).len() == 0,
        res matches Some(r) ==> r@ == merkle_root_of(committed_leaves(*tree)),
{
    tree.tree.root()
}

/// `MerkleTree::root_hex`: as `MerkleTree::root`, in lower-case hex.
#[verifier::external_body]
pub(crate) fn merkle_root_hex(tree: &LeafTree) -> (res: Option<String>)
    ensures
        res is None <==> committed_leaves(*tree).len() == 0,
        res matches Some(r) ==> r@ == spec_hex_lower(merkle_root_of(committed_leaves(*tree))),
{
    tree.tree.root_hex()
}

/// `MerkleTree::proof`: the proof for the leaves at `indices` of the
/// committed tree; it holds 32-byte hashes.
#[verifier::external_body]
pub(crate) fn merkle_proof(tree: &LeafTree, indices: &[usize]) -> (proof: LeafProof)
    ensures
        proof_hashes(proof) == merkle_proof_of(committed_leaves(*tree), indices@),
        forall|i: int| 0 <= i < proof_hashes(proof).len() ==> #[trigger] proof_hashes(proof)[i].len() == 32,
{
    LeafProof { proof: tree.tree.proof(indices) }
}

/// `MerkleProof::to_bytes`: the proof's hashes, concatenated in order.
#[verifier::external_body]
pub(crate) fn proof_to_bytes(proof: &LeafProof) -> (res: Vec<u8>)
    ensures
        res@ == proof_hashes(*proof).flatten(),
{
    proof.proof.to_bytes()
}

} // verus!
