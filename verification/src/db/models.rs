//! The stored records: trees and messages.
use vstd::prelude::*;

verus! {

#[verifier::external_type_specification]
#[verifier::external_body]
pub struct ExNaiveDateTime(chrono::NaiveDateTime);

/// A stored tree: one per account.
pub struct Tree {
    pub account_hash: String,
    pub account_id: String,
    pub merkle_root: String,
    pub proof_file_id: String,
    pub created_at: chrono::NaiveDateTime,
}

/// A tree to store.
pub struct NewTree {
    pub account_hash: String,
    pub account_id: String,
    pub merkle_root: String,
    pub proof_file_id: String,
}

/// A stored message.
pub struct Message {
    pub hash: String,
    pub merkle_idx: i32,
    pub merkle_proof: String,
    pub ornament_id: i32,
    pub nickname: String,
    pub body: String,
}

/// A message to store.
pub struct NewMessage {
    pub hash: String,
    pub merkle_idx: i32,
    pub merkle_proof: String,
    pub parent_account_hash: String,
    pub ornament_id: i32,
    pub nickname: String,
    pub body: String,
    pub proof_file_id: String,
}

} // verus!
