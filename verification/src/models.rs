//! The message and tree as clients see them.
use vstd::prelude::*;

verus! {

/// A message on a tree; its body is shown only after the due date.
pub struct Message {
    pub ornament_id: u32,
    pub nickname: String,
    pub friendship_proof: String,
    pub merkle_root: String,
    pub body: Option<String>,
}

/// A tree of an account.
pub struct Tree {
    pub account_id: String,
    pub account_hash: String,
    pub merkle_root: String,
}

} // verus!
