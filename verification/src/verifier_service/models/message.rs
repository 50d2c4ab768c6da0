//! The message as the verifying service reads it.
use vstd::prelude::*;

verus! {

/// A message on a tree; its body is shown only after the due date.
pub struct Message {
    pub ornament_id: u32,
    pub nickname: String,
    pub friendship_proof: String,
    pub merkle_root: String,
    pub body: Option<String>,
}

} // verus!
