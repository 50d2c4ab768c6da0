//! The proof that a client sends with a request.
use vstd::prelude::*;

verus! {

/// A proof as the client sends it; `data` carries the account transcript.
pub struct ProofJson {
    pub data: String,
}

} // verus!
