//! Creating the tree of an account.
use vstd::prelude::*;

use crate::db::models::{NewTree, Tree};
use crate::routes::{must_be_absent, ErrorStatus, Lookup};
use crate::utils::digest::{sha256_digest, sha256_of};
use crate::utils::hash::string_to_hash;
use crate::utils::hexcode::{hex_encode_upper, lemma_hex_round_trip, spec_hex_lower, spec_hex_upper};
use crate::utils::merkle::{
    committed_leaves, merkle_commit, merkle_insert, merkle_new, merkle_root_hex, merkle_root_of,
};
use crate::utils::proof_json::ProofJson;
use crate::utils::transcript::{screen_name, spec_screen_name};

verus! {

/// A request to create the tree of the account that the proof is of.
pub struct CreateTree {
    pub account_proof: ProofJson,
}

/// A tree as it is answered to clients.
pub struct TreeResponse {
    pub account_id: String,
    pub account_hash: String,
    pub merkle_root: String,
}

/// The account that a transcript is of.
pub struct Account {
    /// The account's screen name.
    pub screen_name: String,
    /// The SHA-256 of the screen name, in upper-case hex.
    pub account_hash: String,
    /// The SHA-256 of the screen name.
    pub account_hash_bytes: [u8; 32],
}

/// The SHA-256 of a screen name's UTF-8 bytes.
pub open spec fn spec_account_digest(name: Seq<char>) -> Seq<u8> {
    sha256_of(vstd::utf8::encode_utf8(name))
}

/// The account that the transcript is of; a transcript that gives no screen
/// name is refused as bad.
pub fn account_from_proof(decoded_proof: &str) -> (res: Result<Account, ErrorStatus>)
    ensures
        match spec_screen_name(decoded_proof@) {
            None => res == Err::<Account, ErrorStatus>(ErrorStatus::BadRequest),
            Some(name) => res matches Ok(account) && {
                &&& account.screen_name@ == name
                &&& account.account_hash@ == spec_hex_upper(spec_account_digest(name))
                &&& account.account_hash_bytes@ == spec_account_digest(name)
            },
        },
        res matches Ok(account) ==> {
            &&& account.account_hash_bytes@ == sha256_of(vstd::utf8::encode_utf8(account.screen_name@))
            &&& account.account_hash@ == spec_hex_upper(sha256_of(vstd::utf8::encode_utf8(account.screen_name@)))
        },
{
    let name = match screen_name(decoded_proof) {
        Some(name) => name,
        None => return Err(ErrorStatus::BadRequest),
    };
    let digest = sha256_digest(name.as_str().as_bytes());
    let account_hash = hex_encode_upper(digest.as_slice());
    proof {
        lemma_hex_round_trip(digest@);
    }
    let account_hash_bytes = match string_to_hash(account_hash.as_str()) {
        Ok(h) => h,
        Err(_) => return Err(ErrorStatus::BadRequest),
    };
    Ok(Account { screen_name: name, account_hash, account_hash_bytes })
}

/// The root, in lower-case hex, of a new tree whose only leaf is the account hash.
pub fn initial_merkle_root(account_hash_bytes: [u8; 32]) -> (res: Result<String, ErrorStatus>)
    ensures
        res matches Ok(root) && root@ == spec_hex_lower(merkle_root_of(seq![account_hash_bytes@])),
{
    let mut tree = merkle_new();
    merkle_insert(&mut tree, account_hash_bytes);
    merkle_commit(&mut tree);
    assert(committed_leaves(tree) =~= seq![account_hash_bytes@]);
    match merkle_root_hex(&tree) {
        Some(root) => Ok(root),
        None => Err(ErrorStatus::InternalServerError),
    }
}

/// The record of a new tree.
pub fn new_tree(account: Account, merkle_root: String, proof_file_id: String) -> (res: NewTree)
    ensures
        res.account_id == account.screen_name,
        res.account_hash == account.account_hash,
        res.merkle_root == merkle_root,
        res.proof_file_id == proof_file_id,
{
    NewTree {
        account_id: account.screen_name,
        account_hash: account.account_hash,
        merkle_root,
        proof_file_id,
    }
}

/// The answer for a stored tree.
pub fn tree_response(tree: Tree) -> (res: TreeResponse)
    ensures
        res.account_id == tree.account_id,
        res.account_hash == tree.account_hash,
        res.merkle_root == tree.merkle_root,
{
    TreeResponse { account_id: tree.account_id, account_hash: tree.account_hash, merkle_root: tree.merkle_root }
}

/// Where a request to create a tree stands.
pub enum CreateStep {
    /// The transcript gave the account; its tree must not exist yet.
    AwaitExisting { account: Account },
    /// No tree exists; the account proof is uploaded.
    AwaitUpload { account: Account, merkle_root: String },
    /// The proof was uploaded; the tree is stored.
    AwaitStore,
    /// The request was answered.
    Finished,
}

/// What the outside world reports back to a request to create a tree.
pub enum CreateEvent {
    /// The lookup of an existing tree of the account.
    TreeLookedUp(Lookup<Tree>),
    /// The id of the uploaded proof, or `None` when the upload failed.
    ProofUploaded(Option<String>),
    /// The stored tree, or `None` when storing failed.
    TreeStored(Option<Tree>),
}

/// What a request to create a tree asks the outside world to do next.
pub enum CreateAction {
    /// Look up the tree of this account hash.
    LookUpTree(String),
    /// Upload the account proof under this file name.
    UploadProof(String),
    /// Store this tree.
    StoreTree(NewTree),
    /// Answer with this tree.
    Respond(TreeResponse),
    /// Refuse the request.
    Refuse(ErrorStatus),
}

/// The event that `step` waits for is of the kind of `event`.
pub open spec fn create_awaits(step: CreateStep, event: CreateEvent) -> bool {
    match step {
        CreateStep::AwaitExisting { .. } => event is TreeLookedUp,
        CreateStep::AwaitUpload { .. } => event is ProofUploaded,
        CreateStep::AwaitStore => event is TreeStored,
        CreateStep::Finished => false,
    }
}

/// `account` is the account of the screen name `name`.
pub open spec fn account_of(account: Account, name: Seq<char>) -> bool {
    &&& account.screen_name@ == name
    &&& account.account_hash@ == spec_hex_upper(spec_account_digest(name))
    &&& account.account_hash_bytes@ == spec_account_digest(name)
}

/// Starts a request to create the tree of the account that the transcript
/// is of: a transcript that gives no screen name is refused as bad; else the
/// account's tree is looked up.
pub fn start_create(decoded_proof: &str) -> (res: (CreateStep, CreateAction))
    ensures
        match spec_screen_name(decoded_proof@) {
            None => res.0 is Finished && res.1 == CreateAction::Refuse(ErrorStatus::BadRequest),
            Some(name) => {
                &&& (res.0 matches CreateStep::AwaitExisting { account } && account_of(account, name))
                &&& (res.1 matches CreateAction::LookUpTree(a) && a@ == spec_hex_upper(spec_account_digest(name)))
            },
        },
{
    match account_from_proof(decoded_proof) {
        Err(e) => (CreateStep::Finished, CreateAction::Refuse(e)),
        Ok(account) => {
            let hash = account.account_hash.clone();
            (CreateStep::AwaitExisting { account }, CreateAction::LookUpTree(hash))
        },
    }
}

/// Takes a request to create a tree one step on. An existing tree is a
/// conflict and a failed lookup an internal error (see [`must_be_absent`]);
/// else the new tree's root is that of the account hash as its only leaf,
/// the proof is uploaded under the account hash, and the tree is stored with
/// the uploaded file's id. A failed upload or store is an internal error. The
/// answer is the stored tree.
pub fn create_step(step: CreateStep, event: CreateEvent) -> (res: (CreateStep, CreateAction))
    requires
        create_awaits(step, event),
    ensures
        (res.1 is Respond || res.1 is Refuse) <==> res.0 is Finished,
        match (step, event) {
            (CreateStep::AwaitExisting { account }, CreateEvent::TreeLookedUp(lookup)) => match lookup {
                Lookup::Found(_) => res.1 == CreateAction::Refuse(ErrorStatus::Conflict),
                Lookup::Failed => res.1 == CreateAction::Refuse(ErrorStatus::InternalServerError),
                Lookup::NotFound => {
                    &&& (res.0 matches CreateStep::AwaitUpload { account: a, merkle_root } && a == account
                        && merkle_root@ == spec_hex_lower(merkle_root_of(seq![account.account_hash_bytes@])))
                    &&& (res.1 matches CreateAction::UploadProof(name) && name@ == account.account_hash@)
                },
            },
            (CreateStep::AwaitUpload { account, merkle_root }, CreateEvent::ProofUploaded(uploaded)) => match uploaded {
                None => res.1 == CreateAction::Refuse(ErrorStatus::InternalServerError),
                Some(file_id) => {
                    &&& res.0 is AwaitStore
                    &&& (res.1 matches CreateAction::StoreTree(t) && {
                        &&& t.account_id@ == account.screen_name@
                        &&& t.account_hash@ == account.account_hash@
                        &&& t.merkle_root@ == merkle_root@
                        &&& t.proof_file_id@ == file_id@
                    })
                },
            },
            (CreateStep::AwaitStore, CreateEvent::TreeStored(stored)) => match stored {
                None => res.1 == CreateAction::Refuse(ErrorStatus::InternalServerError),
                Some(tree) => (res.1 matches CreateAction::Respond(r) && {
                    &&& r.account_id == tree.account_id
                    &&& r.account_hash == tree.account_hash
                    &&& r.merkle_root == tree.merkle_root
                }),
            },
            _ => false,
        },
{
    match step {
        CreateStep::AwaitExisting { account } => {
            let lookup = match event {
                CreateEvent::TreeLookedUp(lookup) => lookup,
                _ => return (CreateStep::Finished, CreateAction::Refuse(ErrorStatus::InternalServerError)),
            };
            if let Err(e) = must_be_absent(lookup) {
                return (CreateStep::Finished, CreateAction::Refuse(e));
            }
            match initial_merkle_root(account.account_hash_bytes) {
                Err(e) => (CreateStep::Finished, CreateAction::Refuse(e)),
                Ok(merkle_root) => {
                    let name = account.account_hash.clone();
                    (CreateStep::AwaitUpload { account, merkle_root }, CreateAction::UploadProof(name))
                },
            }
        },
        CreateStep::AwaitUpload { account, merkle_root } => {
            let uploaded = match event {
                CreateEvent::ProofUploaded(uploaded) => uploaded,
                _ => return (CreateStep::Finished, CreateAction::Refuse(ErrorStatus::InternalServerError)),
            };
            match uploaded {
                None => (CreateStep::Finished, CreateAction::Refuse(ErrorStatus::InternalServerError)),
                Some(file_id) => (CreateStep::AwaitStore, CreateAction::StoreTree(new_tree(account, merkle_root, file_id))),
            }
        },
        CreateStep::AwaitStore => {
            let stored = match event {
                CreateEvent::TreeStored(stored) => stored,
                _ => return (CreateStep::Finished, CreateAction::Refuse(ErrorStatus::InternalServerError)),
            };
            match stored {
                None => (CreateStep::Finished, CreateAction::Refuse(ErrorStatus::InternalServerError)),
                Some(tree) => (CreateStep::Finished, CreateAction::Respond(tree_response(tree))),
            }
        },
        CreateStep::Finished => (CreateStep::Finished, CreateAction::Refuse(ErrorStatus::InternalServerError)),
    }
}

/// An account is known by the SHA-256 of the UTF-8 bytes of its whole screen
/// name: two names give the same digest only where SHA-256 itself does.
pub proof fn law_account_digest_hashes_whole_name(name: Seq<char>)
    ensures
        spec_account_digest(name) == sha256_of(vstd::utf8::encode_utf8(name)),
        spec_hex_upper(spec_account_digest(name)) == spec_hex_upper(sha256_of(vstd::utf8::encode_utf8(name))),
{
}

} // verus!
