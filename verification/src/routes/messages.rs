//! Reading the messages of a tree, and writing a new one.
use vstd::prelude::*;

use crate::db::models::{Message, NewMessage, Tree};
use crate::routes::trees::spec_account_digest;
use crate::routes::{found_or_empty, must_be_found, root_update_outcome, ErrorStatus, Lookup};
use crate::utils::digest::{merkle_hash, sha256_of};
use crate::utils::hash::{law_hash_text_round_trip, spec_string_to_hash, string_to_hash, InvalidHash};
use crate::utils::hexcode::{hex_encode, spec_hex_lower};
use crate::utils::merkle::{
    committed_leaves, hash_views, merkle_commit, merkle_from_leaves, merkle_insert, merkle_proof,
    merkle_proof_of, merkle_root, merkle_root_hex, merkle_root_of, proof_to_bytes,
};
use crate::utils::proof_json::ProofJson;
use crate::utils::transcript::{mutual_follow, screen_name, spec_mutual_follow, spec_screen_name};

verus! {

/// A message as it is answered to clients.
pub struct MessageResponse {
    pub hash: String,
    pub ornament_id: i32,
    pub nickname: String,
    pub merkle_root: String,
    pub merkle_idx: i32,
    pub merkle_proof: String,
    pub body: Option<String>,
}

/// A request to see the messages of a tree with their bodies.
pub struct RevealTreeMessages {
    pub account_proof: ProofJson,
}

/// A request to write a message on a tree.
pub struct CreateMessage {
    pub ornament_id: i32,
    pub nickname: String,
    pub body: String,
    pub friendship_proof: ProofJson,
}

/// What storing a new message takes, once it has been accepted.
pub struct MessagePlan {
    /// The message hash, in lower-case hex.
    pub hash: String,
    /// The message's index: the number of messages before it.
    pub merkle_idx: i32,
    /// The serialized Merkle proof, in lower-case hex.
    pub merkle_proof: String,
    /// The tree's new root, in lower-case hex.
    pub merkle_root: String,
}

/// `r` answers the stored message `m` on a tree whose root is `root`; the
/// body is shown exactly when `reveal` holds.
pub open spec fn answers(r: MessageResponse, m: Message, root: Seq<char>, reveal: bool) -> bool {
    &&& r.hash@ == m.hash@
    &&& r.ornament_id == m.ornament_id
    &&& r.nickname@ == m.nickname@
    &&& r.merkle_root@ == root
    &&& r.merkle_idx == m.merkle_idx
    &&& r.merkle_proof@ == m.merkle_proof@
    &&& match r.body {
        Some(b) => (reveal && b@ == m.body@),
        None => !reveal,
    }
}

/// The answer for one stored message.
pub fn message_response(message: &Message, merkle_root: &String, reveal: bool) -> (res: MessageResponse)
    ensures
        answers(res, *message, merkle_root@, reveal),
        res.hash@ == message.hash@,
        res.merkle_idx == message.merkle_idx,
        res.merkle_proof@ == message.merkle_proof@,
        res.merkle_root@ == merkle_root@,
{
    MessageResponse {
        hash: message.hash.clone(),
        ornament_id: message.ornament_id,
        nickname: message.nickname.clone(),
        merkle_root: merkle_root.clone(),
        merkle_idx: message.merkle_idx,
        merkle_proof: message.merkle_proof.clone(),
        body: if reveal {
            Some(message.body.clone())
        } else {
            None
        },
    }
}

/// The answers for the stored messages of a tree, in order.
pub fn messages_response(messages: &Vec<Message>, merkle_root: &String, reveal: bool) -> (res: Vec<
    MessageResponse,
>)
    ensures
        res@.len() == messages@.len(),
        forall|i: int| 0 <= i < messages@.len() ==> answers(#[trigger] res@[i], messages@[i], merkle_root@, reveal),
        forall|i: int|
            0 <= i < messages@.len() ==> (#[trigger] res@[i]).merkle_proof@ == messages@[i].merkle_proof@
                && res@[i].hash@ == messages@[i].hash@ && res@[i].merkle_idx == messages@[i].merkle_idx,
{
    let mut res: Vec<MessageResponse> = Vec::new();
    for i in 0..messages.len()
        invariant
            res@.len() == i,
            forall|k: int| 0 <= k < i ==> answers(#[trigger] res@[k], messages@[k], merkle_root@, reveal),
    {
        res.push(message_response(&messages[i], merkle_root, reveal));
    }
    res
}

/// The lower-case hex of the hash that the account with screen name `name` is
/// known by when messages are read and written.
pub open spec fn spec_account_hash_hex(name: Seq<char>) -> Seq<char> {
    spec_hex_lower(spec_account_digest(name))
}

/// Whether a request to see the bodies of the tree `account_hash` comes with
/// a transcript of that account: it must give a screen name, whose account
/// hash is `account_hash`.
pub fn check_reveal_request(decoded_proof: &str, account_hash: &str) -> (res: Result<(), ErrorStatus>)
    ensures
        res == match spec_screen_name(decoded_proof@) {
            None => Err(ErrorStatus::BadRequest),
            Some(name) => if spec_account_hash_hex(name) == account_hash@ {
                Ok(())
            } else {
                Err(ErrorStatus::BadRequest)
            },
        },
{
    let name = match screen_name(decoded_proof) {
        Some(name) => name,
        None => return Err(ErrorStatus::BadRequest),
    };
    let parsed = hex_encode(merkle_hash(name.as_str().as_bytes()).as_slice());
    let expected = account_hash.to_owned();
    if parsed == expected {
        Ok(())
    } else {
        Err(ErrorStatus::BadRequest)
    }
}

/// The answer to a request to write on the tree `account_hash` with the
/// transcript `decoded`: the transcript must show that the accounts follow each
/// other and give a screen name whose account hash is `account_hash`; then the
/// account hash's bytes.
pub open spec fn spec_check_message(decoded: Seq<char>, account_hash: Seq<char>) -> Result<Seq<u8>, ErrorStatus> {
    if !spec_mutual_follow(decoded) {
        Err(ErrorStatus::BadRequest)
    } else {
        match spec_screen_name(decoded) {
            None => Err(ErrorStatus::BadRequest),
            Some(name) => if spec_account_hash_hex(name) == account_hash {
                Ok(spec_account_digest(name))
            } else {
                Err(ErrorStatus::BadRequest)
            },
        }
    }
}

/// Whether a request to write on the tree `account_hash` comes with a
/// transcript that shows the accounts follow each other and that is of that
/// account (see [`spec_check_message`]). On success, the account hash's bytes.
pub fn check_message_request(decoded_proof: &str, account_hash: &str) -> (res: Result<[u8; 32], ErrorStatus>)
    ensures
        match res {
            Ok(h) => spec_check_message(decoded_proof@, account_hash@) == Ok::<Seq<u8>, ErrorStatus>(h@),
            Err(e) => spec_check_message(decoded_proof@, account_hash@) == Err::<Seq<u8>, ErrorStatus>(e),
        },
{
    if !mutual_follow(decoded_proof) {
        return Err(ErrorStatus::BadRequest);
    }
    let name = match screen_name(decoded_proof) {
        Some(name) => name,
        None => return Err(ErrorStatus::BadRequest),
    };
    let account_hash_bytes = merkle_hash(name.as_str().as_bytes());
    let from_transcript = hex_encode(account_hash_bytes.as_slice());
    let expected = account_hash.to_owned();
    if from_transcript == expected {
        Ok(account_hash_bytes)
    } else {
        Err(ErrorStatus::BadRequest)
    }
}

/// The leaves of an account's tree: the account hash, then the hash of each
/// stored message, in order (each message hash text decoded).
pub open spec fn leaf_seq(account: Seq<u8>, hash_texts: Seq<Seq<char>>) -> Seq<Seq<u8>> {
    seq![account] + hash_texts.map_values(|h: Seq<char>| spec_string_to_hash(h).unwrap())
}

/// The hash texts of stored messages, in order.
pub open spec fn hash_texts(messages: Seq<Message>) -> Seq<Seq<char>> {
    messages.map_values(|m: Message| m.hash@)
}

/// Every text decodes to a 32-byte hash.
pub open spec fn all_hashes(hash_texts: Seq<Seq<char>>) -> bool {
    forall|i: int| 0 <= i < hash_texts.len() ==> #[trigger] spec_string_to_hash(hash_texts[i]) is Some
}

/// The leaves of the tree of the account `account_hash_bytes` with the stored
/// `messages`. A message hash that is not the hex of 32 bytes is an error.
pub fn message_leaves(account_hash_bytes: [u8; 32], messages: &Vec<Message>) -> (res: Result<Vec<[u8; 32]>, InvalidHash>)
    ensures
        res is Ok <==> all_hashes(hash_texts(messages@)),
        res matches Ok(leaves) ==> hash_views(leaves@) == leaf_seq(account_hash_bytes@, hash_texts(messages@)),
{
    let ghost texts = hash_texts(messages@);
    let mut leaves: Vec<[u8; 32]> = Vec::new();
    leaves.push(account_hash_bytes);
    for i in 0..messages.len()
        invariant
            texts == hash_texts(messages@),
            forall|k: int| 0 <= k < i ==> #[trigger] spec_string_to_hash(texts[k]) is Some,
            hash_views(leaves@) == leaf_seq(account_hash_bytes@, texts.take(i as int)),
    {
        assert(texts[i as int] == messages@[i as int].hash@);
        let h = match string_to_hash(messages[i].hash.as_str()) {
            Ok(h) => h,
            Err(e) => {
                assert(!all_hashes(texts));
                return Err(e);
            },
        };
        let ghost before = leaves@;
        leaves.push(h);
        assert(texts.take(i + 1) =~= texts.take(i as int).push(texts[i as int]));
        assert(hash_views(leaves@) =~= hash_views(before).push(h@));
        assert(leaf_seq(account_hash_bytes@, texts.take(i + 1)) =~= leaf_seq(
            account_hash_bytes@,
            texts.take(i as int),
        ).push(spec_string_to_hash(texts[i as int]).unwrap()));
    }
    assert(texts.take(messages@.len() as int) =~= texts);
    Ok(leaves)
}

/// The hash of a message: the hash of the proof's hash followed by the body's hash.
pub open spec fn spec_message_hash(proof_text: Seq<char>, body: Seq<char>) -> Seq<u8> {
    sha256_of(sha256_of(vstd::utf8::encode_utf8(proof_text)) + sha256_of(vstd::utf8::encode_utf8(body)))
}

/// The root in lower-case hex that the tree with leaves `leaves` is stored with.
pub open spec fn root_text(leaves: Seq<Seq<u8>>) -> Seq<char> {
    spec_hex_lower(merkle_root_of(leaves))
}

fn concat_hashes(a: &[u8; 32], b: &[u8; 32]) -> (res: Vec<u8>)
    ensures
        res@ == a@ + b@,
{
    let mut res: Vec<u8> = Vec::new();
    for i in 0..32
        invariant
            res@ == a@.take(i as int),
    {
        res.push(a[i]);
        assert(a@.take(i + 1) =~= a@.take(i as int).push(a@[i as int]));
    }
    assert(a@.take(32) =~= a@);
    for i in 0..32
        invariant
            res@ == a@ + b@.take(i as int),
    {
        res.push(b[i]);
        assert(b@.take(i + 1) =~= b@.take(i as int).push(b@[i as int]));
    }
    assert(b@.take(32) =~= b@);
    res
}

/// Why a new message is refused, if it is: the tree with leaves `l` must still
/// have the stored root, else the request is bad; a message whose hash is
/// among the stored hash texts is a conflict.
pub open spec fn spec_refusal(
    l: Seq<Seq<u8>>,
    stored_root: Seq<char>,
    texts: Seq<Seq<char>>,
    proof_text: Seq<char>,
    body: Seq<char>,
) -> Option<ErrorStatus> {
    if stored_root != root_text(l) {
        Some(ErrorStatus::BadRequest)
    } else if texts.contains(spec_hex_lower(spec_message_hash(proof_text, body))) {
        Some(ErrorStatus::Conflict)
    } else {
        None
    }
}

/// `plan` stores the message with `proof_text` and `body` on the tree with
/// leaves `l` and stored hash texts `texts`: the message hash is appended as
/// a leaf; the plan holds the hash, the message's index (the number of stored
/// messages), the proof for the leaf at that index, and the new root.
pub open spec fn plan_for(
    plan: MessagePlan,
    l: Seq<Seq<u8>>,
    texts: Seq<Seq<char>>,
    proof_text: Seq<char>,
    body: Seq<char>,
) -> bool {
    let mh = spec_message_hash(proof_text, body);
    &&& plan.hash@ == spec_hex_lower(mh)
    &&& plan.merkle_idx == texts.len() as i32
    &&& plan.merkle_root@ == root_text(l.push(mh))
    &&& plan.merkle_proof@ == spec_hex_lower(merkle_proof_of(l.push(mh), seq![texts.len() as usize]).flatten())
}

/// Accepts a new message for a tree, or refuses it (see [`spec_refusal`] and
/// [`plan_for`]). `leaves` are the tree's leaves (see [`message_leaves`]) and
/// `stored_root` the root the tree is stored with.
pub fn prepare_message(
    leaves: &Vec<[u8; 32]>,
    stored_root: &str,
    messages: &Vec<Message>,
    proof_text: &str,
    body: &str,
) -> (res: Result<MessagePlan, ErrorStatus>)
    requires
        leaves@.len() > 0,
    ensures
        match spec_refusal(hash_views(leaves@), stored_root@, hash_texts(messages@), proof_text@, body@) {
            Some(e) => res == Err::<MessagePlan, ErrorStatus>(e),
            None => res matches Ok(plan) && plan_for(plan, hash_views(leaves@), hash_texts(messages@), proof_text@, body@),
        },
{
    let ghost l = hash_views(leaves@);
    let mut tree = merkle_from_leaves(leaves.as_slice());
    let initial_root = match merkle_root_hex(&tree) {
        Some(root) => root,
        None => return Err(ErrorStatus::InternalServerError),
    };
    let stored = stored_root.to_owned();
    if !(stored == initial_root) {
        return Err(ErrorStatus::BadRequest);
    }
    let message_idx = messages.len();
    let proof_hash = merkle_hash(proof_text.as_bytes());
    let body_hash = merkle_hash(body.as_bytes());
    let joined = concat_hashes(&proof_hash, &body_hash);
    let message_hash = merkle_hash(joined.as_slice());
    let message_hash_hex = hex_encode(message_hash.as_slice());
    assert(message_hash@ == spec_message_hash(proof_text@, body@));
    assert(stored_root@ == root_text(l));
    let ghost texts = hash_texts(messages@);
    for i in 0..messages.len()
        invariant
            texts == hash_texts(messages@),
            forall|k: int| 0 <= k < i ==> texts[k] != message_hash_hex@,
            stored_root@ == root_text(l),
            message_hash@ == spec_message_hash(proof_text@, body@),
            message_hash_hex@ == spec_hex_lower(message_hash@),
            l == hash_views(leaves@),
    {
        assert(texts[i as int] == messages@[i as int].hash@);
        if messages[i].hash == message_hash_hex {
            assert(texts[i as int] == messages@[i as int].hash@);
            assert(texts[i as int] == message_hash_hex@);
            assert(texts.contains(message_hash_hex@));
            return Err(ErrorStatus::Conflict);
        }
    }
    assert(!texts.contains(message_hash_hex@));
    merkle_insert(&mut tree, message_hash);
    merkle_commit(&mut tree);
    let new_root = match merkle_root(&tree) {
        Some(root) => root,
        None => return Err(ErrorStatus::InternalServerError),
    };
    let indices: [usize; 1] = [message_idx];
    let proof = merkle_proof(&tree, indices.as_slice());
    let proof_bytes = proof_to_bytes(&proof);
    assert(indices@ =~= seq![message_idx]);
    let proof_hex = hex_encode(proof_bytes.as_slice());
    let root_hex = hex_encode(new_root.as_slice());
    assert(committed_leaves(tree) == l.push(message_hash@));
    assert(root_hex@ == root_text(l.push(message_hash@)));
    assert(proof_hex@ == spec_hex_lower(merkle_proof_of(l.push(message_hash@), seq![messages@.len() as usize]).flatten()));
    Ok(MessagePlan {
        hash: message_hash_hex,
        merkle_idx: message_idx as i32,
        merkle_proof: proof_hex,
        merkle_root: root_hex,
    })
}

/// The record of an accepted message.
pub fn new_message(plan: MessagePlan, account_hash: String, request: CreateMessage, proof_file_id: String) -> (res: NewMessage)
    ensures
        res.hash == plan.hash,
        res.merkle_idx == plan.merkle_idx,
        res.merkle_proof == plan.merkle_proof,
        res.parent_account_hash == account_hash,
        res.ornament_id == request.ornament_id,
        res.nickname == request.nickname,
        res.body == request.body,
        res.proof_file_id == proof_file_id,
{
    NewMessage {
        hash: plan.hash,
        merkle_idx: plan.merkle_idx,
        merkle_proof: plan.merkle_proof,
        parent_account_hash: account_hash,
        ornament_id: request.ornament_id,
        nickname: request.nickname,
        body: request.body,
        proof_file_id,
    }
}

/// Where a request to read the messages of a tree stands.
pub enum ReadStep {
    /// The tree is looked up; the bodies are shown when `reveal` holds.
    AwaitTree { reveal: bool },
    /// The tree was found; its messages are looked up.
    AwaitMessages { tree: Tree, reveal: bool },
    /// The request was answered.
    Finished,
}

/// What the outside world reports back to a request to read messages.
pub enum ReadEvent {
    /// The lookup of the tree.
    TreeLookedUp(Lookup<Tree>),
    /// The lookup of the tree's messages.
    MessagesLookedUp(Lookup<Vec<Message>>),
}

/// What a request to read messages asks the outside world to do next.
pub enum ReadAction {
    /// Look up the tree of this account hash.
    LookUpTree(String),
    /// Look up the messages of this account hash.
    LookUpMessages(String),
    /// Answer with these messages.
    Respond(Vec<MessageResponse>),
    /// Refuse the request.
    Refuse(ErrorStatus),
}

/// The event that `step` waits for is of the kind of `event`.
pub open spec fn read_awaits(step: ReadStep, event: ReadEvent) -> bool {
    match step {
        ReadStep::AwaitTree { .. } => event is TreeLookedUp,
        ReadStep::AwaitMessages { .. } => event is MessagesLookedUp,
        ReadStep::Finished => false,
    }
}

/// Starts a request to read the messages of the tree `account_hash`. With no
/// transcript, the bodies stay hidden. With one, the request must pass
/// [`check_reveal_request`], and then the bodies are shown.
pub fn start_read(account_hash: &str, reveal_proof: Option<&str>) -> (res: (ReadStep, ReadAction))
    ensures
        match reveal_proof {
            None => res.0 == (ReadStep::AwaitTree { reveal: false }) && (res.1 matches ReadAction::LookUpTree(
                a,
            ) && a@ == account_hash@),
            Some(p) => match spec_screen_name(p@) {
                Some(name) if spec_account_hash_hex(name) == account_hash@ => res.0 == (ReadStep::AwaitTree {
                    reveal: true,
                }) && (res.1 matches ReadAction::LookUpTree(a) && a@ == account_hash@),
                _ => res.0 is Finished && res.1 == ReadAction::Refuse(ErrorStatus::BadRequest),
            },
        },
{
    let reveal = match reveal_proof {
        None => false,
        Some(p) => match check_reveal_request(p, account_hash) {
            Err(e) => return (ReadStep::Finished, ReadAction::Refuse(e)),
            Ok(()) => true,
        },
    };
    (ReadStep::AwaitTree { reveal }, ReadAction::LookUpTree(account_hash.to_owned()))
}

/// Takes a request to read messages one step on. A tree that is not found, or
/// a failed lookup, ends the request (see [`must_be_found`]); messages that
/// are not found are none (see [`found_or_empty`]). The answer is every
/// message with the tree's root, with or without its body.
pub fn read_step(account_hash: &str, step: ReadStep, event: ReadEvent) -> (res: (ReadStep, ReadAction))
    requires
        read_awaits(step, event),
    ensures
        (res.1 is Respond || res.1 is Refuse) <==> res.0 is Finished,
        match (step, event) {
            (ReadStep::AwaitTree { reveal }, ReadEvent::TreeLookedUp(lookup)) => match lookup {
                Lookup::Found(tree) => res.0 == (ReadStep::AwaitMessages { tree, reveal }) && (
                res.1 matches ReadAction::LookUpMessages(a) && a@ == account_hash@),
                Lookup::NotFound => res.1 == ReadAction::Refuse(ErrorStatus::NotFound),
                Lookup::Failed => res.1 == ReadAction::Refuse(ErrorStatus::InternalServerError),
            },
            (ReadStep::AwaitMessages { tree, reveal }, ReadEvent::MessagesLookedUp(lookup)) => match lookup {
                Lookup::Failed => res.1 == ReadAction::Refuse(ErrorStatus::InternalServerError),
                _ => {
                    let messages = match lookup {
                        Lookup::Found(v) => v@,
                        _ => Seq::<Message>::empty(),
                    };
                    res.1 matches ReadAction::Respond(answer) && answer@.len() == messages.len() && forall|i: int|
                        0 <= i < messages.len() ==> answers(#[trigger] answer@[i], messages[i], tree.merkle_root@, reveal)
                },
            },
            _ => false,
        },
{
    match step {
        ReadStep::AwaitTree { reveal } => {
            let lookup = match event {
                ReadEvent::TreeLookedUp(lookup) => lookup,
                _ => return (ReadStep::Finished, ReadAction::Refuse(ErrorStatus::InternalServerError)),
            };
            match must_be_found(lookup) {
                Err(e) => (ReadStep::Finished, ReadAction::Refuse(e)),
                Ok(tree) => (ReadStep::AwaitMessages { tree, reveal }, ReadAction::LookUpMessages(account_hash.to_owned())),
            }
        },
        ReadStep::AwaitMessages { tree, reveal } => {
            let lookup = match event {
                ReadEvent::MessagesLookedUp(lookup) => lookup,
                _ => return (ReadStep::Finished, ReadAction::Refuse(ErrorStatus::InternalServerError)),
            };
            match found_or_empty(lookup) {
                Err(e) => (ReadStep::Finished, ReadAction::Refuse(e)),
                Ok(messages) => (
                    ReadStep::Finished,
                    ReadAction::Respond(messages_response(&messages, &tree.merkle_root, reveal)),
                ),
            }
        },
        ReadStep::Finished => (ReadStep::Finished, ReadAction::Refuse(ErrorStatus::InternalServerError)),
    }
}

/// A request to write a message, with the transcript its proof carries.
pub struct WriteRequest {
    /// The hash of the account whose tree the message is for.
    pub account_hash: String,
    /// The transcript that the friendship proof carries.
    pub decoded_proof: String,
    /// The request itself.
    pub request: CreateMessage,
}

/// Where a request to write a message stands.
pub enum WriteStep {
    /// The request was checked; the tree is looked up.
    AwaitTree { account_hash_bytes: [u8; 32] },
    /// The tree was found; its messages are looked up.
    AwaitMessages { account_hash_bytes: [u8; 32], tree: Tree },
    /// The message was accepted; its proof is uploaded.
    AwaitUpload { tree: Tree, plan: MessagePlan },
    /// The proof was uploaded; the message is stored.
    AwaitStore { tree: Tree, merkle_root: String },
    /// The message was stored; the tree's root is updated.
    AwaitRootUpdate { message: Message, merkle_root: String },
    /// The request was answered.
    Finished,
}

/// What the outside world reports back to a request to write a message.
pub enum WriteEvent {
    /// The lookup of the tree.
    TreeLookedUp(Lookup<Tree>),
    /// The lookup of the tree's messages.
    MessagesLookedUp(Lookup<Vec<Message>>),
    /// The id of the uploaded proof, or `None` when the upload failed.
    ProofUploaded(Option<String>),
    /// The stored message, or `None` when storing failed.
    MessageStored(Option<Message>),
    /// The number of updated trees, or `None` when the update failed.
    RootUpdated(Option<usize>),
}

/// What a request to write a message asks the outside world to do next.
pub enum WriteAction {
    /// Look up the tree of this account hash.
    LookUpTree(String),
    /// Look up the messages of this account hash.
    LookUpMessages(String),
    /// Upload the friendship proof under this file name.
    UploadProof(String),
    /// Store this message.
    StoreMessage(NewMessage),
    /// Set the root of this tree to this root.
    UpdateRoot(Tree, String),
    /// Answer with this message.
    Respond(MessageResponse),
    /// Refuse the request.
    Refuse(ErrorStatus),
    /// A stored message hash is not the hex of 32 bytes: the stored data is
    /// broken, and the request cannot go on.
    Abort,
}

/// The event that `step` waits for is of the kind of `event`.
pub open spec fn write_awaits(step: WriteStep, event: WriteEvent) -> bool {
    match step {
        WriteStep::AwaitTree { .. } => event is TreeLookedUp,
        WriteStep::AwaitMessages { .. } => event is MessagesLookedUp,
        WriteStep::AwaitUpload { .. } => event is ProofUploaded,
        WriteStep::AwaitStore { .. } => event is MessageStored,
        WriteStep::AwaitRootUpdate { .. } => event is RootUpdated,
        WriteStep::Finished => false,
    }
}

/// The action ends the request.
pub open spec fn write_ends(action: WriteAction) -> bool {
    action is Respond || action is Refuse || action is Abort
}

/// `rec` is the record of the message planned by `plan` for `ctx`, with its
/// proof uploaded as `file_id`.
pub open spec fn record_for(rec: NewMessage, plan: MessagePlan, ctx: WriteRequest, file_id: Seq<char>) -> bool {
    &&& rec.hash@ == plan.hash@
    &&& rec.merkle_idx == plan.merkle_idx
    &&& rec.merkle_proof@ == plan.merkle_proof@
    &&& rec.parent_account_hash@ == ctx.account_hash@
    &&& rec.ornament_id == ctx.request.ornament_id
    &&& rec.nickname@ == ctx.request.nickname@
    &&& rec.body@ == ctx.request.body@
    &&& rec.proof_file_id@ == file_id
}

/// Starts a request to write a message: it is checked first (see
/// [`spec_check_message`]); a refused request ends there, else the tree is
/// looked up.
pub fn start_write(ctx: &WriteRequest) -> (res: (WriteStep, WriteAction))
    ensures
        match spec_check_message(ctx.decoded_proof@, ctx.account_hash@) {
            Err(e) => res.0 is Finished && res.1 == WriteAction::Refuse(e),
            Ok(h) => {
                &&& (res.0 matches WriteStep::AwaitTree { account_hash_bytes } && account_hash_bytes@ == h)
                &&& (res.1 matches WriteAction::LookUpTree(a) && a@ == ctx.account_hash@)
            },
        },
{
    match check_message_request(ctx.decoded_proof.as_str(), ctx.account_hash.as_str()) {
        Err(e) => (WriteStep::Finished, WriteAction::Refuse(e)),
        Ok(h) => (WriteStep::AwaitTree { account_hash_bytes: h }, WriteAction::LookUpTree(ctx.account_hash.clone())),
    }
}

/// Takes a request to write a message one step on: from where it stands and
/// what the outside world reported, to where it stands next and what to do.
///
/// A tree that is not found, or a failed lookup, ends the request (see
/// [`must_be_found`]); messages that are not found are none (see
/// [`found_or_empty`]). The message is accepted or refused as
/// [`prepare_message`] decides, over the stored root and the leaves of the
/// account hash and the stored messages. An accepted message has its proof
/// uploaded under its hash, is stored with the uploaded file's id, and the
/// tree's root is set to the new root; any failure there is an internal
/// error. The answer is the stored message with its body and the new root.
pub fn write_step(ctx: &WriteRequest, step: WriteStep, event: WriteEvent) -> (res: (WriteStep, WriteAction))
    requires
        write_awaits(step, event),
    ensures
        write_ends(res.1) <==> res.0 is Finished,
        match (step, event) {
            (WriteStep::AwaitTree { account_hash_bytes }, WriteEvent::TreeLookedUp(lookup)) => match lookup {
                Lookup::Found(tree) => {
                    &&& res.0 == (WriteStep::AwaitMessages { account_hash_bytes, tree })
                    &&& (res.1 matches WriteAction::LookUpMessages(a) && a@ == ctx.account_hash@)
                },
                Lookup::NotFound => res.1 == WriteAction::Refuse(ErrorStatus::NotFound),
                Lookup::Failed => res.1 == WriteAction::Refuse(ErrorStatus::InternalServerError),
            },
            (WriteStep::AwaitMessages { account_hash_bytes, tree }, WriteEvent::MessagesLookedUp(lookup)) => {
                let messages = match lookup {
                    Lookup::Found(v) => v@,
                    _ => Seq::<Message>::empty(),
                };
                let texts = hash_texts(messages);
                let l = leaf_seq(account_hash_bytes@, texts);
                let proof_text = ctx.request.friendship_proof.data@;
                let body = ctx.request.body@;
                if lookup is Failed {
                    res.1 == WriteAction::Refuse(ErrorStatus::InternalServerError)
                } else if !all_hashes(texts) {
                    res.1 == WriteAction::Abort
                } else {
                    match spec_refusal(l, tree.merkle_root@, texts, proof_text, body) {
                        Some(e) => res.1 == WriteAction::Refuse(e),
                        None => {
                            &&& (res.0 matches WriteStep::AwaitUpload { tree: t, plan } && t == tree
                                && plan_for(plan, l, texts, proof_text, body)
                                && (res.1 matches WriteAction::UploadProof(name) && name@ == plan.hash@))
                        },
                    }
                }
            },
            (WriteStep::AwaitUpload { tree, plan }, WriteEvent::ProofUploaded(uploaded)) => match uploaded {
                None => res.1 == WriteAction::Refuse(ErrorStatus::InternalServerError),
                Some(file_id) => {
                    &&& (res.0 matches WriteStep::AwaitStore { tree: t, merkle_root } && t == tree
                        && merkle_root@ == plan.merkle_root@)
                    &&& (res.1 matches WriteAction::StoreMessage(rec) && record_for(rec, plan, *ctx, file_id@))
                },
            },
            (WriteStep::AwaitStore { tree, merkle_root }, WriteEvent::MessageStored(stored)) => match stored {
                None => res.1 == WriteAction::Refuse(ErrorStatus::InternalServerError),
                Some(message) => {
                    &&& res.0 == (WriteStep::AwaitRootUpdate { message, merkle_root })
                    &&& (res.1 matches WriteAction::UpdateRoot(t, r) && t == tree && r@ == merkle_root@)
                },
            },
            (WriteStep::AwaitRootUpdate { message, merkle_root }, WriteEvent::RootUpdated(updated)) => if updated
                == Some(1usize) {
                (res.1 matches WriteAction::Respond(r) && answers(r, message, merkle_root@, true))
            } else {
                res.1 == WriteAction::Refuse(ErrorStatus::InternalServerError)
            },
            _ => false,
        },
{
    match step {
        WriteStep::AwaitTree { account_hash_bytes } => {
            let lookup = match event {
                WriteEvent::TreeLookedUp(lookup) => lookup,
                _ => return (WriteStep::Finished, WriteAction::Refuse(ErrorStatus::InternalServerError)),
            };
            match must_be_found(lookup) {
                Err(e) => (WriteStep::Finished, WriteAction::Refuse(e)),
                Ok(tree) => (
                    WriteStep::AwaitMessages { account_hash_bytes, tree },
                    WriteAction::LookUpMessages(ctx.account_hash.clone()),
                ),
            }
        },
        WriteStep::AwaitMessages { account_hash_bytes, tree } => {
            let lookup = match event {
                WriteEvent::MessagesLookedUp(lookup) => lookup,
                _ => return (WriteStep::Finished, WriteAction::Refuse(ErrorStatus::InternalServerError)),
            };
            let messages = match found_or_empty(lookup) {
                Err(e) => return (WriteStep::Finished, WriteAction::Refuse(e)),
                Ok(messages) => messages,
            };
            let leaves = match message_leaves(account_hash_bytes, &messages) {
                Err(_) => return (WriteStep::Finished, WriteAction::Abort),
                Ok(leaves) => leaves,
            };
            match prepare_message(
                &leaves,
                tree.merkle_root.as_str(),
                &messages,
                ctx.request.friendship_proof.data.as_str(),
                ctx.request.body.as_str(),
            ) {
                Err(e) => (WriteStep::Finished, WriteAction::Refuse(e)),
                Ok(plan) => {
                    let name = plan.hash.clone();
                    (WriteStep::AwaitUpload { tree, plan }, WriteAction::UploadProof(name))
                },
            }
        },
        WriteStep::AwaitUpload { tree, plan } => {
            let uploaded = match event {
                WriteEvent::ProofUploaded(uploaded) => uploaded,
                _ => return (WriteStep::Finished, WriteAction::Refuse(ErrorStatus::InternalServerError)),
            };
            match uploaded {
                None => (WriteStep::Finished, WriteAction::Refuse(ErrorStatus::InternalServerError)),
                Some(file_id) => {
                    let merkle_root = plan.merkle_root.clone();
                    let request = CreateMessage {
                        ornament_id: ctx.request.ornament_id,
                        nickname: ctx.request.nickname.clone(),
                        body: ctx.request.body.clone(),
                        friendship_proof: ProofJson { data: ctx.request.friendship_proof.data.clone() },
                    };
                    let rec = new_message(plan, ctx.account_hash.clone(), request, file_id);
                    (WriteStep::AwaitStore { tree, merkle_root }, WriteAction::StoreMessage(rec))
                },
            }
        },
        WriteStep::AwaitStore { tree, merkle_root } => {
            let stored = match event {
                WriteEvent::MessageStored(stored) => stored,
                _ => return (WriteStep::Finished, WriteAction::Refuse(ErrorStatus::InternalServerError)),
            };
            match stored {
                None => (WriteStep::Finished, WriteAction::Refuse(ErrorStatus::InternalServerError)),
                Some(message) => {
                    let root = merkle_root.clone();
                    (WriteStep::AwaitRootUpdate { message, merkle_root }, WriteAction::UpdateRoot(tree, root))
                },
            }
        },
        WriteStep::AwaitRootUpdate { message, merkle_root } => {
            let updated = match event {
                WriteEvent::RootUpdated(updated) => updated,
                _ => return (WriteStep::Finished, WriteAction::Refuse(ErrorStatus::InternalServerError)),
            };
            match root_update_outcome(updated) {
                Err(e) => (WriteStep::Finished, WriteAction::Refuse(e)),
                Ok(()) => (WriteStep::Finished, WriteAction::Respond(message_response(&message, &merkle_root, true))),
            }
        },
        WriteStep::Finished => (WriteStep::Finished, WriteAction::Refuse(ErrorStatus::InternalServerError)),
    }
}

/// The hex text that an accepted message is stored with decodes back to the
/// leaf that was appended for it: once the message is stored, the leaves that
/// the next request rebuilds from the stored messages are the leaves that the
/// new root was computed from, so the tree's stored root is the one that
/// request expects.
pub proof fn law_stored_message_extends_leaves(account: Seq<u8>, texts: Seq<Seq<char>>, message_hash: Seq<u8>)
    requires
        message_hash.len() == 32,
    ensures
        leaf_seq(account, texts.push(spec_hex_lower(message_hash))) == leaf_seq(account, texts).push(message_hash),
        root_text(leaf_seq(account, texts.push(spec_hex_lower(message_hash)))) == root_text(
            leaf_seq(account, texts).push(message_hash),
        ),
{
    law_hash_text_round_trip(message_hash);
    assert(leaf_seq(account, texts.push(spec_hex_lower(message_hash))) =~= leaf_seq(account, texts).push(message_hash));
}

/// The root that a new tree is stored with (its only leaf is the account
/// hash) is the root that the request for its first message expects.
pub proof fn law_new_tree_root_expected_by_first_message(account: Seq<u8>)
    ensures
        root_text(leaf_seq(account, Seq::<Seq<char>>::empty())) == spec_hex_lower(merkle_root_of(seq![account])),
{
    assert(leaf_seq(account, Seq::<Seq<char>>::empty()) =~= seq![account]);
}

/// An answer carries the stored message as it was stored: its hash, index,
/// Merkle proof, ornament and nickname, with the tree's root; the body only
/// when it is revealed, and then the stored body.
pub proof fn law_answer_carries_stored_message(r: MessageResponse, m: Message, root: Seq<char>, reveal: bool)
    requires
        answers(r, m, root, reveal),
    ensures
        r.hash@ == m.hash@,
        r.merkle_idx == m.merkle_idx,
        r.merkle_proof@ == m.merkle_proof@,
        r.ornament_id == m.ornament_id,
        r.nickname@ == m.nickname@,
        r.merkle_root@ == root,
        r.body is Some <==> reveal,
        r.body matches Some(b) ==> b@ == m.body@,
{
}

/// A message whose hash, in lower-case hex, is the hash text of any stored
/// message of the tree, at any index, is refused as a conflict once the
/// tree's root is current.
pub proof fn law_duplicate_of_any_stored_message_conflicts(
    l: Seq<Seq<u8>>,
    stored_root: Seq<char>,
    texts: Seq<Seq<char>>,
    proof_text: Seq<char>,
    body: Seq<char>,
    k: int,
)
    requires
        0 <= k < texts.len(),
        texts[k] == spec_hex_lower(spec_message_hash(proof_text, body)),
        stored_root == root_text(l),
    ensures
        spec_refusal(l, stored_root, texts, proof_text, body) == Some(ErrorStatus::Conflict),
{
    assert(texts.contains(spec_hex_lower(spec_message_hash(proof_text, body))));
}

/// An accepted message's hash text differs from the hash text of every stored
/// message.
pub proof fn law_accepted_message_is_new(
    l: Seq<Seq<u8>>,
    stored_root: Seq<char>,
    texts: Seq<Seq<char>>,
    proof_text: Seq<char>,
    body: Seq<char>,
)
    requires
        spec_refusal(l, stored_root, texts, proof_text, body) is None,
    ensures
        forall|k: int| 0 <= k < texts.len() ==> texts[k] != spec_hex_lower(spec_message_hash(proof_text, body)),
        stored_root == root_text(l),
{
    assert forall|k: int| 0 <= k < texts.len() implies texts[k] != spec_hex_lower(spec_message_hash(proof_text, body)) by {
        if texts[k] == spec_hex_lower(spec_message_hash(proof_text, body)) {
            assert(texts.contains(spec_hex_lower(spec_message_hash(proof_text, body))));
        }
    }
}

} // verus!
