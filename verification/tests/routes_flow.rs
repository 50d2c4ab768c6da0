use ornament_tree::db::models::{Message, Tree};
use ornament_tree::routes::messages::{
    check_message_request, check_reveal_request, message_leaves, message_response, messages_response,
    new_message, prepare_message, CreateMessage,
};
use ornament_tree::routes::trees::{account_from_proof, initial_merkle_root, new_tree, tree_response};
use ornament_tree::routes::{found_or_empty, must_be_absent, must_be_found, root_update_outcome, ErrorStatus, Lookup};
use ornament_tree::utils::hash::InvalidHash;
use ornament_tree::utils::proof_json::ProofJson;
use rs_merkle::algorithms::Sha256 as MerkleSha256;
use rs_merkle::{Hasher, MerkleTree};
use sha2::{Digest, Sha256};

const ABC_SHA256: &str = "ba7816bf8f01cfea414140de5dae2223b00361a396177a9cb410ff61f20015ad";

fn sha(data: &[u8]) -> [u8; 32] {
    Sha256::digest(data).into()
}

fn stored(hash: &str, idx: i32, body: &str) -> Message {
    Message {
        hash: hash.to_string(),
        merkle_idx: idx,
        merkle_proof: "00".to_string(),
        ornament_id: 7,
        nickname: "nick".to_string(),
        body: body.to_string(),
    }
}

fn message_hash(proof: &str, body: &str) -> [u8; 32] {
    let mut joined = sha(proof.as_bytes()).to_vec();
    joined.extend_from_slice(&sha(body.as_bytes()));
    sha(&joined)
}

#[test]
fn account_from_transcript() {
    let account = account_from_proof(r#"{"screen_name":"abc"}"#).ok().unwrap();
    assert_eq!(account.screen_name, "abc");
    assert_eq!(account.account_hash, ABC_SHA256.to_uppercase());
    assert_eq!(account.account_hash_bytes, sha(b"abc"));
}

#[test]
fn account_needs_screen_name() {
    assert!(matches!(account_from_proof(r#"{"name":"abc"}"#), Err(ErrorStatus::BadRequest)));
}

#[test]
fn new_tree_root_is_its_only_leaf() {
    let root = initial_merkle_root(sha(b"a")).ok().unwrap();
    assert_eq!(root, "ca978112ca1bbdcafac231b39a23dc4da786eff8147c4e72b9807785afee48bb");
}

#[test]
fn reveal_request_checks_account() {
    let t = r#"{"screen_name":"abc"}"#;
    assert_eq!(check_reveal_request(t, ABC_SHA256), Ok(()));
    assert_eq!(check_reveal_request(t, &ABC_SHA256.to_uppercase()), Err(ErrorStatus::BadRequest));
    assert_eq!(check_reveal_request(r#"{"screen":"abc"}"#, ABC_SHA256), Err(ErrorStatus::BadRequest));
}

#[test]
fn message_request_checks_follow_and_account() {
    let good = r#"{"screen_name":"abc","followed_by":true,"following":true}"#;
    assert_eq!(check_message_request(good, ABC_SHA256), Ok(sha(b"abc")));
    let not_mutual = r#"{"screen_name":"abc","followed_by":true,"following":false}"#;
    assert_eq!(check_message_request(not_mutual, ABC_SHA256), Err(ErrorStatus::BadRequest));
    let no_name = r#"{"followed_by":true,"following":true}"#;
    assert_eq!(check_message_request(no_name, ABC_SHA256), Err(ErrorStatus::BadRequest));
    let other = r#"{"screen_name":"abd","followed_by":true,"following":true}"#;
    assert_eq!(check_message_request(other, ABC_SHA256), Err(ErrorStatus::BadRequest));
}

#[test]
fn leaves_start_with_account() {
    let account = sha(b"abc");
    let m = message_hash("p", "b");
    let leaves = message_leaves(account, &vec![stored(&hex::encode(m), 0, "b")]).ok().unwrap();
    assert_eq!(leaves, vec![account, m]);
}

#[test]
fn leaves_reject_bad_stored_hash() {
    let account = sha(b"abc");
    let r = message_leaves(account, &vec![stored("zz", 0, "b")]);
    assert!(matches!(r, Err(InvalidHash)));
}

#[test]
fn first_message_is_accepted() {
    let account = sha(b"abc");
    let root = initial_merkle_root(account).ok().unwrap();
    let leaves = message_leaves(account, &vec![]).ok().unwrap();
    let plan = prepare_message(&leaves, &root, &vec![], "p", "b").ok().unwrap();
    let mh = message_hash("p", "b");
    assert_eq!(plan.hash, hex::encode(mh));
    assert_eq!(plan.merkle_idx, 0);
    let mut joined = account.to_vec();
    joined.extend_from_slice(&mh);
    assert_eq!(plan.merkle_root, hex::encode(sha(&joined)));
    // the proof for leaf 0 of a two-leaf tree is its sibling
    assert_eq!(plan.merkle_proof, hex::encode(mh));
}

#[test]
fn stale_root_is_bad_request() {
    let account = sha(b"abc");
    let leaves = message_leaves(account, &vec![]).ok().unwrap();
    let r = prepare_message(&leaves, "00", &vec![], "p", "b");
    assert!(matches!(r, Err(ErrorStatus::BadRequest)));
}

#[test]
fn upper_case_root_is_bad_request() {
    let account = sha(b"abc");
    let root = initial_merkle_root(account).ok().unwrap().to_uppercase();
    let leaves = message_leaves(account, &vec![]).ok().unwrap();
    assert!(matches!(prepare_message(&leaves, &root, &vec![], "p", "b"), Err(ErrorStatus::BadRequest)));
}

#[test]
fn repeated_message_is_conflict() {
    let account = sha(b"abc");
    let root = initial_merkle_root(account).ok().unwrap();
    let leaves = message_leaves(account, &vec![]).ok().unwrap();
    let plan = prepare_message(&leaves, &root, &vec![], "p", "b").ok().unwrap();
    let messages = vec![stored(&plan.hash, plan.merkle_idx, "b")];
    let leaves2 = message_leaves(account, &messages).ok().unwrap();
    let r = prepare_message(&leaves2, &plan.merkle_root, &messages, "p", "b");
    assert!(matches!(r, Err(ErrorStatus::Conflict)));
}

#[test]
fn stored_root_accepts_next_messages() {
    let account = sha(b"abc");
    let mut root = initial_merkle_root(account).ok().unwrap();
    let mut messages: Vec<Message> = vec![];
    for i in 0..40 {
        let body = format!("body {}", i);
        let leaves = message_leaves(account, &messages).ok().unwrap();
        let plan = prepare_message(&leaves, &root, &messages, "proof", &body).ok().unwrap();
        assert_eq!(plan.merkle_idx, i);
        let mut all = leaves.clone();
        all.push(message_hash("proof", &body));
        let expected = MerkleTree::<MerkleSha256>::from_leaves(&all);
        assert_eq!(plan.merkle_root, expected.root_hex().unwrap());
        root = plan.merkle_root.clone();
        messages.push(stored(&plan.hash, plan.merkle_idx, &body));
    }
}

#[test]
fn incremental_commit_matches_fresh_tree() {
    let all: Vec<[u8; 32]> = (0u32..70).map(|i| MerkleSha256::hash(&i.to_le_bytes())).collect();
    for n in 1..all.len() {
        let mut tree = MerkleTree::<MerkleSha256>::from_leaves(&all[..n]);
        tree.insert(all[n]).commit();
        let fresh = MerkleTree::<MerkleSha256>::from_leaves(&all[..n + 1]);
        assert_eq!(tree.root(), fresh.root(), "n = {}", n);
        assert_eq!(tree.proof(&[n - 1]).to_bytes(), fresh.proof(&[n - 1]).to_bytes(), "n = {}", n);
    }
}

#[test]
fn merkle_hash_is_sha256() {
    assert_eq!(MerkleSha256::hash(b"abc"), sha(b"abc"));
}

#[test]
fn responses_hide_or_show_body() {
    let messages = vec![stored("aa", 0, "one"), stored("bb", 1, "two")];
    let root = "rr".to_string();
    let hidden = messages_response(&messages, &root, false);
    assert_eq!(hidden.len(), 2);
    assert!(hidden.iter().all(|r| r.body.is_none() && r.merkle_root == "rr"));
    assert_eq!(hidden[1].hash, "bb");
    assert_eq!(hidden[1].merkle_idx, 1);
    let shown = messages_response(&messages, &root, true);
    assert_eq!(shown[0].body.as_deref(), Some("one"));
    assert_eq!(shown[1].body.as_deref(), Some("two"));
    let single = message_response(&messages[0], &root, true);
    assert_eq!(single.nickname, "nick");
    assert_eq!(single.ornament_id, 7);
}

#[test]
fn lookups_map_to_statuses() {
    assert_eq!(must_be_absent(Lookup::Found(1u8)), Err(ErrorStatus::Conflict));
    assert_eq!(must_be_absent::<u8>(Lookup::NotFound), Ok(()));
    assert_eq!(must_be_absent::<u8>(Lookup::Failed), Err(ErrorStatus::InternalServerError));
    assert_eq!(must_be_found(Lookup::Found(3u8)), Ok(3));
    assert_eq!(must_be_found::<u8>(Lookup::NotFound), Err(ErrorStatus::NotFound));
    assert_eq!(must_be_found::<u8>(Lookup::Failed), Err(ErrorStatus::InternalServerError));
    assert_eq!(found_or_empty(Lookup::Found(vec![1u8])), Ok(vec![1]));
    assert_eq!(found_or_empty::<u8>(Lookup::NotFound), Ok(vec![]));
    assert_eq!(found_or_empty::<u8>(Lookup::Failed), Err(ErrorStatus::InternalServerError));
    assert_eq!(root_update_outcome(Some(1)), Ok(()));
    assert_eq!(root_update_outcome(Some(0)), Err(ErrorStatus::InternalServerError));
    assert_eq!(root_update_outcome(Some(2)), Err(ErrorStatus::InternalServerError));
    assert_eq!(root_update_outcome(None), Err(ErrorStatus::InternalServerError));
}

#[test]
fn records_carry_the_plan() {
    let account = sha(b"abc");
    let root = initial_merkle_root(account).ok().unwrap();
    let leaves = message_leaves(account, &vec![]).ok().unwrap();
    let plan = prepare_message(&leaves, &root, &vec![], "p", "b").ok().unwrap();
    let request = CreateMessage {
        ornament_id: 3,
        nickname: "n".to_string(),
        body: "b".to_string(),
        friendship_proof: ProofJson { data: "p".to_string() },
    };
    let expected_hash = plan.hash.clone();
    let record = new_message(plan, ABC_SHA256.to_string(), request, "file".to_string());
    assert_eq!(record.hash, expected_hash);
    assert_eq!(record.merkle_idx, 0);
    assert_eq!(record.parent_account_hash, ABC_SHA256);
    assert_eq!(record.proof_file_id, "file");
    assert_eq!(record.ornament_id, 3);
}

#[test]
fn tree_records_and_answers() {
    let account = account_from_proof(r#"{"screen_name":"abc"}"#).ok().unwrap();
    let record = new_tree(account, "root".to_string(), "file".to_string());
    assert_eq!(record.account_id, "abc");
    assert_eq!(record.account_hash, ABC_SHA256.to_uppercase());
    let tree = Tree {
        account_hash: record.account_hash.clone(),
        account_id: record.account_id.clone(),
        merkle_root: record.merkle_root.clone(),
        proof_file_id: record.proof_file_id.clone(),
        created_at: chrono::DateTime::from_timestamp(0, 0).unwrap().naive_utc(),
    };
    let answer = tree_response(tree);
    assert_eq!(answer.account_id, "abc");
    assert_eq!(answer.merkle_root, "root");
}

#[test]
fn created_tree_hash_is_upper_case_but_message_check_wants_lower_case() {
    let t = r#"{"screen_name":"abc","followed_by":true,"following":true}"#;
    let account = account_from_proof(t).ok().unwrap();
    assert_eq!(check_message_request(t, &account.account_hash), Err(ErrorStatus::BadRequest));
    assert_eq!(check_message_request(t, &account.account_hash.to_lowercase()), Ok(account.account_hash_bytes));
}
