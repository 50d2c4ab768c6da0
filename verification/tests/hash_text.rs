use ornament_tree::utils::hash::{string_to_hash, InvalidHash};

const ABC_SHA256: &str = "ba7816bf8f01cfea414140de5dae2223b00361a396177a9cb410ff61f20015ad";

fn abc_bytes() -> [u8; 32] {
    [
        0xba, 0x78, 0x16, 0xbf, 0x8f, 0x01, 0xcf, 0xea, 0x41, 0x41, 0x40, 0xde, 0x5d, 0xae, 0x22,
        0x23, 0xb0, 0x03, 0x61, 0xa3, 0x96, 0x17, 0x7a, 0x9c, 0xb4, 0x10, 0xff, 0x61, 0xf2, 0x00,
        0x15, 0xad,
    ]
}

#[test]
fn lower_case_hash_text_parses() {
    assert_eq!(string_to_hash(ABC_SHA256), Ok(abc_bytes()));
}

#[test]
fn upper_case_hash_text_parses() {
    assert_eq!(string_to_hash(&ABC_SHA256.to_uppercase()), Ok(abc_bytes()));
}

#[test]
fn mixed_case_hash_text_parses() {
    let mixed = "BA7816bf8f01cfea414140de5dae2223b00361a396177a9cb410ff61f20015AD";
    assert_eq!(string_to_hash(mixed), Ok(abc_bytes()));
}

#[test]
fn odd_length_is_invalid() {
    assert_eq!(string_to_hash(&ABC_SHA256[1..]), Err(InvalidHash));
}

#[test]
fn short_hash_is_invalid() {
    assert_eq!(string_to_hash(&ABC_SHA256[2..]), Err(InvalidHash));
}

#[test]
fn long_hash_is_invalid() {
    let long = format!("{}00", ABC_SHA256);
    assert_eq!(string_to_hash(&long), Err(InvalidHash));
}

#[test]
fn non_hex_digit_is_invalid() {
    let bad = format!("g{}", &ABC_SHA256[1..]);
    assert_eq!(string_to_hash(&bad), Err(InvalidHash));
}

#[test]
fn non_ascii_text_is_invalid() {
    let bad = format!("é{}", &ABC_SHA256[4..]);
    assert_eq!(string_to_hash(&bad), Err(InvalidHash));
}

#[test]
fn empty_text_is_invalid() {
    assert_eq!(string_to_hash(""), Err(InvalidHash));
}

#[test]
fn invalid_hash_message() {
    assert_eq!(InvalidHash.message(), "Invalid hash");
}

#[test]
fn hash_text_round_trip_on_concrete_values() {
    for seed in 0u8..=255 {
        let bytes: [u8; 32] = core::array::from_fn(|i| seed.wrapping_mul(31).wrapping_add(i as u8 * 7));
        assert_eq!(string_to_hash(&hex::encode(bytes)), Ok(bytes));
        assert_eq!(string_to_hash(&hex::encode_upper(bytes)), Ok(bytes));
    }
}
