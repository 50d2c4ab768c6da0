use vstd::prelude::*;

verus! {

/// The value of an ASCII hex digit (either case), if `b` is one.
pub open spec fn hex_value(b: u8) -> Option<u8> {
    if 48 <= b <= 57 {
        Some((b - 48) as u8)
    } else if 97 <= b <= 102 {
        Some((b - 87) as u8)
    } else if 65 <= b <= 70 {
        Some((b - 55) as u8)
    } else {
        None
    }
}

/// Hex decoding of a byte string: every pair of hex digits gives one byte,
/// high nibble first. Odd lengths and non-digit bytes are rejected.
pub open spec fn spec_hex_decode(data: Seq<u8>) -> Option<Seq<u8>> {
    if data.len() % 2 == 0 && (forall|i: int| 0 <= i < data.len() ==> #[trigger] hex_value(data[i]) is Some) {
        Some(
            Seq::new(
                data.len() / 2,
                |k: int| (hex_value(data[2 * k]).unwrap() * 16 + hex_value(data[2 * k + 1]).unwrap()) as u8,
            ),
        )
    } else {
        None
    }
}

/// The lower-case hex digit for a nibble.
pub open spec fn hex_digit_lower(n: int) -> char {
    if n < 10 {
        (48 + n) as char
    } else {
        (87 + n) as char
    }
}

/// The upper-case hex digit for a nibble.
pub open spec fn hex_digit_upper(n: int) -> char {
    if n < 10 {
        (48 + n) as char
    } else {
        (55 + n) as char
    }
}

/// The nibble that character `i` of the hex encoding of `data` stands for.
pub open spec fn nibble_at(data: Seq<u8>, i: int) -> int {
    if i % 2 == 0 {
        (data[i / 2] / 16) as int
    } else {
        (data[i / 2] % 16) as int
    }
}

/// Lower-case hex encoding: two digits per byte, high nibble first.
pub open spec fn spec_hex_lower(data: Seq<u8>) -> Seq<char> {
    Seq::new(2 * data.len(), |i: int| hex_digit_lower(nibble_at(data, i)))
}

/// Upper-case hex encoding: two digits per byte, high nibble first.
pub open spec fn spec_hex_upper(data: Seq<u8>) -> Seq<char> {
    Seq::new(2 * data.len(), |i: int| hex_digit_upper(nibble_at(data, i)))
}

/// `hex::decode`: hex text to bytes. The contract restates the crate's
/// decoder (an odd length or a byte that is no hex digit of either case is
/// an error); the error value itself is dropped.
#[verifier::external_body]
pub(crate) fn hex_decode(data: &[u8]) -> (res: Option<Vec<u8>>)
    ensures
        match res {
            Some(v) => spec_hex_decode(data@) == Some(v@),
            None => spec_hex_decode(data@) is None,
        },
{
    hex::decode(data).ok()
}

/// `hex::encode`: lower-case hex text of the bytes.
#[verifier::external_body]
pub(crate) fn hex_encode(data: &[u8]) -> (res: String)
    ensures
        res@ == spec_hex_lower(data@),
{
    hex::encode(data)
}

/// `hex::encode_upper`: upper-case hex text of the bytes.
#[verifier::external_body]
pub(crate) fn hex_encode_upper(data: &[u8]) -> (res: String)
    ensures
        res@ == spec_hex_upper(data@),
{
    hex::encode_upper(data)
}

proof fn lemma_nibble_bounds(data: Seq<u8>, i: int)
    requires
        0 <= i < 2 * data.len(),
    ensures
        0 <= nibble_at(data, i) < 16,
{
}

/// Both hex encodings are ASCII text, so their UTF-8 bytes are the characters
/// themselves.
pub proof fn lemma_hex_text_bytes(data: Seq<u8>)
    ensures
        vstd::utf8::encode_utf8(spec_hex_lower(data)) == spec_hex_lower(data).map_values(|c: char| c as u8),
        vstd::utf8::encode_utf8(spec_hex_upper(data)) == spec_hex_upper(data).map_values(|c: char| c as u8),
{
    let lo = spec_hex_lower(data);
    let up = spec_hex_upper(data);
    assert forall|i: int| 0 <= i < lo.len() implies '\0' <= #[trigger] lo[i] <= '\u{7f}' by {
        lemma_nibble_bounds(data, i);
    }
    assert forall|i: int| 0 <= i < up.len() implies '\0' <= #[trigger] up[i] <= '\u{7f}' by {
        lemma_nibble_bounds(data, i);
    }
    vstd::utf8::is_ascii_chars_encode_utf8(lo);
    vstd::utf8::is_ascii_chars_encode_utf8(up);
    assert(vstd::utf8::encode_utf8(lo) =~= lo.map_values(|c: char| c as u8));
    assert(vstd::utf8::encode_utf8(up) =~= up.map_values(|c: char| c as u8));
}

/// Decoding the UTF-8 bytes of a hex encoding, lower or upper case, gives
/// back the encoded bytes.
pub proof fn lemma_hex_round_trip(data: Seq<u8>)
    ensures
        spec_hex_decode(vstd::utf8::encode_utf8(spec_hex_lower(data))) == Some(data),
        spec_hex_decode(vstd::utf8::encode_utf8(spec_hex_upper(data))) == Some(data),
{
    lemma_hex_text_bytes(data);
    let lo = vstd::utf8::encode_utf8(spec_hex_lower(data));
    let up = vstd::utf8::encode_utf8(spec_hex_upper(data));
    assert forall|i: int| 0 <= i < lo.len() implies #[trigger] hex_value(lo[i]) is Some
        && hex_value(lo[i]).unwrap() == nibble_at(data, i) by {
        lemma_nibble_bounds(data, i);
    }
    assert forall|i: int| 0 <= i < up.len() implies #[trigger] hex_value(up[i]) is Some
        && hex_value(up[i]).unwrap() == nibble_at(data, i) by {
        lemma_nibble_bounds(data, i);
    }
    assert forall|k: int| 0 <= k < data.len() implies
        (hex_value(lo[2 * k]).unwrap() * 16 + hex_value(lo[2 * k + 1]).unwrap()) as u8 == data[k]
        && (hex_value(up[2 * k]).unwrap() * 16 + hex_value(up[2 * k + 1]).unwrap()) as u8 == data[k] by {
        assert(hex_value(lo[2 * k]) is Some && hex_value(lo[2 * k]).unwrap() == nibble_at(data, 2 * k));
        assert(hex_value(lo[2 * k + 1]) is Some && hex_value(lo[2 * k + 1]).unwrap() == nibble_at(data, 2 * k + 1));
        assert(hex_value(up[2 * k]) is Some && hex_value(up[2 * k]).unwrap() == nibble_at(data, 2 * k));
        assert(hex_value(up[2 * k + 1]) is Some && hex_value(up[2 * k + 1]).unwrap() == nibble_at(data, 2 * k + 1));
        assert((2 * k) / 2 == k && (2 * k + 1) / 2 == k && (2 * k) % 2 == 0 && (2 * k + 1) % 2 == 1);
        assert(data[k] / 16 * 16 + data[k] % 16 == data[k]);
    }
    assert(spec_hex_decode(lo).unwrap() =~= data);
    assert(spec_hex_decode(up).unwrap() =~= data);
}

} // verus!
