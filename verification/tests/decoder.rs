use strict_state::decoder::{decode, DecodeError};

#[test]
fn decode_yields_the_encoded_bytes() {
    assert_eq!(decode("aGVsbG8="), Ok(b"hello".to_vec()));
    assert_eq!(decode("AQID"), Ok(vec![1u8, 2, 3]));
}

#[test]
fn decode_differs_from_its_input() {
    let decoded = decode("e30=").unwrap();
    assert_eq!(decoded, b"{}".to_vec());
    assert_ne!(decoded, b"e30=".to_vec());
}

#[test]
fn decode_of_empty_text_is_empty() {
    assert_eq!(decode(""), Ok(Vec::new()));
}

#[test]
fn decode_rejects_text_outside_the_alphabet() {
    assert_eq!(decode("not-base64!!"), Err(DecodeError));
}

#[test]
fn decode_rejects_white_space() {
    assert_eq!(decode("aGVs bG8="), Err(DecodeError));
    assert_eq!(decode("aGVsbG8=\n"), Err(DecodeError));
}

#[test]
fn decode_rejects_characters_beyond_ascii() {
    assert_eq!(decode("aGVsbG8\u{e9}"), Err(DecodeError));
}

#[test]
fn decode_rejects_missing_padding() {
    assert_eq!(decode("aGVsbG8"), Err(DecodeError));
}

#[test]
fn decode_rejects_bad_length() {
    assert_eq!(decode("a"), Err(DecodeError));
}

#[test]
fn decode_rejects_padding_inside() {
    assert_eq!(decode("aG=sbG8="), Err(DecodeError));
}

#[test]
fn decode_rejects_the_url_safe_alphabet() {
    assert_eq!(decode("_-8="), Err(DecodeError));
}

#[test]
fn decode_rejects_stray_bits_in_the_last_symbol() {
    assert_eq!(decode("aGVsbG9="), Err(DecodeError));
}

#[test]
fn decode_rejects_a_lone_padding_sign_before_a_symbol() {
    assert_eq!(decode("aGVsbG=8"), Err(DecodeError));
}

#[test]
fn decode_accepts_one_and_two_padding_signs() {
    assert_eq!(decode("YWI="), Ok(b"ab".to_vec()));
    assert_eq!(decode("YQ=="), Ok(b"a".to_vec()));
    assert_eq!(decode("YWJj"), Ok(b"abc".to_vec()));
}

#[test]
fn decode_rejects_too_much_padding() {
    assert_eq!(decode("Y==="), Err(DecodeError));
    assert_eq!(decode("===="), Err(DecodeError));
    assert_eq!(decode("YQ==YQ=="), Err(DecodeError));
}
