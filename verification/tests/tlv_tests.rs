use gateway_sp_comms::tlv::{decode_all, encode_into, Tag};

fn tag(s: &[u8; 4]) -> Tag {
    Tag { b0: s[0], b1: s[1], b2: s[2], b3: s[3] }
}

#[test]
fn tlv_round_trip_two_records() {
    let mut bytes: Vec<u8> = Vec::new();
    encode_into(&mut bytes, tag(b"AAAA"), &[1, 2, 3]);
    encode_into(&mut bytes, tag(b"BBBB"), &[]);
    let triples = decode_all(&bytes).unwrap();
    assert_eq!(triples.len(), 2);
    assert_eq!(triples[0].tag, tag(b"AAAA"));
    assert_eq!(triples[0].value, vec![1, 2, 3]);
    assert_eq!(triples[1].tag, tag(b"BBBB"));
    assert_eq!(triples[1].value, Vec::<u8>::new());
}

#[test]
fn tlv_empty_stream_is_empty() {
    let triples = decode_all(&[]).unwrap();
    assert!(triples.is_empty());
}

#[test]
fn tlv_truncated_header_is_rejected() {
    // Seven bytes cannot hold a tag and a length.
    assert!(decode_all(&[65, 65, 65, 65, 3, 0, 0]).is_err());
}

#[test]
fn tlv_truncated_value_is_rejected() {
    // Length says four bytes, only two follow.
    let bytes = [65u8, 65, 65, 65, 4, 0, 0, 0, 9, 9];
    assert!(decode_all(&bytes).is_err());
}

#[test]
fn tlv_encoding_layout_is_exact() {
    let mut bytes: Vec<u8> = Vec::new();
    encode_into(&mut bytes, tag(b"DEV0"), &[7, 8]);
    assert_eq!(bytes, vec![68, 69, 86, 48, 2, 0, 0, 0, 7, 8]);
}
