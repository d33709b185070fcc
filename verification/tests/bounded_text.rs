use account_records::bounded::{
    decode_128, decode_64, decode_bytes, encode_128, encode_64, OverflowError, Str128, Str64,
};
use bounded_collections::BoundedVec;

#[test]
fn encode_then_decode_gives_the_text_back() {
    let field = encode_64("Jane").unwrap();
    assert_eq!(decode_64(&field), "Jane");
    let field = encode_128("1 Main St").unwrap();
    assert_eq!(decode_128(&field), "1 Main St");
}

#[test]
fn encode_keeps_the_utf8_bytes() {
    let field = encode_64("Zoë").unwrap();
    assert_eq!(field.to_vec(), vec![0x5a, 0x6f, 0xc3, 0xab]);
    let field = encode_128("€").unwrap();
    assert_eq!(field.to_vec(), vec![0xe2, 0x82, 0xac]);
}

#[test]
fn encode_accepts_the_empty_text() {
    let field = encode_64("").unwrap();
    assert_eq!(field.len(), 0);
    assert_eq!(decode_64(&field), "");
}

#[test]
fn encode_64_accepts_exactly_64_bytes() {
    let text = "x".repeat(64);
    let field = encode_64(&text).unwrap();
    assert_eq!(field.len(), 64);
    assert_eq!(decode_64(&field), text);
}

#[test]
fn encode_64_refuses_65_bytes() {
    let text = "x".repeat(65);
    assert_eq!(encode_64(&text), Err(OverflowError));
}

#[test]
fn encode_128_accepts_exactly_128_bytes() {
    let text = "y".repeat(128);
    let field = encode_128(&text).unwrap();
    assert_eq!(field.len(), 128);
    assert_eq!(decode_128(&field), text);
}

#[test]
fn encode_128_refuses_129_bytes() {
    let text = "y".repeat(129);
    assert_eq!(encode_128(&text), Err(OverflowError));
}

#[test]
fn encode_counts_bytes_not_characters() {
    // 22 characters of three bytes each: 66 bytes.
    let text = "€".repeat(22);
    assert_eq!(text.chars().count(), 22);
    assert_eq!(encode_64(&text), Err(OverflowError));
    // 21 of them are 63 bytes and fit.
    let text = "€".repeat(21);
    assert_eq!(encode_64(&text).unwrap().len(), 63);
    assert_eq!(encode_128(&"€".repeat(22)).unwrap().len(), 66);
}

#[test]
fn encode_never_truncates() {
    let text = format!("{}{}", "a".repeat(64), "b");
    assert!(encode_64(&text).is_err());
    let text = format!("{}{}", "a".repeat(128), "b");
    assert!(encode_128(&text).is_err());
}

#[test]
fn decode_bytes_reads_utf8() {
    assert_eq!(decode_bytes(vec![0x4a, 0x61, 0x6e, 0x65]), "Jane");
    assert_eq!(decode_bytes(vec![0xe2, 0x82, 0xac]), "€");
    assert_eq!(decode_bytes(Vec::new()), "");
}

#[test]
fn decode_bytes_reads_malformed_bytes_as_the_empty_text() {
    assert_eq!(decode_bytes(vec![0xff]), "");
    assert_eq!(decode_bytes(vec![0x4a, 0x61, 0xc3]), "");
    // An overlong encoding and a surrogate are no UTF-8 either.
    assert_eq!(decode_bytes(vec![0xc0, 0x80]), "");
    assert_eq!(decode_bytes(vec![0xed, 0xa0, 0x80]), "");
}

#[test]
fn decode_reads_a_malformed_field_as_the_empty_text() {
    let field: Str64 = BoundedVec::try_from(vec![0x4a, 0xff, 0x6e]).unwrap();
    assert_eq!(decode_64(&field), "");
    let field: Str128 = BoundedVec::try_from(vec![0x80]).unwrap();
    assert_eq!(decode_128(&field), "");
}

#[test]
fn decode_reads_a_field_made_elsewhere() {
    let field: Str64 = BoundedVec::try_from(b"Doe".to_vec()).unwrap();
    assert_eq!(decode_64(&field), "Doe");
    let field: Str128 = BoundedVec::try_from(b"42 Elm Road".to_vec()).unwrap();
    assert_eq!(decode_128(&field), "42 Elm Road");
}
