use mongodb::bson::oid::ObjectId;
use users_api::object_id::UserId;

const SAMPLE: [u8; 12] = [0x53, 0xe3, 0x7d, 0x08, 0x77, 0x6f, 0x72, 0x4e, 0x42, 0x00, 0x00, 0xff];

#[test]
fn parse_reads_lower_case_digits() {
    let id = UserId::parse("53e37d08776f724e420000ff");
    assert_eq!(id, Some(UserId { bytes: SAMPLE }));
}

#[test]
fn parse_reads_upper_case_digits() {
    let id = UserId::parse("53E37D08776F724E420000FF");
    assert_eq!(id, Some(UserId { bytes: SAMPLE }));
}

#[test]
fn parse_reads_mixed_case_digits() {
    let id = UserId::parse("53e37D08776f724E420000fF");
    assert_eq!(id, Some(UserId { bytes: SAMPLE }));
}

#[test]
fn parse_reads_the_extremes() {
    assert_eq!(UserId::parse("000000000000000000000000"), Some(UserId { bytes: [0; 12] }));
    assert_eq!(UserId::parse("ffffffffffffffffffffffff"), Some(UserId { bytes: [0xff; 12] }));
    assert_eq!(
        UserId::parse("0123456789abcdefABCDEF09"),
        Some(UserId {
            bytes: [0x01, 0x23, 0x45, 0x67, 0x89, 0xab, 0xcd, 0xef, 0xab, 0xcd, 0xef, 0x09]
        })
    );
}

#[test]
fn parse_refuses_the_empty_text() {
    assert_eq!(UserId::parse(""), None);
}

#[test]
fn parse_refuses_short_and_long_texts() {
    assert_eq!(UserId::parse("53e37d08776f724e420000f"), None);
    assert_eq!(UserId::parse("53e37d08776f724e420000"), None);
    assert_eq!(UserId::parse("53e37d08776f724e420000ff0"), None);
    assert_eq!(UserId::parse("53e37d08776f724e420000ff00"), None);
}

#[test]
fn parse_refuses_other_characters() {
    assert_eq!(UserId::parse("53e37d08776f724e420000fg"), None);
    assert_eq!(UserId::parse("53e37d08776f724e420000 f"), None);
    assert_eq!(UserId::parse("not-an-object-id-at-all!"), None);
    assert_eq!(UserId::parse("+3e37d08776f724e420000ff"), None);
}

#[test]
fn parse_refuses_characters_beyond_ascii() {
    // twenty-four characters, one of them two bytes long
    assert_eq!(UserId::parse("53e37d08776f724e420000f\u{e9}"), None);
    // twenty-four bytes, twelve characters
    assert_eq!(UserId::parse("\u{e9}\u{e9}\u{e9}\u{e9}\u{e9}\u{e9}\u{e9}\u{e9}\u{e9}\u{e9}\u{e9}\u{e9}"), None);
    // full-width digits
    assert_eq!(UserId::parse("\u{ff15}3e37d08776f724e420000ff"), None);
}

#[test]
fn to_hex_writes_lower_case() {
    assert_eq!(UserId { bytes: SAMPLE }.to_hex(), "53e37d08776f724e420000ff");
    assert_eq!(UserId { bytes: [0; 12] }.to_hex(), "000000000000000000000000");
    assert_eq!(UserId { bytes: [0xab; 12] }.to_hex(), "abababababababababababab");
}

#[test]
fn to_hex_then_parse_is_the_identity() {
    let mut bytes = [0u8; 12];
    for first in 0..=255u8 {
        for (i, b) in bytes.iter_mut().enumerate() {
            *b = first.wrapping_mul(31).wrapping_add((i as u8).wrapping_mul(17));
        }
        bytes[0] = first;
        let id = UserId { bytes };
        assert_eq!(UserId::parse(&id.to_hex()), Some(id));
    }
}

#[test]
fn identifiers_agree_with_the_driver() {
    let oid = ObjectId::parse_str("64b7f0c2a1d3e4f5a6b7c8d9").unwrap();
    let id = UserId::parse("64b7f0c2a1d3e4f5a6b7c8d9").unwrap();
    assert_eq!(id.bytes, oid.bytes());
    assert_eq!(id.to_hex(), oid.to_hex());
    assert_eq!(ObjectId::from_bytes(id.bytes), oid);
}
