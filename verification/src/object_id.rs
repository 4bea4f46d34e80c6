//! Identifiers of stored users: twelve bytes, written as twenty-four
//! hexadecimal digits.

use vstd::prelude::*;

verus! {

/// Whether `c` is one of `0-9`, `a-f`, `A-F`.
pub open spec fn is_hex_digit(c: char) -> bool {
    ('0' <= c <= '9') || ('a' <= c <= 'f') || ('A' <= c <= 'F')
}

/// The number a hexadecimal digit stands for.
pub open spec fn hex_digit_value(c: char) -> int
    recommends
        is_hex_digit(c),
{
    if '0' <= c <= '9' {
        c as int - '0' as int
    } else if 'a' <= c <= 'f' {
        c as int - 'a' as int + 10
    } else {
        c as int - 'A' as int + 10
    }
}

/// The lower-case hexadecimal digit for a number below sixteen.
pub open spec fn hex_digit(n: int) -> char
    recommends
        0 <= n < 16,
{
    if n < 10 {
        (n + '0' as int) as u8 as char
    } else {
        (n - 10 + 'a' as int) as u8 as char
    }
}

/// Whether `text` is the hexadecimal form of an identifier.
pub open spec fn is_object_id_text(text: Seq<char>) -> bool {
    &&& text.len() == 24
    &&& forall|i: int| 0 <= i < text.len() ==> is_hex_digit(#[trigger] text[i])
}

/// The bytes that a string of hexadecimal digits stands for, two digits
/// to the byte, the high one first.
pub open spec fn decode_hex(text: Seq<char>) -> Seq<u8> {
    Seq::new(
        text.len() / 2,
        |i: int| (16 * hex_digit_value(text[2 * i]) + hex_digit_value(text[2 * i + 1])) as u8,
    )
}

/// The lower-case hexadecimal form of `bytes`.
pub open spec fn encode_hex(bytes: Seq<u8>) -> Seq<char> {
    Seq::new(
        2 * bytes.len(),
        |i: int|
            if i % 2 == 0 {
                hex_digit(bytes[i / 2] as int / 16)
            } else {
                hex_digit(bytes[i / 2] as int % 16)
            },
    )
}

/// The identifier the store gives a user.
#[derive(Clone, Copy, Debug, PartialEq, Eq)]
pub struct UserId {
    pub bytes: [u8; 12],
}

impl View for UserId {
    type V = Seq<u8>;

    open spec fn view(&self) -> Seq<u8> {
        self.bytes@
    }
}

/// Calls `mongodb::bson::oid::ObjectId::parse_str` and hands out the bytes
/// of the identifier it parsed (`ObjectId::bytes`). Not proved here: that
/// the call succeeds exactly on twenty-four hexadecimal digits, of either
/// case, and that the twelve bytes are those the digits spell, two digits
/// to the byte, the high one first.
#[verifier::external_body]
fn parse_object_id(text: &str) -> (r: Option<[u8; 12]>)
    ensures
        r is Some <==> is_object_id_text(text@),
        r matches Some(bytes) ==> bytes@ == decode_hex(text@),
{
    match mongodb::bson::oid::ObjectId::parse_str(text) {
        Ok(oid) => Some(oid.bytes()),
        Err(_) => None,
    }
}

/// Calls `mongodb::bson::oid::ObjectId::to_hex` on the identifier made of
/// `bytes` (`ObjectId::from_bytes`). Not proved here: that the result is the
/// bytes in lower-case hexadecimal digits, two to the byte, the high one
/// first.
#[verifier::external_body]
fn object_id_hex(bytes: [u8; 12]) -> (r: String)
    ensures
        r@ == encode_hex(bytes@),
{
    mongodb::bson::oid::ObjectId::from_bytes(bytes).to_hex()
}

impl UserId {
    /// Reads an identifier from its hexadecimal form; `None` where `text`
    /// is not one.
    pub fn parse(text: &str) -> (r: Option<UserId>)
        ensures
            r is Some <==> is_object_id_text(text@),
            r matches Some(id) ==> id@ == decode_hex(text@),
    {
        match parse_object_id(text) {
            Some(bytes) => Some(UserId { bytes }),
            None => None,
        }
    }

    /// The hexadecimal form of the identifier.
    pub fn to_hex(&self) -> (r: String)
        ensures
            r@ == encode_hex(self@),
    {
        object_id_hex(self.bytes)
    }
}

/// A digit's value is the number the digit was written for.
pub proof fn lemma_hex_digit_value(n: int)
    requires
        0 <= n < 16,
    ensures
        is_hex_digit(hex_digit(n)),
        hex_digit_value(hex_digit(n)) == n,
{
}

/// Writing bytes in hexadecimal and reading them back gives the bytes.
pub proof fn lemma_decode_encode_hex(bytes: Seq<u8>)
    ensures
        decode_hex(encode_hex(bytes)) == bytes,
        encode_hex(bytes).len() == 2 * bytes.len(),
        forall|i: int| 0 <= i < 2 * bytes.len() ==> is_hex_digit(#[trigger] encode_hex(bytes)[i]),
{
    let text = encode_hex(bytes);
    assert forall|i: int| 0 <= i < text.len() implies is_hex_digit(#[trigger] text[i]) by {
        let b = bytes[i / 2] as int;
        lemma_hex_digit_value(b / 16);
        lemma_hex_digit_value(b % 16);
    }
    assert forall|k: int| 0 <= k < bytes.len() implies decode_hex(text)[k] == bytes[k] by {
        let b = bytes[k] as int;
        lemma_hex_digit_value(b / 16);
        lemma_hex_digit_value(b % 16);
        assert(text[2 * k] == hex_digit(b / 16));
        assert(text[2 * k + 1] == hex_digit(b % 16));
    }
    assert(decode_hex(text) =~= bytes);
}

} // verus!
