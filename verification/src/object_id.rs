//! The identifiers that the store gives to what it keeps.
//!
//! An identifier is twelve bytes. Its hexadecimal form is read and written by
//! the `bson` crate; the two functions that call it are trusted, and their
//! contracts say exactly what it returns.

use vstd::prelude::*;

verus! {

/// The identifier of a stored document.
#[derive(Clone, Copy, Debug, PartialEq, Eq)]
pub struct ObjectId {
    pub bytes: [u8; 12],
}

/// The value of a hexadecimal digit of either case; `None` for any other
/// character.
pub open spec fn hex_value(c: char) -> Option<int> {
    if '0' <= c <= '9' {
        Some(c as int - '0' as int)
    } else if 'a' <= c <= 'f' {
        Some(c as int - 'a' as int + 10)
    } else if 'A' <= c <= 'F' {
        Some(c as int - 'A' as int + 10)
    } else {
        None
    }
}

/// The lower-case hexadecimal digit of a value below sixteen.
pub open spec fn hex_digit(value: int) -> char {
    if value < 10 {
        ('0' as int + value) as char
    } else {
        ('a' as int + value - 10) as char
    }
}

/// The twelve bytes that a hexadecimal text stands for: the text must be 24
/// hexadecimal digits, of either case, and each pair of them is one byte, the
/// high half first. Any other text stands for no identifier.
pub open spec fn hex_to_object_id(text: Seq<char>) -> Option<Seq<u8>> {
    if text.len() == 24 && forall|i: int| 0 <= i < 24 ==> hex_value(#[trigger] text[i]) is Some {
        Some(
            Seq::new(
                12,
                |i: int|
                    (16 * hex_value(text[2 * i]).unwrap() + hex_value(text[2 * i + 1]).unwrap()) as u8,
            ),
        )
    } else {
        None
    }
}

/// The hexadecimal text of some bytes: two lower-case digits for each byte,
/// the high half first.
pub open spec fn object_id_to_hex(bytes: Seq<u8>) -> Seq<char> {
    Seq::new(
        2 * bytes.len(),
        |i: int|
            hex_digit(
                if i % 2 == 0 {
                    bytes[i / 2] as int / 16
                } else {
                    bytes[i / 2] as int % 16
                },
            ),
    )
}

/// Calls `bson::oid::ObjectId::parse_str` and hands out the bytes of the
/// identifier. Trusted: `bson` takes exactly the texts of 24 hexadecimal
/// digits, of either case, and reads each pair of digits as one byte.
#[verifier::external_body]
fn parse_hex(text: &str) -> (r: Option<[u8; 12]>)
    ensures
        match r {
            Some(bytes) => hex_to_object_id(text@) == Some(bytes@),
            None => hex_to_object_id(text@) is None,
        },
{
    match bson::oid::ObjectId::parse_str(text) {
        Ok(id) => Some(id.bytes()),
        Err(_) => None,
    }
}

/// Calls `bson::oid::ObjectId::to_hex` on the identifier of the given bytes.
/// Trusted: `bson` writes two lower-case hexadecimal digits for each byte.
#[verifier::external_body]
fn write_hex(bytes: &[u8; 12]) -> (text: String)
    ensures
        text@ == object_id_to_hex(bytes@),
{
    bson::oid::ObjectId::from_bytes(*bytes).to_hex()
}

/// A digit that was written for a value reads back as that value.
pub proof fn lemma_hex_digit_value(value: int)
    requires
        0 <= value < 16,
    ensures
        hex_value(hex_digit(value)) == Some(value),
{
}

/// The text that is written for twelve bytes reads back as those bytes.
pub proof fn law_object_id_round_trip(bytes: Seq<u8>)
    requires
        bytes.len() == 12,
    ensures
        hex_to_object_id(object_id_to_hex(bytes)) == Some(bytes),
{
    let text = object_id_to_hex(bytes);
    assert forall|i: int| 0 <= i < 24 implies hex_value(#[trigger] text[i]) is Some by {
        let b = bytes[i / 2] as int;
        lemma_hex_digit_value(b / 16);
        lemma_hex_digit_value(b % 16);
    }
    let back = hex_to_object_id(text).unwrap();
    assert forall|k: int| 0 <= k < 12 implies back[k] == bytes[k] by {
        let b = bytes[k] as int;
        lemma_hex_digit_value(b / 16);
        lemma_hex_digit_value(b % 16);
        assert((2 * k) / 2 == k && (2 * k) % 2 == 0);
        assert((2 * k + 1) / 2 == k && (2 * k + 1) % 2 == 1);
        assert(text[2 * k] == hex_digit(b / 16));
        assert(text[2 * k + 1] == hex_digit(b % 16));
        assert(16 * (b / 16) + b % 16 == b);
    }
    assert(back =~= bytes);
}

impl ObjectId {
    /// Reads an identifier from its hexadecimal form. `None` where the text
    /// is not the form of an identifier.
    pub fn parse_str(text: &str) -> (r: Option<ObjectId>)
        ensures
            match r {
                Some(id) => hex_to_object_id(text@) == Some(id.bytes@),
                None => hex_to_object_id(text@) is None,
            },
    {
        match parse_hex(text) {
            Some(bytes) => Some(ObjectId { bytes }),
            None => None,
        }
    }

    /// Writes the identifier in its hexadecimal form.
    pub fn to_hex(&self) -> (text: String)
        ensures
            text@ == object_id_to_hex(self.bytes@),
    {
        write_hex(&self.bytes)
    }
}

} // verus!
