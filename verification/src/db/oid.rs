//! Document identifiers and their hexadecimal text.

use crate::text::hex_digit;
use vstd::prelude::*;

verus! {

/// The identifier of a stored document: twelve bytes, written as twenty-four
/// hexadecimal digits.
#[derive(Debug, Clone, Copy)]
pub struct ObjectId {
    pub bytes: [u8; 12],
}

impl View for ObjectId {
    type V = Seq<u8>;

    open spec fn view(&self) -> Seq<u8> {
        self.bytes@
    }
}

/// Two lower-case hexadecimal digits for each byte, the high one first.
pub open spec fn hex_text(bytes: Seq<u8>) -> Seq<char> {
    Seq::new(
        2 * bytes.len(),
        |i: int|
            if i % 2 == 0 {
                hex_digit(bytes[i / 2] as int / 16)
            } else {
                hex_digit(bytes[i / 2] as int % 16)
            },
    )
}

/// The value of a hexadecimal digit of either case, or -1 for any other character.
pub open spec fn hex_value(c: char) -> int {
    if '0' <= c <= '9' {
        c as int - '0' as int
    } else if 'a' <= c <= 'f' {
        c as int - 'a' as int + 10
    } else if 'A' <= c <= 'F' {
        c as int - 'A' as int + 10
    } else {
        -1
    }
}

/// `text` is twenty-four hexadecimal digits.
pub open spec fn is_object_id_text(text: Seq<char>) -> bool {
    text.len() == 24 && forall|i: int| 0 <= i < 24 ==> hex_value(#[trigger] text[i]) >= 0
}

/// The twelve bytes that twenty-four hexadecimal digits spell.
pub open spec fn object_id_bytes(text: Seq<char>) -> Seq<u8> {
    Seq::new(12, |i: int| (16 * hex_value(text[2 * i]) + hex_value(text[2 * i + 1])) as u8)
}

/// What parsing `text` as an identifier yields.
pub open spec fn parsed_object_id(text: Seq<char>) -> Option<Seq<u8>> {
    if is_object_id_text(text) {
        Some(object_id_bytes(text))
    } else {
        None
    }
}

/// The mathematical value of an optional identifier.
pub open spec fn object_id_option_view(id: Option<ObjectId>) -> Option<Seq<u8>> {
    match id {
        Some(id) => Some(id@),
        None => None,
    }
}

impl ObjectId {
    /// Draws a fresh identifier with `bson::oid::ObjectId::new`, which mixes the
    /// clock, a value drawn once per process and a counter. Nothing is claimed
    /// of the bytes. `bson` panics where the clock of the machine stands before
    /// 1970 or after 2105.
    #[verifier::external_body]
    pub(crate) fn fresh() -> ObjectId {
        ObjectId { bytes: bson::oid::ObjectId::new().bytes() }
    }

    /// Parses an identifier with `bson::oid::ObjectId::parse_str`.
    ///
    /// Trusted: the call accepts exactly the texts of twenty-four hexadecimal
    /// digits, of either case, and reads each pair of digits as one byte.
    #[verifier::external_body]
    pub(crate) fn parse_str(text: &str) -> (r: Option<ObjectId>)
        ensures
            object_id_option_view(r) == parsed_object_id(text@),
    {
        match bson::oid::ObjectId::parse_str(text) {
            Ok(id) => Some(ObjectId { bytes: id.bytes() }),
            Err(_) => None,
        }
    }

    /// Writes the identifier with `bson::oid::ObjectId::to_hex`.
    ///
    /// Trusted: the call writes each byte as two lower-case hexadecimal digits.
    #[verifier::external_body]
    pub(crate) fn to_hex(&self) -> (text: String)
        ensures
            text@ == hex_text(self@),
    {
        bson::oid::ObjectId::from_bytes(self.bytes).to_hex()
    }
}

} // verus!
