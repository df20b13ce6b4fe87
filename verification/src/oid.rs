//! Twelve-byte object identifiers and their hexadecimal text form.

use vstd::prelude::*;

verus! {

/// The sixteen lower-case hexadecimal digits, by value.
pub open spec fn hex_digits() -> Seq<char> {
    seq!['0', '1', '2', '3', '4', '5', '6', '7', '8', '9', 'a', 'b', 'c', 'd', 'e', 'f']
}

/// The value of a hexadecimal digit of either case, or `None` for any other character.
pub open spec fn hex_value(c: char) -> Option<int> {
    if '0' <= c && c <= '9' {
        Some(c as int - '0' as int)
    } else if 'a' <= c && c <= 'f' {
        Some(c as int - 'a' as int + 10)
    } else if 'A' <= c && c <= 'F' {
        Some(c as int - 'A' as int + 10)
    } else {
        None
    }
}

/// Lower-case hexadecimal text of a byte string: two digits per byte, high nibble first.
pub open spec fn hex_of(bytes: Seq<u8>) -> Seq<char> {
    Seq::new(
        2 * bytes.len(),
        |i: int|
            if i % 2 == 0 {
                hex_digits()[bytes[i / 2] as int / 16]
            } else {
                hex_digits()[bytes[i / 2] as int % 16]
            },
    )
}

/// Whether `text` is the hexadecimal form, in either case, of exactly twelve bytes.
pub open spec fn is_object_id_text(text: Seq<char>) -> bool {
    &&& text.len() == 24
    &&& forall|i: int| 0 <= i < 24 ==> (#[trigger] hex_value(text[i])) is Some
}

/// The twelve bytes that hexadecimal `text` stands for.
pub open spec fn bytes_of_hex(text: Seq<char>) -> Seq<u8> {
    Seq::new(
        12,
        |i: int| (16 * hex_value(text[2 * i])->Some_0 + hex_value(text[2 * i + 1])->Some_0) as u8,
    )
}

/// Whether `text` is the text that `to_hex` gives for some identifier: 24
/// hexadecimal digits, none of them an upper-case letter.
pub open spec fn is_canonical_text(text: Seq<char>) -> bool {
    &&& is_object_id_text(text)
    &&& forall|i: int| 0 <= i < 24 ==> !('A' <= #[trigger] text[i] && text[i] <= 'F')
}

/// The text of an identifier reads back as that identifier: `parse` undoes `to_hex`.
pub proof fn law_parse_undoes_to_hex(bytes: Seq<u8>)
    requires
        bytes.len() == 12,
    ensures
        is_canonical_text(hex_of(bytes)),
        bytes_of_hex(hex_of(bytes)) == bytes,
{
    let text = hex_of(bytes);
    assert forall|i: int| 0 <= i < 24 implies (#[trigger] hex_value(text[i])) is Some && !('A'
        <= text[i] && text[i] <= 'F') by {}
}

/// A text of 24 digits without upper-case letters is the text of the
/// identifier that it reads as: `to_hex` undoes `parse` on such a text.
pub proof fn law_to_hex_undoes_parse(text: Seq<char>)
    requires
        is_canonical_text(text),
    ensures
        hex_of(bytes_of_hex(text)) == text,
{
}

/// An identifier that the storage service assigns to a document.
#[derive(Clone, Copy, Debug, PartialEq, Eq, Hash)]
pub struct ObjectId {
    pub bytes: [u8; 12],
}

impl View for ObjectId {
    type V = Seq<u8>;

    open spec fn view(&self) -> Seq<u8> {
        self.bytes@
    }
}

/// `bson::oid::Error`, the failure of `ObjectId::parse_str`. Nothing is known of its contents.
#[verifier::external_type_specification]
#[verifier::external_body]
pub struct ExOidError(bson::oid::Error);

/// `bson::oid::ObjectId::parse_str`, followed by `ObjectId::bytes`. The text
/// is accepted exactly when it consists of 24 hexadecimal digits of either
/// case; the bytes are then the values of the digit pairs, in order.
#[verifier::external_body]
fn bson_parse(text: &str) -> (r: Result<[u8; 12], bson::oid::Error>)
    ensures
        r is Ok <==> is_object_id_text(text@),
        r matches Ok(bytes) ==> bytes@ == bytes_of_hex(text@),
{
    bson::oid::ObjectId::parse_str(text).map(|id| id.bytes())
}

/// `bson::oid::ObjectId::from_bytes`, followed by `ObjectId::to_hex`: the
/// 24 lower-case hexadecimal digits of the twelve bytes.
#[verifier::external_body]
fn bson_hex(bytes: [u8; 12]) -> (r: String)
    ensures
        r@ == hex_of(bytes@),
{
    bson::oid::ObjectId::from_bytes(bytes).to_hex()
}

impl ObjectId {
    /// Reads an identifier from its hexadecimal text, in either case.
    pub fn parse(text: &str) -> (r: Option<ObjectId>)
        ensures
            r is Some <==> is_object_id_text(text@),
            r matches Some(id) ==> id@ == bytes_of_hex(text@),
    {
        match bson_parse(text) {
            Ok(bytes) => Some(ObjectId { bytes }),
            Err(_) => None,
        }
    }

    /// The identifier as 24 lower-case hexadecimal digits.
    pub fn to_hex(&self) -> (r: String)
        ensures
            r@ == hex_of(self@),
    {
        bson_hex(self.bytes)
    }
}

} // verus!
