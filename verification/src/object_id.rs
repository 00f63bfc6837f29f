//! Record identifiers: twelve bytes, written as twenty-four hexadecimal digits.

use mongodb::bson::oid::ObjectId;
use vstd::prelude::*;

verus! {

/// The value of the hexadecimal digit `c`, in either case.
pub open spec fn hex_value(c: char) -> Option<int> {
    if '0' <= c <= '9' {
        Some(c as int - '0' as int)
    } else if 'a' <= c <= 'f' {
        Some(c as int - 'a' as int + 10)
    } else if 'A' <= c <= 'F' {
        Some(c as int - 'A' as int + 10)
    } else {
        None
    }
}

/// `s` writes an identifier: twenty-four hexadecimal digits.
pub open spec fn is_object_id_text(s: Seq<char>) -> bool {
    &&& s.len() == 24
    &&& forall|i: int| 0 <= i < 24 ==> hex_value(#[trigger] s[i]) is Some
}

/// `s` writes an identifier as the store writes it: twenty-four hexadecimal
/// digits, none of them an upper-case letter.
pub open spec fn is_lower_case_object_id_text(s: Seq<char>) -> bool {
    &&& is_object_id_text(s)
    &&& forall|i: int| 0 <= i < 24 ==> lower_hex(#[trigger] s[i]) == s[i]
}

/// The byte that the two hexadecimal digits `high` and `low` write.
pub open spec fn hex_pair_value(high: char, low: char) -> u8 {
    (hex_value(high)->0 * 16 + hex_value(low)->0) as u8
}

/// The twelve bytes that the identifier text `s` writes.
pub open spec fn object_id_bytes(s: Seq<char>) -> Seq<u8> {
    Seq::new(12, |i: int| hex_pair_value(s[2 * i], s[2 * i + 1]))
}

/// The lower-case hexadecimal digit of `v`.
pub open spec fn hex_char(v: int) -> char {
    if v < 10 {
        ('0' as int + v) as char
    } else {
        ('a' as int + v - 10) as char
    }
}

/// The text of an identifier: two lower-case digits for each byte, the high
/// half first.
pub open spec fn object_id_text(bytes: Seq<u8>) -> Seq<char> {
    Seq::new(
        2 * bytes.len(),
        |i: int|
            if i % 2 == 0 {
                hex_char(bytes[i / 2] as int / 16)
            } else {
                hex_char(bytes[i / 2] as int % 16)
            },
    )
}

/// `c` with an upper-case hexadecimal letter turned to lower case.
pub open spec fn lower_hex(c: char) -> char {
    if 'A' <= c <= 'F' {
        (c as int - 'A' as int + 'a' as int) as char
    } else {
        c
    }
}

/// The message of the error with which `ObjectId::parse_str` refuses
/// `text`. It names the text, and either its length or the first character
/// that is no hexadecimal digit, with its place.
pub uninterp spec fn object_id_refusal(text: Seq<char>) -> Seq<char>;

/// `ObjectId::parse_str`, with the identifier as its bytes and the error as
/// its message. The parser takes exactly the texts of twenty-four
/// hexadecimal digits, in either case, and reads each pair of digits as one
/// byte, high half first.
#[verifier::external_body]
pub(crate) fn parse_object_id(text: &str) -> (parsed: Result<[u8; 12], String>)
    ensures
        match parsed {
            Ok(bytes) => is_object_id_text(text@) && bytes@ == object_id_bytes(text@),
            Err(reason) => !is_object_id_text(text@) && reason@ == object_id_refusal(text@),
        },
{
    match ObjectId::parse_str(text) {
        Ok(id) => Ok(id.bytes()),
        Err(error) => Err(error.to_string()),
    }
}

/// `ObjectId::to_hex`, on the identifier with the given bytes: two lower-case
/// hexadecimal digits for each byte, high half first.
#[verifier::external_body]
pub(crate) fn object_id_to_hex(bytes: &[u8; 12]) -> (text: String)
    ensures
        text@ == object_id_text(bytes@),
{
    ObjectId::from_bytes(*bytes).to_hex()
}

/// The text of an identifier of twelve bytes is well formed, in lower case,
/// and reads back as the same bytes.
pub proof fn lemma_object_id_text_reads_back(bytes: Seq<u8>)
    requires
        bytes.len() == 12,
    ensures
        is_lower_case_object_id_text(object_id_text(bytes)),
        object_id_bytes(object_id_text(bytes)) == bytes,
{
    let text = object_id_text(bytes);
    assert forall|i: int| 0 <= i < 24 implies hex_value(#[trigger] text[i]) is Some && lower_hex(
        text[i],
    ) == text[i] by {
        let byte = bytes[i / 2] as int;
        assert(text[i] == hex_char(byte / 16) || text[i] == hex_char(byte % 16));
    }
    assert forall|i: int| 0 <= i < 12 implies #[trigger] object_id_bytes(text)[i] == bytes[i] by {
        let byte = bytes[i] as int;
        assert(text[2 * i] == hex_char(byte / 16));
        assert(text[2 * i + 1] == hex_char(byte % 16));
    }
}

/// Writing the bytes of an identifier text gives the text in lower case.
pub proof fn lemma_object_id_text_is_lower_case(s: Seq<char>)
    requires
        is_object_id_text(s),
    ensures
        object_id_text(object_id_bytes(s)) == s.map_values(|c: char| lower_hex(c)),
{
    let bytes = object_id_bytes(s);
    let text = object_id_text(bytes);
    let lowered = s.map_values(|c: char| lower_hex(c));
    assert forall|i: int| 0 <= i < 24 implies text[i] == lowered[i] by {
        let k = i / 2;
        assert(bytes[k] == hex_pair_value(s[2 * k], s[2 * k + 1]));
    }
}

} // verus!
