//! Fresh identifiers.

use vstd::prelude::*;

verus! {

/// The length of a UUID written in its hyphenated form.
pub const UUID_TEXT_LENGTH: usize = 36;

/// Whether `c` is a hexadecimal digit in lower case.
pub open spec fn is_lower_hex(c: char) -> bool {
    ('0' <= c && c <= '9') || ('a' <= c && c <= 'f')
}

/// Whether position `i` of a UUID in its hyphenated form holds a hyphen.
pub open spec fn is_hyphen_position(i: int) -> bool {
    i == 8 || i == 13 || i == 18 || i == 23
}

/// Whether `text` has the hyphenated form of a UUID: 32 hexadecimal digits in
/// lower case, in groups of 8, 4, 4, 4 and 12 with a hyphen between groups.
pub open spec fn is_uuid_text(text: Seq<char>) -> bool {
    &&& text.len() == UUID_TEXT_LENGTH
    &&& forall|i: int|
        0 <= i < text.len() ==> if is_hyphen_position(i) {
            #[trigger] text[i] == '-'
        } else {
            is_lower_hex(text[i])
        }
}

/// A fresh random identifier as text.
///
/// Trusted: draws a version 4 UUID with `uuid::Uuid::new_v4` and writes it
/// with the crate's `Display`, which is the hyphenated form in lower case.
/// The contract claims only what holds of every draw: the text has that
/// form. That two draws differ is left to chance and is not claimed.
#[verifier::external_body]
pub(crate) fn random_uuid_text() -> (text: String)
    ensures
        is_uuid_text(text@),
{
    uuid::Uuid::new_v4().to_string()
}

} // verus!
