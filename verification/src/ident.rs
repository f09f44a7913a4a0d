//! Session identifiers.

use vstd::prelude::*;
use crate::text::has_nul;

verus! {

/// A digit of lower-case hexadecimal.
pub open spec fn is_lower_hex(c: char) -> bool {
    ('0' <= c && c <= '9') || ('a' <= c && c <= 'f')
}

/// The canonical text of a UUID: 32 lower-case hexadecimal digits in groups
/// of 8, 4, 4, 4 and 12, with a hyphen between the groups.
pub open spec fn is_hyphenated_uuid(text: Seq<char>) -> bool {
    &&& text.len() == 36
    &&& forall|i: int|
        0 <= i < 36 ==> if i == 8 || i == 13 || i == 18 || i == 23 {
            #[trigger] text[i] == '-'
        } else {
            is_lower_hex(text[i])
        }
}

/// The canonical text of a random UUID: the first digit of the third group
/// is the version, 4, and the first digit of the fourth group carries the
/// variant, which leaves it one of 8, 9, a and b.
pub open spec fn is_random_uuid(text: Seq<char>) -> bool {
    &&& is_hyphenated_uuid(text)
    &&& text[14] == '4'
    &&& (text[19] == '8' || text[19] == '9' || text[19] == 'a' || text[19] == 'b')
}

/// The text of a UUID holds no NUL: an identifier that was drawn can always
/// be handed over as null-terminated text.
pub proof fn lemma_uuid_has_no_nul(text: Seq<char>)
    requires
        is_hyphenated_uuid(text),
    ensures
        !has_nul(text),
{
}

/// Draws a random identifier with `uuid::Uuid::new_v4` and writes it out
/// through the `Display` impl of `Uuid`.
///
/// Trusted: the text has the canonical hyphenated lower-case shape, with the
/// version and variant digits that `new_v4` sets. Which identifier is drawn
/// is not stated, nor that it differs from earlier ones. `new_v4` does not
/// return where the operating system hands out no random bytes.
#[verifier::external_body]
pub(crate) fn fresh_session_id() -> (id: String)
    ensures
        is_random_uuid(id@),
{
    uuid::Uuid::new_v4().to_string()
}

} // verus!
