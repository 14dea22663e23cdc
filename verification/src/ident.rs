//! Row identifiers: random UUIDs in their hyphenated text form.

use uuid::Uuid;
use vstd::prelude::*;

verus! {

/// How many characters the hyphenated form of a UUID has.
pub const UUID_TEXT_LENGTH: usize = 36;

/// `c` is a hexadecimal digit in lower case.
pub open spec fn is_lower_hex_digit(c: char) -> bool {
    ('0' <= c && c <= '9') || ('a' <= c && c <= 'f')
}

/// Position `i` of a hyphenated UUID holds a hyphen.
pub open spec fn is_hyphen_position(i: int) -> bool {
    i == 8 || i == 13 || i == 18 || i == 23
}

/// `s` is a UUID in hyphenated lower-case form: 32 hexadecimal digits in
/// groups of 8, 4, 4, 4 and 12, with a hyphen between groups.
pub open spec fn is_uuid_text(s: Seq<char>) -> bool {
    &&& s.len() == UUID_TEXT_LENGTH
    &&& forall|i: int|
        0 <= i < s.len() ==> if is_hyphen_position(i) {
            #[trigger] s[i] == '-'
        } else {
            is_lower_hex_digit(s[i])
        }
}

/// `s` is the text of a random (version 4) UUID of the RFC 4122 variant:
/// the third group starts with `4`, the fourth with `8`, `9`, `a` or `b`.
pub open spec fn is_random_uuid_text(s: Seq<char>) -> bool {
    &&& is_uuid_text(s)
    &&& s[14] == '4'
    &&& (s[19] == '8' || s[19] == '9' || s[19] == 'a' || s[19] == 'b')
}

/// `Uuid::new_v4`, written out by the crate's `Display`: the hyphenated
/// lower-case text of a version 4 UUID made from 16 bytes of the operating
/// system's randomness. Which UUID is open; that two results differ is not
/// claimed. The crate panics where the system has no randomness to give.
#[verifier::external_body]
pub(crate) fn random_uuid_text() -> (text: String)
    ensures
        is_random_uuid_text(text@),
{
    Uuid::new_v4().to_string()
}

} // verus!
