//! Identifiers of catalogue entries.

use vstd::prelude::*;

verus! {

/// Whether `c` is a digit of lower-case hexadecimal.
pub open spec fn is_lower_hex(c: char) -> bool {
    ('0' <= c && c <= '9') || ('a' <= c && c <= 'f')
}

/// Whether `s` is the hyphenated lower-case text of a random (version 4)
/// UUID: 36 chars, hyphens after the groups of 8, 4, 4 and 4 hexadecimal
/// digits, the version digit `4` and a variant digit of `8` to `b`.
pub open spec fn is_entry_id(s: Seq<char>) -> bool {
    &&& s.len() == 36
    &&& forall|i: int|
        0 <= i < 36 ==> if i == 8 || i == 13 || i == 18 || i == 23 {
            #[trigger] s[i] == '-'
        } else {
            is_lower_hex(s[i])
        }
    &&& s[14] == '4'
    &&& (s[19] == '8' || s[19] == '9' || s[19] == 'a' || s[19] == 'b')
}

/// Draws a fresh identifier.
///
/// Trusted: calls `uuid::Uuid::new_v4` and writes the result with its
/// `Display`. The contract claims the shape of the text only, which holds of
/// every UUID of version 4 in the hyphenated lower-case form that `Display`
/// gives; which identifier comes is left open, as it is drawn at random.
#[verifier::external_body]
pub(crate) fn fresh_id() -> (id: String)
    ensures
        is_entry_id(id@),
{
    uuid::Uuid::new_v4().to_string()
}

} // verus!
