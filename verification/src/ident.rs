//! Identifiers for what has no name of its own.

use vstd::prelude::*;

verus! {

/// Whether `c` is a digit of a number written to base sixteen in small letters.
pub open spec fn is_hex_digit(c: char) -> bool {
    '0' <= c <= '9' || 'a' <= c <= 'f'
}

/// Whether `s` is a random (version 4) UUID in its hyphenated form.
pub open spec fn is_uuid_v4(s: Seq<char>) -> bool {
    &&& s.len() == 36
    &&& forall|i: int|
        0 <= i < 36 ==> if i == 8 || i == 13 || i == 18 || i == 23 {
            #[trigger] s[i] == '-'
        } else {
            is_hex_digit(s[i])
        }
    &&& s[14] == '4'
    &&& s[19] == '8' || s[19] == '9' || s[19] == 'a' || s[19] == 'b'
}

/// `uuid::Uuid::new_v4` draws a random UUID, which `Uuid`'s `Display` writes in small letters with
/// hyphens. Nothing is said of which one is drawn. The call panics where the operating system has
/// no random bytes to give.
#[verifier::external_body]
pub(crate) fn random_uuid() -> (uuid: String)
    ensures
        is_uuid_v4(uuid@),
{
    uuid::Uuid::new_v4().to_string()
}

} // verus!
