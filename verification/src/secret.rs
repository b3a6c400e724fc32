//! Fresh secrets.

use vstd::prelude::*;

verus! {

/// A small hexadecimal digit.
pub open spec fn is_hex_digit(c: char) -> bool {
    ('0' <= c && c <= '9') || ('a' <= c && c <= 'f')
}

/// Whether the character `c` may stand at position `at` of a random
/// identifier: a hyphen after the 8th, 12th, 16th and 20th digit, a small
/// hexadecimal digit elsewhere.
pub open spec fn fits_position(at: int, c: char) -> bool {
    if at == 8 || at == 13 || at == 18 || at == 23 {
        c == '-'
    } else {
        is_hex_digit(c)
    }
}

/// The canonical text of a random identifier of 128 bits: 36 characters,
/// each fit for its position, the 13th digit a `4` and the 17th one of
/// `8 9 a b`.
pub open spec fn is_random_identifier(text: Seq<char>) -> bool {
    &&& text.len() == 36
    &&& forall|i: int| 0 <= i < 36 ==> fits_position(i, #[trigger] text[i])
    &&& text[14] == '4'
    &&& (text[19] == '8' || text[19] == '9' || text[19] == 'a' || text[19] == 'b')
}

/// `uuid::Uuid::new_v4`, then the identifier's `Display`: a fresh random
/// identifier in its canonical text. Which one is a matter of chance; its
/// form is not. (The call panics if the operating system gives no random
/// bytes.)
#[verifier::external_body]
pub(crate) fn fresh_secret() -> (secret: String)
    ensures
        is_random_identifier(secret@),
{
    uuid::Uuid::new_v4().to_string()
}

} // verus!
