//! Identifiers of records and of requests: random UUIDs in their usual text.

use vstd::prelude::*;

verus! {

/// `c` is a hexadecimal digit in lower case.
pub open spec fn is_lower_hex(c: char) -> bool {
    '0' <= c <= '9' || 'a' <= c <= 'f'
}

/// `c` may stand at place `at` of a UUID's text: a hyphen after the eighth,
/// twelfth, sixteenth and twentieth digit, a digit everywhere else.
pub open spec fn fits_uuid_at(at: int, c: char) -> bool {
    if at == 8 || at == 13 || at == 18 || at == 23 {
        c == '-'
    } else {
        is_lower_hex(c)
    }
}

/// `text` has the shape of a UUID: 32 hexadecimal digits in lower case, in
/// groups of 8, 4, 4, 4 and 12 with a hyphen between them.
pub open spec fn is_uuid_text(text: Seq<char>) -> bool {
    &&& text.len() == 36
    &&& forall|at: int| 0 <= at < 36 ==> fits_uuid_at(at, #[trigger] text[at])
}

/// `text` has the shape of a random UUID: that of a UUID, with the digit
/// that tells version 4 and one of the four that tell the usual variant.
pub open spec fn is_random_uuid_text(text: Seq<char>) -> bool {
    &&& is_uuid_text(text)
    &&& text[14] == '4'
    &&& text[19] == '8' || text[19] == '9' || text[19] == 'a' || text[19] == 'b'
}

/// `uuid::Uuid::new_v4`, written out by the `Display` of `Uuid`.
///
/// The identifier is random, so the contract states its shape only: `Uuid`
/// displays itself hyphenated, with its digits in lower case, and `new_v4`
/// sets the bits of version and variant. Where the system has no random
/// bytes to give, `new_v4` panics.
#[verifier::external_body]
fn random_uuid_text() -> (text: String)
    ensures
        is_random_uuid_text(text@),
{
    uuid::Uuid::new_v4().to_string()
}

/// A fresh identifier. Two calls give two identifiers, whatever the chance
/// of their being equal; the contract states their shape.
pub fn fresh_id() -> (id: String)
    ensures
        is_random_uuid_text(id@),
{
    random_uuid_text()
}

} // verus!
