use vstd::prelude::*;

verus! {

/// The one identifier type of the graph: nodes, edges and connectors are all
/// named by a `StandardId`.
pub type StandardId = String;

/// Types that can mint a new identifier.
pub trait IdentifierExt: Sized {
    /// Generates a new unique identifier.
    fn generate() -> Self;
}

/// Draws a random version-4 UUID with `uuid::Uuid::new_v4` and writes it in
/// its hyphenated lower-case form; the contract claims the shape of that
/// text. Which identifier comes back is left open: it is random. The call
/// does not return where the operating system hands out no random bytes.
#[verifier::external_body]
fn random_uuid_text() -> (id: String)
    ensures
        is_uuid_text(id@),
{
    uuid::Uuid::new_v4().to_string()
}

impl IdentifierExt for StandardId {
    /// A new identifier: the text of a random version-4 UUID.
    fn generate() -> (id: Self)
        ensures
            is_uuid_text(id@),
    {
        random_uuid_text()
    }
}

/// The character is a decimal digit or one of the letters `a` to `f`.
pub open spec fn is_lower_hex_digit(c: char) -> bool {
    c == '0' || c == '1' || c == '2' || c == '3' || c == '4' || c == '5' || c == '6' || c == '7'
        || c == '8' || c == '9' || c == 'a' || c == 'b' || c == 'c' || c == 'd' || c == 'e'
        || c == 'f'
}

/// The text is a version-4 UUID in its hyphenated lower-case form: 36
/// characters in groups of 8, 4, 4, 4 and 12 hexadecimal digits with a hyphen
/// between two groups, the third group starting with the version digit `4`
/// and the fourth with one of the variant digits `8`, `9`, `a` and `b`.
pub open spec fn is_uuid_text(text: Seq<char>) -> bool {
    &&& text.len() == 36
    &&& forall|i: int|
        0 <= i < 36 ==> if i == 8 || i == 13 || i == 18 || i == 23 {
            #[trigger] text[i] == '-'
        } else {
            is_lower_hex_digit(text[i])
        }
    &&& text[14] == '4'
    &&& text[19] == '8' || text[19] == '9' || text[19] == 'a' || text[19] == 'b'
}

} // verus!
