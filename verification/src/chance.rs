//! Random numbers for jitter and for upload names.
use vstd::prelude::*;

verus! {

/// `rand::random_range` over `0..bound`: a number drawn from the range, which it
/// demands to be non-empty. Which number comes is chance.
#[verifier::external_body]
pub(crate) fn random_below(bound: u64) -> (n: u64)
    requires
        bound > 0,
    ensures
        n < bound,
{
    rand::random_range(0..bound)
}

/// A lower-case hexadecimal digit.
pub open spec fn is_hex(c: char) -> bool {
    ('0' <= c && c <= '9') || ('a' <= c && c <= 'f')
}

/// The text of a random UUID: groups of 8, 4, 4, 4 and 12 hexadecimal digits
/// joined by hyphens, with the marks of version 4 and of its variant.
pub open spec fn is_random_uuid(text: Seq<char>) -> bool {
    &&& text.len() == 36
    &&& forall|i: int|
        0 <= i < 36 ==> if i == 8 || i == 13 || i == 18 || i == 23 {
            #[trigger] text[i] == '-'
        } else {
            is_hex(text[i])
        }
    &&& text[14] == '4'
    &&& text[19] == '8' || text[19] == '9' || text[19] == 'a' || text[19] == 'b'
}

/// `uuid::Uuid::new_v4` in its `Display` form. Which UUID comes is chance; its
/// shape is not.
#[verifier::external_body]
pub(crate) fn random_uuid() -> (text: String)
    ensures
        is_random_uuid(text@),
{
    uuid::Uuid::new_v4().to_string()
}

} // verus!
