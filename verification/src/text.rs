use vstd::prelude::*;

verus! {

/// Compares two string slices for equality.
///
/// Trusted: calls `<str as PartialEq>::eq` from std, which is documented to
/// compare the two strings character by character; the contract claims the
/// result is `true` exactly when both views are the same character sequence.
#[verifier::external_body]
pub(crate) fn str_eq(a: &str, b: &str) -> (r: bool)
    ensures
        r == (a@ == b@),
{
    a == b
}

/// The character sequences of a sequence of strings.
pub open spec fn views_of(s: Seq<String>) -> Seq<Seq<char>> {
    s.map_values(|x: String| x@)
}

/// Copies a string slice into an owned `String` with the same characters.
pub fn owned(s: &str) -> (r: String)
    ensures
        r@ == s@,
{
    s.to_string()
}

} // verus!
