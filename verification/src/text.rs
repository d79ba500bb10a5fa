use vstd::prelude::*;

verus! {

/// The characters `str::to_lowercase` produces for the given characters;
/// the result depends on the characters alone.
pub uninterp spec fn lower_of(s: Seq<char>) -> Seq<char>;

/// The characters `str::trim` leaves after removing leading and trailing
/// whitespace; the result depends on the characters alone.
pub uninterp spec fn trim_of(s: Seq<char>) -> Seq<char>;

/// A textual value as the keyword tables read it: trimmed, then lowercased.
pub open spec fn canon(s: Seq<char>) -> Seq<char> {
    lower_of(trim_of(s))
}

/// Relies on `str::trim`: it removes leading and trailing whitespace, a
/// function of the characters alone, named `trim_of`.
#[verifier::external_body]
pub(crate) fn trim_str(s: &str) -> (r: &str)
    ensures
        r@ == trim_of(s@),
{
    s.trim()
}

/// Relies on `str::to_lowercase`: it lowercases the text, a function of
/// the characters alone, named `lower_of`.
#[verifier::external_body]
pub(crate) fn lower_str(s: &str) -> (r: String)
    ensures
        r@ == lower_of(s@),
{
    s.to_lowercase()
}

/// Relies on `<str as PartialEq>::eq`: two string slices compare equal
/// exactly when they hold the same characters.
#[verifier::external_body]
pub(crate) fn str_eq(a: &str, b: &str) -> (r: bool)
    ensures
        r == (a@ == b@),
{
    a == b
}

/// Relies on `str::strip_prefix` with a string pattern: the result is
/// `Some` exactly when the string starts with the prefix, and then holds
/// the remainder after it.
#[verifier::external_body]
pub(crate) fn strip_prefix_str<'a>(s: &'a str, prefix: &str) -> (r: Option<&'a str>)
    ensures
        r is Some <==> prefix@.is_prefix_of(s@),
        r matches Some(rest) ==> s@ == prefix@ + rest@,
{
    s.strip_prefix(prefix)
}

/// Normalizes a textual value the way the keyword tables expect it:
/// trimmed, then lowercased.
pub(crate) fn canon_str(value: &str) -> (r: String)
    ensures
        r@ == canon(value@),
{
    let trimmed = trim_str(value);
    lower_str(trimmed)
}

} // verus!

