//! Trusted views of a few standard string operations that the library's
//! logic depends on: lowercasing, trimming, and substring search.

use vstd::prelude::*;

verus! {

/// The lowercase form of a string, as `str::to_lowercase` computes it.
/// It depends on the characters alone, so it is given a name rather than
/// a definition.
pub uninterp spec fn lower_of(s: Seq<char>) -> Seq<char>;

/// A string with its leading and trailing whitespace removed, as
/// `str::trim` computes it. Which characters count as whitespace is
/// Unicode's business, so the result is given a name rather than a
/// definition.
pub uninterp spec fn trim_of(s: Seq<char>) -> Seq<char>;

/// The needle occurs as a contiguous run of characters inside the haystack.
pub open spec fn spec_contains(hay: Seq<char>, needle: Seq<char>) -> bool {
    exists|i: int|
        0 <= i && i + needle.len() <= hay.len() && #[trigger] hay.subrange(i, i + needle.len())
            == needle
}

/// Relies on `str::to_lowercase`: the lowercase mapping of the characters,
/// which depends on the characters alone.
#[verifier::external_body]
pub(crate) fn to_lowercase(s: &str) -> (r: String)
    ensures
        r@ == lower_of(s@),
{
    s.to_lowercase()
}

/// Relies on `str::trim`: the input with leading and trailing whitespace
/// removed, which depends on the characters alone.
#[verifier::external_body]
pub(crate) fn trim<'a>(s: &'a str) -> (r: &'a str)
    ensures
        r@ == trim_of(s@),
{
    s.trim()
}

/// Relies on `str` equality: two string slices compare equal exactly when
/// their characters do.
#[verifier::external_body]
pub(crate) fn str_eq(a: &str, b: &str) -> (r: bool)
    ensures
        r == (a@ == b@),
{
    a == b
}

/// Relies on `str::contains` with a string pattern: true exactly when the
/// needle occurs as a contiguous substring of the haystack.
#[verifier::external_body]
pub(crate) fn str_contains(hay: &str, needle: &str) -> (r: bool)
    ensures
        r == spec_contains(hay@, needle@),
{
    hay.contains(needle)
}

} // verus!
