//! Machine identifiers: kebab-case names.

use vstd::prelude::*;

verus! {

/// A lower-case ASCII letter.
pub open spec fn lower_letter(c: char) -> bool {
    'a' <= c <= 'z'
}

/// A lower-case ASCII letter or an ASCII digit.
pub open spec fn lower_alphanumeric(c: char) -> bool {
    lower_letter(c) || ('0' <= c <= '9')
}

/// Kebab case: a lower-case letter, then lower-case letters and digits, in
/// segments separated by single hyphens, never ending in a hyphen; the
/// language of `^[a-z][a-z0-9]*(?:-[a-z0-9]+)*$`.
pub open spec fn kebab_case(text: Seq<char>) -> bool {
    &&& text.len() > 0
    &&& lower_letter(text[0])
    &&& forall|i: int| 0 <= i < text.len() ==> (lower_alphanumeric(#[trigger] text[i]) || text[i] == '-')
    &&& text.last() != '-'
    &&& forall|i: int| 0 < i < text.len() && #[trigger] text[i] == '-' ==> text[i - 1] != '-'
}

/// `Regex::is_match` with the pattern `^[a-z][a-z0-9]*(?:-[a-z0-9]+)*$`.
/// By the regex crate's documented syntax (anchors `^` and `$` at the ends of
/// the haystack, character classes over Unicode scalar values), a text
/// matches exactly when it is `kebab_case`. The pattern is valid, so
/// compiling it does not fail.
#[verifier::external_body]
fn matches_kebab_case(value: &str) -> (matched: bool)
    ensures
        matched == kebab_case(value@),
{
    regex::Regex::new(r"^[a-z][a-z0-9]*(?:-[a-z0-9]+)*$").unwrap().is_match(value)
}

/// A kebab-case identifier.
#[derive(Debug, Clone, PartialEq, Eq)]
pub struct Identifier(String);

impl View for Identifier {
    type V = Seq<char>;

    closed spec fn view(&self) -> Seq<char> {
        self.0@
    }
}

impl Identifier {
    /// The identifier's text.
    pub fn as_str(&self) -> (text: &str)
        ensures
            text@ == self@,
    {
        self.0.as_str()
    }

    /// The identifier spelled by `value`, if it is kebab case.
    pub fn parse(value: &str) -> (identifier: Option<Identifier>)
        ensures
            identifier is Some <==> kebab_case(value@),
            identifier matches Some(id) ==> id@ == value@,
    {
        if matches_kebab_case(value) {
            Some(Identifier(crate::text::owned(value)))
        } else {
            None
        }
    }
}

} // verus!
