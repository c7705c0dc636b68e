//! Text matching for the search over entries.

use vstd::prelude::*;

verus! {

/// The lower-case form that the standard library gives to `text`.
pub uninterp spec fn lowercased(text: Seq<char>) -> Seq<char>;

/// Whether `part` stands in `text` from the place `start` on.
pub open spec fn part_at(text: Seq<char>, part: Seq<char>, start: int) -> bool {
    0 <= start && start + part.len() <= text.len() && text.subrange(start, start + part.len())
        == part
}

/// Whether `part` stands somewhere in `text`. The empty text stands in
/// every text.
pub open spec fn has_part(text: Seq<char>, part: Seq<char>) -> bool {
    exists|start: int| part_at(text, part, start)
}

/// `str::to_lowercase`. The result depends on the text alone and takes the
/// Unicode tables to state, so it is named [`lowercased`].
#[verifier::external_body]
pub(crate) fn to_lowercase(text: &str) -> (lower: String)
    ensures
        lower@ == lowercased(text@),
{
    text.to_lowercase()
}

/// `str::contains` with a string as the pattern: whether the pattern is a
/// substring of the text.
#[verifier::external_body]
pub(crate) fn contains(text: &str, part: &str) -> (found: bool)
    ensures
        found == has_part(text@, part@),
{
    text.contains(part)
}

/// Whether `part` stands somewhere in `text` when the case of letters is
/// left aside: whether the lower-case form of `part` stands in that of
/// `text`.
pub open spec fn has_part_ignoring_case(text: Seq<char>, part: Seq<char>) -> bool {
    has_part(lowercased(text), lowercased(part))
}

/// Whether `lower_part`, a text already in lower case, stands in the
/// lower-case form of `text`.
pub fn holds_lowercase(text: &str, lower_part: &str) -> (found: bool)
    ensures
        found == has_part(lowercased(text@), lower_part@),
{
    let lower = to_lowercase(text);
    contains(lower.as_str(), lower_part)
}

} // verus!
