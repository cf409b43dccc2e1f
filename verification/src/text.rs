//! Matching device names against a filter.

use vstd::prelude::*;

verus! {

/// The lower-case form of a text, as the standard library's Unicode tables
/// give it.
pub uninterp spec fn lowercase_of(text: Seq<char>) -> Seq<char>;

/// Whether `needle` stands in `haystack` from the place `start` on.
pub open spec fn occurs_at(needle: Seq<char>, haystack: Seq<char>, start: int) -> bool {
    &&& 0 <= start
    &&& start + needle.len() <= haystack.len()
    &&& haystack.subrange(start, start + needle.len()) == needle
}

/// Whether `needle` occurs in `haystack` as a run of consecutive characters.
/// The empty text occurs in every text.
pub open spec fn is_substring(needle: Seq<char>, haystack: Seq<char>) -> bool {
    exists|start: int| occurs_at(needle, haystack, start)
}

/// Whether a device name passes a filter that is already in lower case: every
/// name passes when there is no filter, and otherwise those whose lower-case
/// form contains the filter.
pub open spec fn name_passes(name: Seq<char>, name_filter: Option<Seq<char>>) -> bool {
    name_filter matches Some(filter) ==> is_substring(filter, lowercase_of(name))
}

/// `str::to_lowercase`. Nothing is proved of it: the contract only names the
/// text that the standard library returns for this input.
#[verifier::external_body]
pub(crate) fn to_lowercase(text: &str) -> (lower: String)
    ensures
        lower@ == lowercase_of(text@),
{
    text.to_lowercase()
}

/// `str::contains` with a string pattern. Nothing is proved of it: the
/// contract states what the standard library documents, that the result says
/// whether the pattern matches a sub-slice of the text.
#[verifier::external_body]
fn str_contains(haystack: &str, needle: &str) -> (found: bool)
    ensures
        found == is_substring(needle@, haystack@),
{
    haystack.contains(needle)
}

/// Whether `needle` occurs in `haystack`, case and all.
pub fn contains(haystack: &str, needle: &str) -> (found: bool)
    ensures
        found == is_substring(needle@, haystack@),
{
    str_contains(haystack, needle)
}

/// Whether a device name passes a filter that is already in lower case. The
/// match ignores the case of the name only.
pub fn passes_name_filter(name: &str, name_filter: Option<&str>) -> (passes: bool)
    ensures
        passes == name_passes(name@, name_filter.deep_view()),
{
    match name_filter {
        None => true,
        Some(filter) => {
            let lower = to_lowercase(name);
            contains(lower.as_str(), filter)
        },
    }
}

} // verus!
