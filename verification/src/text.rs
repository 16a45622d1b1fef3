//! Text: search within names and the base form of an emoji's characters.

use vstd::prelude::*;

verus! {

/// The variation selector that asks for the emoji presentation.
pub const EMOJI_PRESENTATION: char = '\u{fe0f}';

/// The variation selector that asks for the text presentation.
pub const TEXT_PRESENTATION: char = '\u{fe0e}';

/// Whether `needle` stands in `haystack` at the position `at`.
pub open spec fn occurs_at(haystack: Seq<char>, needle: Seq<char>, at: int) -> bool {
    &&& 0 <= at
    &&& at + needle.len() <= haystack.len()
    &&& haystack.subrange(at, at + needle.len()) == needle
}

/// Whether `needle` stands somewhere in `haystack`, character for
/// character. The empty text stands in every text.
pub open spec fn contains_text(haystack: Seq<char>, needle: Seq<char>) -> bool {
    exists|at: int| occurs_at(haystack, needle, at)
}

/// The characters of a text without the two variation selectors.
pub open spec fn without_selectors(text: Seq<char>) -> Seq<char> {
    text.filter(|c: char| c != EMOJI_PRESENTATION && c != TEXT_PRESENTATION)
}

/// Whether a name matches what was typed into the search field: nothing
/// typed matches every name, and a text matches the names in which it
/// stands, upper and lower case told apart.
pub open spec fn matches_search(name: Seq<char>, search: Seq<char>) -> bool {
    search.len() == 0 || contains_text(name, search)
}

/// `str::contains` with a string as the pattern: whether the second text
/// stands somewhere in the first. The documentation of std says that it
/// returns true where the pattern matches a sub-slice of the string; this
/// states it over the characters of both.
#[verifier::external_body]
fn str_contains(haystack: &str, needle: &str) -> (found: bool)
    ensures
        found == contains_text(haystack@, needle@),
{
    haystack.contains(needle)
}

/// `str::replace` with two characters as the pattern and the empty string
/// as the replacement: the text without every occurrence of either
/// character, the others in their order.
#[verifier::external_body]
fn str_without(text: &str, first: char, second: char) -> (rest: String)
    ensures
        rest@ == text@.filter(|c: char| c != first && c != second),
{
    text.replace(&[first, second], "")
}

/// The empty text stands in every text.
pub proof fn lemma_empty_text_occurs(haystack: Seq<char>)
    ensures
        contains_text(haystack, Seq::<char>::empty()),
        matches_search(haystack, Seq::<char>::empty()),
{
    assert(haystack.subrange(0, 0) =~= Seq::<char>::empty());
    assert(occurs_at(haystack, Seq::<char>::empty(), 0));
}

/// Whether a name matches the search text.
pub fn name_matches(name: &str, search: &str) -> (matches: bool)
    ensures
        matches == matches_search(name@, search@),
{
    search.is_empty() || str_contains(name, search)
}

/// The characters of an emoji without variation selectors: the key under
/// which its annotation is found.
pub fn base_glyph(glyph: &str) -> (base: String)
    ensures
        base@ == without_selectors(glyph@),
{
    str_without(glyph, EMOJI_PRESENTATION, TEXT_PRESENTATION)
}

} // verus!
