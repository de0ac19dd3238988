//! Text primitives that the picker and the generators share.

use vstd::prelude::*;

verus! {

/// `needle` occurs in `hay` starting at position `i`.
pub open spec fn occurs_at(needle: Seq<char>, hay: Seq<char>, i: int) -> bool {
    0 <= i && i + needle.len() <= hay.len() && hay.subrange(i, i + needle.len()) == needle
}

/// `needle` occurs in `hay` as a contiguous run of characters.
pub open spec fn is_substring(needle: Seq<char>, hay: Seq<char>) -> bool {
    exists|i: int| occurs_at(needle, hay, i)
}

/// `text` ends with `suffix`.
pub open spec fn is_suffix(suffix: Seq<char>, text: Seq<char>) -> bool {
    suffix.len() <= text.len() && text.subrange(text.len() - suffix.len(), text.len() as int)
        == suffix
}

/// The lowercase form of a text, as the standard library computes it.
pub uninterp spec fn lowercase(text: Seq<char>) -> Seq<char>;

/// Whether `hay` contains `needle`.
///
/// Trusted: calls `str::contains` with a string pattern, which the standard
/// library documents as true exactly when the pattern matches a sub-slice of
/// the string. Matching on UTF-8 bytes and on characters agree because the
/// encoding is self-synchronising.
#[verifier::external_body]
pub(crate) fn contains_str(hay: &str, needle: &str) -> (found: bool)
    ensures
        found == is_substring(needle@, hay@),
{
    hay.contains(needle)
}

/// Whether `text` ends with `suffix`.
///
/// Trusted: calls `str::ends_with` with a string pattern, documented as true
/// exactly when the pattern matches a suffix of the string.
#[verifier::external_body]
pub(crate) fn ends_with_str(text: &str, suffix: &str) -> (found: bool)
    ensures
        found == is_suffix(suffix@, text@),
{
    text.ends_with(suffix)
}

/// The lowercase form of `text`.
///
/// Trusted: calls `str::to_lowercase`. Its result follows the Unicode
/// case mapping, which is not restated here; the contract only gives the
/// result its name, a function of the text alone.
#[verifier::external_body]
pub(crate) fn to_lowercase(text: &str) -> (lowered: String)
    ensures
        lowered@ == lowercase(text@),
{
    text.to_lowercase()
}

/// Appends one character.
///
/// Trusted: calls `String::push`, documented to append the character to the
/// end of the string.
#[verifier::external_body]
pub(crate) fn push_char(text: &mut String, c: char)
    ensures
        final(text)@ == old(text)@.push(c),
{
    text.push(c)
}

/// Removes the last character, if there is one.
///
/// Trusted: calls `String::pop`, documented to remove the last character
/// and return it, or to return `None` on an empty string.
#[verifier::external_body]
pub(crate) fn pop_char(text: &mut String) -> (removed: Option<char>)
    ensures
        old(text)@.len() == 0 ==> removed is None && final(text)@ == old(text)@,
        old(text)@.len() > 0 ==> removed == Some(old(text)@.last()) && final(text)@ == old(
            text,
        )@.drop_last(),
{
    text.pop()
}

/// Removes every character.
///
/// Trusted: calls `String::clear`, documented to truncate the string to
/// length zero.
#[verifier::external_body]
pub(crate) fn clear_text(text: &mut String)
    ensures
        final(text)@ == Seq::<char>::empty(),
{
    text.clear()
}

/// The empty text occurs in every text.
pub proof fn lemma_empty_is_substring(hay: Seq<char>)
    ensures
        is_substring(Seq::<char>::empty(), hay),
{
    assert(hay.subrange(0, 0) =~= Seq::<char>::empty());
    assert(occurs_at(Seq::<char>::empty(), hay, 0));
}

} // verus!
