//! Text operations that the state machine relies on.
//!
//! The standard library does the work; each function here states what the
//! library documents of it, over sequences of characters.

use vstd::prelude::*;

verus! {

/// Whether `needle` occurs in `hay` as a contiguous run of characters.
pub open spec fn occurs_in(needle: Seq<char>, hay: Seq<char>) -> bool {
    exists|start: int|
        0 <= start && start + needle.len() <= hay.len() && #[trigger] hay.subrange(
            start,
            start + needle.len(),
        ) == needle
}

/// Whether `text` ends with `suffix`.
pub open spec fn ends_with(text: Seq<char>, suffix: Seq<char>) -> bool {
    suffix.len() <= text.len() && text.subrange(text.len() - suffix.len(), text.len() as int)
        == suffix
}

/// The number of characters of `text` before the first `stop`, or all of them
/// where there is none.
pub open spec fn run_len(text: Seq<char>, stop: char) -> nat
    decreases text.len(),
{
    if text.len() == 0 || text[0] == stop {
        0
    } else {
        1 + run_len(text.skip(1), stop)
    }
}

/// The pieces of `text` between occurrences of `separator`, first to last: one
/// piece more than there are separators, empty pieces included.
pub open spec fn pieces(text: Seq<char>, separator: char) -> Seq<Seq<char>>
    decreases text.len(),
{
    let first = run_len(text, separator);
    if first < text.len() {
        seq![text.take(first as int)] + pieces(text.skip(first as int + 1), separator)
    } else {
        seq![text]
    }
}

/// The character sequences of a list of strings.
pub open spec fn views(strings: Seq<String>) -> Seq<Seq<char>> {
    strings.map_values(|s: String| s@)
}

/// The lowercase form of a text under the Unicode case mapping.
pub uninterp spec fn lowercased(text: Seq<char>) -> Seq<char>;

/// `str::to_lowercase`: the lowercase equivalent of the text, which depends on
/// the text alone.
#[verifier::external_body]
pub(crate) fn to_lowercase(text: &str) -> (lower: String)
    ensures
        lower@ == lowercased(text@),
{
    text.to_lowercase()
}

/// `str::contains` with a string pattern: whether the pattern matches a
/// sub-slice of the text.
#[verifier::external_body]
pub(crate) fn contains(hay: &str, needle: &str) -> (found: bool)
    ensures
        found == occurs_in(needle@, hay@),
{
    hay.contains(needle)
}

/// `str::strip_suffix` with a string pattern: the text with the suffix
/// removed, if the text ends with it.
#[verifier::external_body]
pub(crate) fn strip_suffix<'a>(text: &'a str, suffix: &str) -> (stem: Option<&'a str>)
    ensures
        stem is Some <==> ends_with(text@, suffix@),
        stem matches Some(s) ==> s@ == text@.subrange(0, text@.len() - suffix@.len()),
{
    text.strip_suffix(suffix)
}

/// `str::split` on the line feed character: the substrings between the
/// separators, each collected into an owned string.
#[verifier::external_body]
pub(crate) fn split_lines(text: &str) -> (lines: Vec<String>)
    ensures
        views(lines@) == pieces(text@, '\n'),
{
    text.split('\n').map(String::from).collect()
}

/// An owned copy of every string of `strings`, in order.
pub fn clone_strings(strings: &Vec<String>) -> (copy: Vec<String>)
    ensures
        views(copy@) == views(strings@),
{
    let mut copy: Vec<String> = Vec::new();
    let mut i: usize = 0;
    while i < strings.len()
        invariant
            i <= strings.len(),
            copy.len() == i,
            forall|j: int| 0 <= j < i ==> copy[j]@ == strings[j]@,
        decreases strings.len() - i,
    {
        copy.push(strings[i].clone());
        i = i + 1;
    }
    assert(views(copy@) =~= views(strings@));
    copy
}

} // verus!
