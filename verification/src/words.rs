//! Splitting a text into its words, at whitespace.

use vstd::prelude::*;
use vstd::string::StrSliceExecFns;

use crate::text::chars_of;

verus! {

/// Whether a character is whitespace in Unicode's sense (the property
/// `White_Space`), which depends on nothing but the character.
pub uninterp spec fn is_whitespace_char(c: char) -> bool;

/// Calls `char::is_whitespace`. The contract only names the result: the set
/// of whitespace characters is Unicode's and is not written out here.
#[verifier::external_body]
pub(crate) fn is_whitespace(c: char) -> (white: bool)
    ensures
        white == is_whitespace_char(c),
{
    c.is_whitespace()
}

/// Where the run of characters that are not whitespace ends which starts at
/// `from`: at the next whitespace character, or at the end of the text.
pub open spec fn word_end(text: Seq<char>, from: int) -> int
    decreases text.len() - from,
{
    if from >= text.len() || is_whitespace_char(text[from]) {
        from
    } else {
        word_end(text, from + 1)
    }
}

/// A word ends behind its start and inside the text.
pub proof fn word_end_bounds(text: Seq<char>, from: int)
    requires
        0 <= from <= text.len(),
    ensures
        from <= word_end(text, from) <= text.len(),
        from < text.len() && !is_whitespace_char(text[from]) ==> from < word_end(text, from),
        forall|k: int| from <= k < word_end(text, from) ==> !is_whitespace_char(#[trigger] text[k]),
        word_end(text, from) < text.len() ==> is_whitespace_char(text[word_end(text, from)]),
    decreases text.len() - from,
{
    if from < text.len() && !is_whitespace_char(text[from]) {
        word_end_bounds(text, from + 1);
    }
}

/// The words of a text from position `from` on.
pub open spec fn words_from(text: Seq<char>, from: int) -> Seq<Seq<char>>
    decreases text.len() - from,
    via words_from_terminates
{
    if from < 0 || from >= text.len() {
        Seq::empty()
    } else if is_whitespace_char(text[from]) {
        words_from(text, from + 1)
    } else {
        seq![text.subrange(from, word_end(text, from))] + words_from(text, word_end(text, from))
    }
}

#[via_fn]
proof fn words_from_terminates(text: Seq<char>, from: int) {
    if 0 <= from < text.len() {
        word_end_bounds(text, from);
    }
}

/// The words of a text: its longest runs of characters that are not
/// whitespace, in their order. None of them is empty.
pub open spec fn words(text: Seq<char>) -> Seq<Seq<char>> {
    words_from(text, 0)
}

/// Splits a text into its words.
pub fn split_words(text: &str) -> (found: Vec<String>)
    ensures
        found.deep_view() == words(text@),
{
    let chars = chars_of(text);
    let mut found: Vec<String> = Vec::new();
    let mut at: usize = 0;
    while at < chars.len()
        invariant
            chars@ == text@,
            at <= chars.len(),
            words(text@) == found.deep_view() + words_from(text@, at as int),
        decreases chars.len() - at,
    {
        if is_whitespace(chars[at]) {
            at += 1;
        } else {
            let start = at;
            while at < chars.len() && !is_whitespace(chars[at])
                invariant
                    chars@ == text@,
                    start <= at <= chars.len(),
                    word_end(text@, start as int) == word_end(text@, at as int),
                decreases chars.len() - at,
            {
                at += 1;
            }
            let word = text.substring_char(start, at).to_owned();
            proof {
                let before = found.deep_view();
                assert(word_end(text@, start as int) == at);
                assert(words_from(text@, start as int) == seq![word@] + words_from(
                    text@,
                    at as int,
                ));
                assert(before.push(word@) + words_from(text@, at as int) =~= before + words_from(
                    text@,
                    start as int,
                ));
            }
            let ghost before = found.deep_view();
            found.push(word);
            assert(found.deep_view() =~= before.push(word@));
        }
    }
    assert(found.deep_view() + Seq::<Seq<char>>::empty() =~= found.deep_view());
    found
}

} // verus!
