//! The script as the prompter shows it: a sequence of words.

use vstd::prelude::*;
use vstd::string::StrSliceExecFns;
use vstd::std_specs::iter::IteratorSpec;
use crate::estimator::{is_space, is_whitespace, word_begins, word_count, words_before};

verus! {

/// Whether a word ends right before position `end` of `text`: the character
/// before it is not white space, and the text ends there or goes on with
/// white space.
pub open spec fn word_ends(text: Seq<char>, end: int) -> bool {
    &&& 0 < end <= text.len()
    &&& !is_space(text[end - 1])
    &&& (end == text.len() || is_space(text[end]))
}

/// Where the stretch without white space begins that reaches up to
/// position `end`.
pub open spec fn word_start(text: Seq<char>, end: int) -> int
    decreases end,
{
    if end <= 0 || end > text.len() || is_space(text[end - 1]) {
        end
    } else {
        word_start(text, end - 1)
    }
}

/// The words of `text` that end at or before position `n`, in order.
pub open spec fn words_ended(text: Seq<char>, n: int) -> Seq<Seq<char>>
    decreases n,
{
    if n <= 0 {
        Seq::<Seq<char>>::empty()
    } else if word_ends(text, n) {
        words_ended(text, n - 1).push(text.subrange(word_start(text, n), n))
    } else {
        words_ended(text, n - 1)
    }
}

/// The words of `text`: its maximal stretches without white space, in order.
pub open spec fn words_of(text: Seq<char>) -> Seq<Seq<char>> {
    words_ended(text, text.len() as int)
}

/// The characters of each of `words`.
pub open spec fn word_views(words: Seq<String>) -> Seq<Seq<char>> {
    Seq::new(words.len(), |i: int| words[i]@)
}

/// A stretch without white space begins within the text, before its end.
pub proof fn lemma_word_start_bounds(text: Seq<char>, end: int)
    requires
        0 < end <= text.len(),
        !is_space(text[end - 1]),
    ensures
        0 <= word_start(text, end) < end,
        word_begins(text, word_start(text, end)),
    decreases end,
{
    if end > 1 && !is_space(text[end - 2]) {
        lemma_word_start_bounds(text, end - 1);
    } else {
        assert(word_start(text, end - 1) == end - 1);
    }
}

/// Up to any position, as many words have begun as have ended, but for the
/// one that may be under way there.
proof fn lemma_begun_and_ended(text: Seq<char>, n: int)
    requires
        0 <= n <= text.len(),
    ensures
        words_before(text, n) == words_ended(text, n).len() + if 0 < n < text.len() && !is_space(
            text[n - 1],
        ) && !is_space(text[n]) {
            1nat
        } else {
            0nat
        },
    decreases n,
{
    if n > 0 {
        lemma_begun_and_ended(text, n - 1);
    }
}

/// A text has as many words as the word count says.
pub proof fn lemma_words_counted(text: Seq<char>)
    ensures
        words_of(text).len() == word_count(text),
{
    lemma_begun_and_ended(text, text.len() as int);
}

/// Splits `text` into its words.
pub fn split_words(text: &str) -> (words: Vec<String>)
    ensures
        word_views(words@) == words_of(text@),
        words@.len() == word_count(text@),
{
    let n: usize = text.unicode_len();
    let mut chars = text.chars();
    let mut words: Vec<String> = Vec::new();
    let mut i: usize = 0;
    let mut start: usize = 0;
    let mut in_word: bool = false;
    proof {
        broadcast use vstd::string::axiom_spec_iter;

        assert(word_views(words@) =~= words_ended(text@, -1));
    }
    loop
        invariant
            n == text@.len(),
            i <= n,
            chars.obeys_prophetic_iter_laws(),
            chars.remaining() == text@.skip(i as int),
            in_word == (i > 0 && !is_space(text@[i - 1])),
            in_word ==> start == word_start(text@, i as int),
            start <= i,
            word_views(words@) == words_ended(text@, i - 1),
        ensures
            i == n,
        decreases n - i,
    {
        let next = chars.next();
        proof {
            broadcast use vstd::string::next_postcondition;

        }
        match next {
            None => {
                assert(i == n);
                break;
            },
            Some(c) => {
                assert(c == text@[i as int]);
                let space = is_whitespace(c);
                if space && in_word {
                    let word = text.substring_char(start, i).to_owned();
                    let ghost before = words@;
                    words.push(word);
                    assert(word_views(words@) =~= word_views(before).push(word@));
                } else if !space && !in_word {
                    start = i;
                    assert(word_start(text@, i as int) == i);
                }
                in_word = !space;
                i += 1;
                assert(text@.skip(i - 1).drop_first() =~= text@.skip(i as int));
            },
        }
    }
    if in_word {
        let word = text.substring_char(start, n).to_owned();
        let ghost before = words@;
        words.push(word);
        assert(word_views(words@) =~= word_views(before).push(word@));
    }
    proof {
        lemma_words_counted(text@);
    }
    words
}

} // verus!
