//! Words of a sentence: cutting it at single spaces, and picking out the
//! words that hold a vowel run.

use vstd::prelude::*;
use vstd::utf8::encode_utf8_valid_utf8;
use crate::detector::{has_three_consecutive_vowels, has_three_vowels_using_reference_to_str_slice};
use crate::encoding::{
    lemma_encoding_tells_texts_apart, lemma_first_space_in_encoding,
    lemma_space_byte_is_a_character, SPACE_BYTE,
};
use crate::split::{first_space, lemma_first_space, space_separated};

verus! {

/// Those of `pieces` that hold three vowels in a row, in the order in which they stand.
pub open spec fn with_vowel_run(pieces: Seq<Seq<char>>) -> Seq<Seq<char>> {
    pieces.filter(|piece: Seq<char>| has_three_consecutive_vowels(piece))
}

/// Cuts `sentence` at every single space and returns the pieces in order, each
/// a view into `sentence`. The bytes of the sentence are read once.
pub fn split_on_spaces<'a>(sentence: &'a str) -> (words: Vec<&'a str>)
    ensures
        words.deep_view() == space_separated(sentence@),
{
    let mut words: Vec<&'a str> = Vec::new();
    let mut rest: &'a str = sentence;
    loop
        invariant
            space_separated(sentence@) == words.deep_view() + space_separated(rest@),
        decreases rest@.len(),
    {
        let bytes = rest.as_bytes();
        let mut cut: usize = 0;
        while cut < bytes.len() && bytes[cut] != SPACE_BYTE
            invariant
                cut <= bytes.len(),
                forall|j: int| 0 <= j < cut ==> #[trigger] bytes@[j] != SPACE_BYTE,
            decreases bytes.len() - cut,
        {
            cut += 1;
        }
        let ghost place = first_space(rest@);
        proof {
            lemma_first_space_in_encoding(rest@, cut as int);
            lemma_first_space(rest@);
        }
        if cut == bytes.len() {
            words.push(rest);
            return words;
        }
        proof {
            encode_utf8_valid_utf8(rest@);
            lemma_space_byte_is_a_character(bytes@, cut as int);
        }
        let (word, tail) = rest.split_at(cut);
        let (_, after) = tail.split_at(1);
        proof {
            assert(bytes@.skip(cut as int).skip(1) =~= bytes@.skip(cut + 1));
            lemma_encoding_tells_texts_apart(word@, rest@.take(place));
            lemma_encoding_tells_texts_apart(after@, rest@.skip(place + 1));
        }
        words.push(word);
        rest = after;
    }
}

/// The words of `sentence`, cut at single spaces, that hold three lowercase
/// vowels in a row: each in its place, none left out, none added.
pub fn words_with_three_vowels<'a>(sentence: &'a str) -> (found: Vec<&'a str>)
    ensures
        found.deep_view() == with_vowel_run(space_separated(sentence@)),
{
    let words = split_on_spaces(sentence);
    let ghost pieces = words.deep_view();
    let mut found: Vec<&'a str> = Vec::new();
    proof {
        reveal_with_fuel(Seq::filter, 1);
    }
    let mut index: usize = 0;
    while index < words.len()
        invariant
            index <= words.len(),
            pieces == words.deep_view(),
            found.deep_view() == with_vowel_run(pieces.take(index as int)),
        decreases words.len() - index,
    {
        let word = words[index];
        proof {
            assert(pieces.take(index + 1) =~= pieces.take(index as int).push(word@));
            pieces.take(index as int).lemma_filter_push(
                word@,
                |piece: Seq<char>| has_three_consecutive_vowels(piece),
            );
        }
        if has_three_vowels_using_reference_to_str_slice(word) {
            found.push(word);
        }
        index += 1;
    }
    assert(pieces.take(words.len() as int) =~= pieces);
    found
}

/// A word is among those found in a text exactly when it is one of the
/// pieces of the text and holds a vowel run: none is left out and none is
/// added.
pub proof fn law_found_words_are_the_pieces_with_a_run(text: Seq<char>, word: Seq<char>)
    ensures
        with_vowel_run(space_separated(text)).contains(word) <==> space_separated(text).contains(
            word,
        ) && has_three_consecutive_vowels(word),
{
    let pieces = space_separated(text);
    let keep = |piece: Seq<char>| has_three_consecutive_vowels(piece);
    if with_vowel_run(pieces).contains(word) {
        let at = choose|at: int|
            0 <= at < with_vowel_run(pieces).len() && with_vowel_run(pieces)[at] == word;
        pieces.lemma_filter_pred(keep, at);
        pieces.lemma_filter_contains_rev(keep, word);
    }
    if pieces.contains(word) && has_three_consecutive_vowels(word) {
        let at = choose|at: int| 0 <= at < pieces.len() && pieces[at] == word;
        pieces.lemma_filter_contains(keep, at);
    }
}

} // verus!
