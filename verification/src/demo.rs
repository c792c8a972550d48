//! The demonstration: what it reports, line by line, as values.
//!
//! Three sample words are put to the predicate, first as owned strings and
//! then as string literals, and the words of a sample sentence that hold a
//! vowel run are announced. Nothing is printed here; the lines are handed to
//! the caller in the order in which they are to appear.

use vstd::prelude::*;
use crate::detector::{
    has_three_consecutive_vowels, has_three_vowels_using_reference_to_str_slice,
    has_three_vowels_using_reference_to_string, vowel_triple_at,
};
use crate::sentence::{with_vowel_run, words_with_three_vowels};
use crate::split::{joined_by_spaces, law_split_is_unique, space_separated};

verus! {

/// The heading that opens the demonstration.
pub const TITLE: &'static str = "Idiom: Coercion Arguments";

/// The sentence whose words the demonstration scans.
pub const SENTENCE: &'static str = "Once upon a time, there was a friendly curious crab named Ferris";

/// How an answer of the predicate is written out.
pub open spec fn verdict_text(found: bool) -> Seq<char> {
    if found {
        "true"@
    } else {
        "false"@
    }
}

/// The line that reports `found` for `word`: the word, a colon, a space, the answer.
pub open spec fn verdict_line_text(word: Seq<char>, found: bool) -> Seq<char> {
    word + ": "@ + verdict_text(found)
}

/// The line that reports the predicate's true answer for `word`.
pub open spec fn sample_line_text(word: Seq<char>) -> Seq<char> {
    verdict_line_text(word, has_three_consecutive_vowels(word))
}

/// The line that announces `word` as one that holds a vowel run.
pub open spec fn notice_line_text(word: Seq<char>) -> Seq<char> {
    word + " has three consecutive vowels!"@
}

/// One announcement for each of `words`, in order.
pub open spec fn notices(words: Seq<Seq<char>>) -> Seq<Seq<char>> {
    Seq::new(words.len(), |i: int| notice_line_text(words[i]))
}

/// Everything the demonstration reports, in order: the title, the three
/// sample words twice over, and an announcement for each word of the sample
/// sentence that holds a vowel run.
pub open spec fn demo_text() -> Seq<Seq<char>> {
    seq![
        TITLE@,
        sample_line_text("Ferris"@),
        sample_line_text("Curious"@),
        sample_line_text("Cucumber"@),
        sample_line_text("Ferris"@),
        sample_line_text("Curious"@),
        sample_line_text("Cucumber"@),
    ] + notices(with_vowel_run(space_separated(SENTENCE@)))
}

/// The words of the sample sentence.
pub open spec fn sentence_words() -> Seq<Seq<char>> {
    seq![
        "Once"@,
        "upon"@,
        "a"@,
        "time,"@,
        "there"@,
        "was"@,
        "a"@,
        "friendly"@,
        "curious"@,
        "crab"@,
        "named"@,
        "Ferris"@,
    ]
}

/// Writes the line that reports `found` for `word`.
pub fn verdict_line(word: &str, found: bool) -> (line: String)
    ensures
        line@ == verdict_line_text(word@, found),
{
    let mut line = word.to_owned();
    line.append(": ");
    line.append(
        if found {
            "true"
        } else {
            "false"
        },
    );
    line
}

/// Writes the line that announces `word` as one that holds a vowel run.
pub fn notice_line(word: &str) -> (line: String)
    ensures
        line@ == notice_line_text(word@),
{
    let mut line = word.to_owned();
    line.append(" has three consecutive vowels!");
    line
}

/// Runs the demonstration and returns its lines in order: the words are put
/// to the predicate and the sentence is split and searched here, and the
/// outcome is the eight lines below.
pub fn demo_lines() -> (lines: Vec<String>)
    ensures
        lines.deep_view() == demo_text(),
        lines.deep_view() == seq![
            "Idiom: Coercion Arguments"@,
            "Ferris: false"@,
            "Curious: true"@,
            "Cucumber: false"@,
            "Ferris: false"@,
            "Curious: true"@,
            "Cucumber: false"@,
            "curious has three consecutive vowels!"@,
        ],
{
    let mut lines: Vec<String> = Vec::new();
    lines.push(TITLE.to_owned());

    let ferris = "Ferris".to_owned();
    let curious = "Curious".to_owned();
    let cucumber = "Cucumber".to_owned();

    lines.push(verdict_line(ferris.as_str(), has_three_vowels_using_reference_to_string(&ferris)));
    lines.push(
        verdict_line(curious.as_str(), has_three_vowels_using_reference_to_string(&curious)),
    );
    lines.push(
        verdict_line(cucumber.as_str(), has_three_vowels_using_reference_to_string(&cucumber)),
    );

    lines.push(
        verdict_line(ferris.as_str(), has_three_vowels_using_reference_to_str_slice("Ferris")),
    );
    lines.push(
        verdict_line(curious.as_str(), has_three_vowels_using_reference_to_str_slice("Curious")),
    );
    lines.push(
        verdict_line(cucumber.as_str(), has_three_vowels_using_reference_to_str_slice("Cucumber")),
    );

    let sentence = SENTENCE.to_owned();
    let words = words_with_three_vowels(sentence.as_str());
    let ghost heading = lines.deep_view();
    let ghost found = words.deep_view();
    let mut index: usize = 0;
    while index < words.len()
        invariant
            index <= words.len(),
            found == words.deep_view(),
            lines.deep_view() == heading + notices(found.take(index as int)),
        decreases words.len() - index,
    {
        let ghost earlier = lines.deep_view();
        lines.push(notice_line(words[index]));
        proof {
            assert(lines.deep_view() =~= earlier.push(notice_line_text(found[index as int])));
        }
        index += 1;
    }
    proof {
        assert(found.take(words.len() as int) =~= found);
        lemma_demo_text_spelled_out();
    }
    lines
}

/// What the predicate answers for the three sample words.
pub proof fn lemma_sample_verdicts()
    ensures
        !has_three_consecutive_vowels("Ferris"@),
        has_three_consecutive_vowels("Curious"@),
        !has_three_consecutive_vowels("Cucumber"@),
{
    reveal_strlit("Ferris");
    reveal_strlit("Curious");
    reveal_strlit("Cucumber");
    assert(vowel_triple_at("Curious"@, 3));
}

/// The sample sentence falls into its twelve words.
pub proof fn lemma_sentence_words()
    ensures
        space_separated(SENTENCE@) == sentence_words(),
{
    reveal_strlit("Once upon a time, there was a friendly curious crab named Ferris");
    reveal_strlit("Once");
    reveal_strlit("upon");
    reveal_strlit("a");
    reveal_strlit("time,");
    reveal_strlit("there");
    reveal_strlit("was");
    reveal_strlit("friendly");
    reveal_strlit("curious");
    reveal_strlit("crab");
    reveal_strlit("named");
    reveal_strlit("Ferris");
    reveal_with_fuel(joined_by_spaces, 13);
    let pieces = sentence_words();
    assert(joined_by_spaces(pieces) =~= SENTENCE@);
    law_split_is_unique(SENTENCE@, pieces);
}

/// Of the words of the sample sentence one holds a vowel run: `curious`.
pub proof fn lemma_sentence_has_one_word_with_a_run()
    ensures
        with_vowel_run(space_separated(SENTENCE@)) == seq!["curious"@],
{
    lemma_sentence_words();
    reveal_strlit("Once");
    reveal_strlit("upon");
    reveal_strlit("a");
    reveal_strlit("time,");
    reveal_strlit("there");
    reveal_strlit("was");
    reveal_strlit("friendly");
    reveal_strlit("curious");
    reveal_strlit("crab");
    reveal_strlit("named");
    reveal_strlit("Ferris");
    assert(vowel_triple_at("curious"@, 3));
    reveal_with_fuel(Seq::filter, 13);
}

/// The demonstration, spelled out line by line.
pub proof fn lemma_demo_text_spelled_out()
    ensures
        demo_text() == seq![
            "Idiom: Coercion Arguments"@,
            "Ferris: false"@,
            "Curious: true"@,
            "Cucumber: false"@,
            "Ferris: false"@,
            "Curious: true"@,
            "Cucumber: false"@,
            "curious has three consecutive vowels!"@,
        ],
{
    lemma_sample_verdicts();
    lemma_sentence_has_one_word_with_a_run();
    reveal_strlit("Ferris");
    reveal_strlit("Curious");
    reveal_strlit("Cucumber");
    reveal_strlit("curious");
    reveal_strlit(": ");
    reveal_strlit("true");
    reveal_strlit("false");
    reveal_strlit(" has three consecutive vowels!");
    reveal_strlit("Ferris: false");
    reveal_strlit("Curious: true");
    reveal_strlit("Cucumber: false");
    reveal_strlit("curious has three consecutive vowels!");
    assert(sample_line_text("Ferris"@) =~= "Ferris: false"@);
    assert(sample_line_text("Curious"@) =~= "Curious: true"@);
    assert(sample_line_text("Cucumber"@) =~= "Cucumber: false"@);
    assert(notice_line_text("curious"@) =~= "curious has three consecutive vowels!"@);
}

} // verus!
