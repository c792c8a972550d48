//! The vowel-run predicate, in its two calling conventions.
//!
//! A text has a vowel run when three of its characters in a row are lowercase
//! vowels. The predicate is offered once for a borrowed string slice and once
//! for a borrowed owned string; both answer the same question about the
//! characters they are given.

use vstd::prelude::*;

verus! {

/// The five lowercase vowels. Matching is case-sensitive: `'A'` is not a vowel.
pub open spec fn is_vowel(c: char) -> bool {
    c == 'a' || c == 'e' || c == 'i' || c == 'o' || c == 'u'
}

/// The three characters of `text` that begin at `start` exist and are all vowels.
pub open spec fn vowel_triple_at(text: Seq<char>, start: int) -> bool {
    &&& 0 <= start
    &&& start + 3 <= text.len()
    &&& is_vowel(text[start])
    &&& is_vowel(text[start + 1])
    &&& is_vowel(text[start + 2])
}

/// `text` holds three vowels side by side somewhere.
pub open spec fn has_three_consecutive_vowels(text: Seq<char>) -> bool {
    exists|start: int| vowel_triple_at(text, start)
}

/// Length of the unbroken run of vowels that `text` ends with: the value of
/// the scan's counter once it has read all of `text`, had it never stopped early.
pub open spec fn trailing_vowels(text: Seq<char>) -> nat
    decreases text.len(),
{
    if text.len() == 0 || !is_vowel(text.last()) {
        0
    } else {
        1 + trailing_vowels(text.drop_last())
    }
}

/// What the borrowed-slice predicate answers, as a function of the slice.
pub open spec fn slice_has_vowel_run(word: &str) -> bool {
    has_three_consecutive_vowels(word@)
}

/// What the borrowed-`String` predicate answers, as a function of the string.
pub open spec fn string_has_vowel_run(word: &String) -> bool {
    has_three_consecutive_vowels(word@)
}

/// Reports whether `word` holds three lowercase vowels in a row.
///
/// The scan reads the characters once, front to back, and stops at the third
/// vowel of the first run that reaches three.
#[verifier::when_used_as_spec(slice_has_vowel_run)]
pub fn has_three_vowels_using_reference_to_str_slice(word: &str) -> (found: bool)
    ensures
        found == has_three_consecutive_vowels(word@),
        found == slice_has_vowel_run(word),
        word@.len() < 3 ==> !found,
{
    let mut vowel_count: u32 = 0;
    for c in it: word.chars()
        invariant
            it.seq() == word@,
            vowel_count < 3,
            vowel_count == trailing_vowels(word@.take(it.index())),
            !has_three_consecutive_vowels(word@.take(it.index())),
    {
        proof {
            let seen = word@.take(it.index());
            assert(word@.take(it.index() + 1) =~= seen.push(c));
            lemma_trailing_vowels_push(seen, c);
            lemma_vowel_run_push(seen, c);
        }
        match c {
            'a' | 'e' | 'i' | 'o' | 'u' => {
                vowel_count += 1;
                if vowel_count >= 3 {
                    proof {
                        lemma_vowel_run_in_prefix(word@, it.index() + 1);
                    }
                    return true;
                }
            },
            _ => {
                vowel_count = 0;
            },
        }
    }
    assert(word@.take(word@.len() as int) =~= word@);
    false
}

/// Reports whether `word` holds three lowercase vowels in a row, for a caller
/// that has a `String` at hand. The answer is that of
/// [`has_three_vowels_using_reference_to_str_slice`] on the same characters.
#[verifier::when_used_as_spec(string_has_vowel_run)]
pub fn has_three_vowels_using_reference_to_string(word: &String) -> (found: bool)
    ensures
        found == has_three_consecutive_vowels(word@),
        found == string_has_vowel_run(word),
        word@.len() < 3 ==> !found,
{
    has_three_vowels_using_reference_to_str_slice(word.as_str())
}

/// A text of fewer than three characters holds no vowel triple; the empty
/// text in particular holds none.
pub proof fn law_short_text_has_no_run(text: Seq<char>)
    requires
        text.len() < 3,
    ensures
        !has_three_consecutive_vowels(text),
{
}

/// The answer depends on the characters alone. Two slices that hold the same
/// text get the same answer, wherever each is stored and however often the
/// predicate is asked; nothing is carried over from one call to the next.
pub proof fn law_same_text_same_answer(first: &str, second: &str)
    requires
        first@ == second@,
    ensures
        has_three_vowels_using_reference_to_str_slice(first)
            == has_three_vowels_using_reference_to_str_slice(second),
{
}

/// The same holds of owned strings: equal texts, equal answers.
pub proof fn law_same_string_same_answer(first: &String, second: &String)
    requires
        first@ == second@,
    ensures
        has_three_vowels_using_reference_to_string(first)
            == has_three_vowels_using_reference_to_string(second),
{
}

/// The two calling conventions agree: a text handed over as a borrowed
/// `String` gets the answer that the same text gets as a borrowed slice.
pub proof fn law_calling_conventions_agree(owned: &String, borrowed: &str)
    requires
        owned@ == borrowed@,
    ensures
        has_three_vowels_using_reference_to_string(owned)
            == has_three_vowels_using_reference_to_str_slice(borrowed),
{
}

/// Reading one more character either extends the trailing run by one or ends it.
pub proof fn lemma_trailing_vowels_push(text: Seq<char>, c: char)
    ensures
        trailing_vowels(text.push(c)) == if is_vowel(c) {
            trailing_vowels(text) + 1
        } else {
            0
        },
{
    assert(text.push(c).drop_last() =~= text);
}

/// The trailing run lies inside the text, consists of vowels only, and is
/// maximal: the character just before it, if there is one, is not a vowel.
pub proof fn lemma_trailing_vowels_is_run(text: Seq<char>)
    ensures
        trailing_vowels(text) <= text.len(),
        forall|k: int|
            text.len() - trailing_vowels(text) <= k < text.len() ==> is_vowel(#[trigger] text[k]),
        trailing_vowels(text) < text.len() ==> !is_vowel(
            text[text.len() - trailing_vowels(text) - 1],
        ),
    decreases text.len(),
{
    if text.len() > 0 && is_vowel(text.last()) {
        let front = text.drop_last();
        lemma_trailing_vowels_is_run(front);
        assert forall|k: int|
            text.len() - trailing_vowels(text) <= k < text.len() implies is_vowel(
            #[trigger] text[k],
        ) by {
            if k < front.len() {
                assert(text[k] == front[k]);
            }
        }
    }
}

/// A text gains a vowel triple by one more character exactly when that
/// character is a vowel and the text already ended in two.
pub proof fn lemma_vowel_run_push(text: Seq<char>, c: char)
    ensures
        has_three_consecutive_vowels(text.push(c)) == (has_three_consecutive_vowels(text) || (
        is_vowel(c) && trailing_vowels(text) >= 2)),
{
    let longer = text.push(c);
    lemma_trailing_vowels_is_run(text);
    if has_three_consecutive_vowels(text) {
        let start = choose|start: int| vowel_triple_at(text, start);
        assert(vowel_triple_at(longer, start));
    } else if is_vowel(c) && trailing_vowels(text) >= 2 {
        assert(vowel_triple_at(longer, text.len() - 2));
    } else {
        assert forall|start: int| !vowel_triple_at(longer, start) by {
            if vowel_triple_at(longer, start) {
                // A triple that ends at the new character needs two vowels
                // before it, which the trailing run would have counted; any
                // other triple lies in the old text.
                if start + 3 <= text.len() {
                    assert(vowel_triple_at(text, start));
                }
            }
        }
    }
}

/// A vowel triple in the first `n` characters is a vowel triple in the whole text.
pub proof fn lemma_vowel_run_in_prefix(text: Seq<char>, n: int)
    requires
        0 <= n <= text.len(),
        has_three_consecutive_vowels(text.take(n)),
    ensures
        has_three_consecutive_vowels(text),
{
    let start = choose|start: int| vowel_triple_at(text.take(n), start);
    assert(vowel_triple_at(text, start));
}

} // verus!
