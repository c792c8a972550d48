use vowel_run::detector::has_three_vowels_using_reference_to_str_slice;
use vowel_run::sentence::{split_on_spaces, words_with_three_vowels};

const SENTENCE: &str = "Once upon a time, there was a friendly curious crab named Ferris";

#[test]
fn sentence_splits_into_its_words() {
    assert_eq!(
        split_on_spaces(SENTENCE),
        vec![
            "Once", "upon", "a", "time,", "there", "was", "a", "friendly", "curious", "crab",
            "named", "Ferris",
        ]
    );
}

#[test]
fn split_agrees_with_std() {
    for text in [
        "", " ", "  ", "a", "a b", "a  b", " a", "a ", " a ", "  a  b  ", "no-space", "tab\there",
        "é à ü", "日本 語", "a\u{a0}b c", SENTENCE,
    ] {
        let expected: Vec<&str> = text.split(' ').collect();
        assert_eq!(split_on_spaces(text), expected, "{:?}", text);
    }
}

#[test]
fn empty_text_is_one_empty_piece() {
    assert_eq!(split_on_spaces(""), vec![""]);
}

#[test]
fn text_without_space_is_one_piece() {
    assert_eq!(split_on_spaces("curious"), vec!["curious"]);
}

#[test]
fn repeated_spaces_are_not_collapsed() {
    assert_eq!(split_on_spaces("a  b"), vec!["a", "", "b"]);
    assert_eq!(split_on_spaces("   "), vec!["", "", "", ""]);
}

#[test]
fn outer_spaces_are_not_trimmed() {
    assert_eq!(split_on_spaces(" a"), vec!["", "a"]);
    assert_eq!(split_on_spaces("a "), vec!["a", ""]);
    assert_eq!(split_on_spaces(" a b "), vec!["", "a", "b", ""]);
}

#[test]
fn only_the_space_character_separates() {
    assert_eq!(split_on_spaces("a\tb\nc"), vec!["a\tb\nc"]);
    assert_eq!(split_on_spaces("a\u{a0}b"), vec!["a\u{a0}b"]);
    assert_eq!(split_on_spaces("a,b c"), vec!["a,b", "c"]);
}

#[test]
fn pieces_of_text_outside_ascii_are_whole_characters() {
    assert_eq!(split_on_spaces("über äöü ñ"), vec!["über", "äöü", "ñ"]);
    assert_eq!(split_on_spaces("日本語 aei 語"), vec!["日本語", "aei", "語"]);
}

#[test]
fn pieces_joined_by_spaces_give_the_text_back() {
    for text in ["", " ", "a b", "  a  b  ", SENTENCE, "é à ü"] {
        assert_eq!(split_on_spaces(text).join(" "), text);
        assert_eq!(split_on_spaces(text).len(), text.matches(' ').count() + 1);
        for piece in split_on_spaces(text) {
            assert!(!piece.contains(' '));
        }
    }
}

#[test]
fn sentence_has_one_word_with_a_run() {
    assert_eq!(words_with_three_vowels(SENTENCE), vec!["curious"]);
}

#[test]
fn filtered_words_are_exactly_those_the_predicate_accepts() {
    let found = words_with_three_vowels(SENTENCE);
    let mut expected: Vec<&str> = Vec::new();
    for word in SENTENCE.split(' ') {
        let accepted = has_three_vowels_using_reference_to_str_slice(word);
        assert_eq!(accepted, word == "curious", "{:?}", word);
        assert_eq!(found.contains(&word), accepted, "{:?}", word);
        if accepted {
            expected.push(word);
        }
    }
    assert_eq!(found, expected);
}

#[test]
fn filter_keeps_order_and_repeats() {
    assert_eq!(
        words_with_three_vowels("queue up, curious Louie; queue again"),
        vec!["queue", "curious", "Louie;", "queue"]
    );
}

#[test]
fn filter_of_text_without_runs_is_empty() {
    assert!(words_with_three_vowels("").is_empty());
    assert!(words_with_three_vowels("   ").is_empty());
    assert!(words_with_three_vowels("no such word here").is_empty());
}

#[test]
fn run_does_not_reach_across_a_space() {
    assert!(words_with_three_vowels("ae iou").contains(&"iou"));
    assert!(words_with_three_vowels("a e i").is_empty());
    assert!(words_with_three_vowels("xa ei").is_empty());
    assert!(has_three_vowels_using_reference_to_str_slice("xaei"));
}

#[test]
fn characters_of_four_bytes_stay_whole() {
    assert_eq!(split_on_spaces("🦀 crab 🦀"), vec!["🦀", "crab", "🦀"]);
    assert_eq!(split_on_spaces("🦀🦀 "), vec!["🦀🦀", ""]);
    assert_eq!(words_with_three_vowels("🦀 aei🦀 🦀uoa"), vec!["aei🦀", "🦀uoa"]);
}

#[test]
fn pieces_are_views_into_the_sentence() {
    let sentence = String::from("a curious crab");
    let words = split_on_spaces(&sentence);
    let begin = sentence.as_ptr() as usize;
    let offsets: Vec<usize> = words.iter().map(|w| w.as_ptr() as usize - begin).collect();
    assert_eq!(offsets, vec![0, 2, 10]);
}

#[test]
fn long_sentence_is_split_and_searched() {
    let mut sentence = String::new();
    for i in 0..100_000 {
        if i > 0 {
            sentence.push(' ');
        }
        sentence.push_str(if i % 1000 == 0 { "queue" } else { "crab" });
    }
    let words = split_on_spaces(&sentence);
    assert_eq!(words.len(), 100_000);
    assert_eq!(words[0], "queue");
    assert_eq!(words[1], "crab");
    assert_eq!(words[99_999], "crab");
    let found = words_with_three_vowels(&sentence);
    assert_eq!(found.len(), 100);
    assert!(found.iter().all(|w| *w == "queue"));
}
