use vowel_run::demo::{demo_lines, notice_line, verdict_line, SENTENCE, TITLE};

#[test]
fn verdict_line_is_word_colon_answer() {
    assert_eq!(verdict_line("Ferris", false), "Ferris: false");
    assert_eq!(verdict_line("Curious", true), "Curious: true");
    assert_eq!(verdict_line("", true), ": true");
    assert_eq!(verdict_line("a b", false), "a b: false");
}

#[test]
fn notice_line_names_the_word() {
    assert_eq!(notice_line("curious"), "curious has three consecutive vowels!");
    assert_eq!(notice_line(""), " has three consecutive vowels!");
}

#[test]
fn fixed_texts() {
    assert_eq!(TITLE, "Idiom: Coercion Arguments");
    assert_eq!(SENTENCE, "Once upon a time, there was a friendly curious crab named Ferris");
}

#[test]
fn demonstration_reports_these_lines_in_order() {
    assert_eq!(
        demo_lines(),
        vec![
            "Idiom: Coercion Arguments",
            "Ferris: false",
            "Curious: true",
            "Cucumber: false",
            "Ferris: false",
            "Curious: true",
            "Cucumber: false",
            "curious has three consecutive vowels!",
        ]
    );
}

#[test]
fn demonstration_is_the_same_every_time() {
    assert_eq!(demo_lines(), demo_lines());
}
