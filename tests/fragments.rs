use status_line::fragments::{
    branch_label_from_upper, git_branch, spell_toggle, word_count, WordCount,
};

#[test]
fn spell_toggle_turns_off() {
    let r = spell_toggle(true);
    assert!(!r.spell);
    assert_eq!(r.spelllang, "en");
}

#[test]
fn spell_toggle_turns_on() {
    let r = spell_toggle(false);
    assert!(r.spell);
    assert_eq!(r.spelllang, "en_us,de");
}

#[test]
fn git_branch_not_loaded_is_empty() {
    assert_eq!(git_branch(false, "main", 120), "");
}

#[test]
fn git_branch_empty_name_is_empty() {
    assert_eq!(git_branch(true, "", 120), "");
}

#[test]
fn git_branch_wide_is_upper_case() {
    assert_eq!(git_branch(true, "main", 120), " MAIN");
}

#[test]
fn git_branch_narrow_keeps_two_characters() {
    assert_eq!(git_branch(true, "feature-x", 80), " FE");
    assert_eq!(git_branch(true, "x", 30), " X");
}

#[test]
fn branch_label_from_upper_case_name() {
    assert_eq!(branch_label_from_upper("DEVELOP", 81), " DEVELOP");
    assert_eq!(branch_label_from_upper("DEVELOP", 80), " DE");
    assert_eq!(branch_label_from_upper("ÉTÉ", 10), " ÉT");
}

#[test]
fn word_count_of_buffer() {
    let c = WordCount { visual_words: None, words: 0 };
    assert_eq!(word_count(&c), "[0]");
    let c = WordCount { visual_words: None, words: 1234 };
    assert_eq!(word_count(&c), "[1234]");
}

#[test]
fn word_count_prefers_selection() {
    let c = WordCount { visual_words: Some(7), words: 1234 };
    assert_eq!(word_count(&c), "[7]");
}

#[test]
fn word_count_extremes() {
    let c = WordCount { visual_words: None, words: i64::MAX };
    assert_eq!(word_count(&c), "[9223372036854775807]");
    let c = WordCount { visual_words: Some(i64::MIN), words: 0 };
    assert_eq!(word_count(&c), "[-9223372036854775808]");
}
