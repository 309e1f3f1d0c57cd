use axum_hotreload::text::{chars_of, contains, decimal_text, replace_char};

#[test]
fn replace_char_replaces_every_occurrence() {
    assert_eq!(replace_char("a-b-c", '-', '_'), "a_b_c");
    assert_eq!(replace_char("abc", '-', '_'), "abc");
    assert_eq!(replace_char("", '-', '_'), "");
    assert_eq!(replace_char("é-é", 'é', '-'), "---");
}

#[test]
fn contains_finds_contiguous_runs() {
    assert!(contains("libhandlers-1.so", "handlers"));
    assert!(contains("handlers", "handlers"));
    assert!(contains("xxhandlers", "handlers"));
    assert!(contains("aaab", "aab"));
    assert!(!contains("hand-lers", "handlers"));
    assert!(!contains("handler", "handlers"));
}

#[test]
fn everything_contains_the_empty_text() {
    assert!(contains("", ""));
    assert!(contains("abc", ""));
    assert!(!contains("", "a"));
}

#[test]
fn decimal_text_is_without_leading_zeros() {
    assert_eq!(decimal_text(0), "0");
    assert_eq!(decimal_text(9), "9");
    assert_eq!(decimal_text(10), "10");
    assert_eq!(decimal_text(1_002_003), "1002003");
    assert_eq!(decimal_text(u64::MAX), "18446744073709551615");
}

#[test]
fn chars_of_keeps_the_order() {
    assert_eq!(chars_of("aéz"), vec!['a', 'é', 'z']);
}
