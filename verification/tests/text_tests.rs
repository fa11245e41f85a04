use snippet_store::text::contains_str;

#[test]
fn finds_substring_in_middle() {
    assert!(contains_str("buy milk", "milk"));
    assert!(contains_str("buy milk", "y m"));
}

#[test]
fn finds_at_both_ends() {
    assert!(contains_str("buy milk", "buy"));
    assert!(contains_str("buy milk", "k"));
    assert!(contains_str("buy milk", "buy milk"));
}

#[test]
fn empty_needle_is_always_contained() {
    assert!(contains_str("", ""));
    assert!(contains_str("anything", ""));
}

#[test]
fn misses_absent_and_oversized_needles() {
    assert!(!contains_str("buy milk", "bread"));
    assert!(!contains_str("hi", "high"));
    assert!(!contains_str("", "a"));
}

#[test]
fn is_case_sensitive() {
    assert!(contains_str("Alpha", "Al"));
    assert!(!contains_str("Alpha", "al"));
}

#[test]
fn handles_multibyte_characters() {
    assert!(contains_str("héllo wörld", "wö"));
    assert!(!contains_str("héllo", "hello"));
    assert!(contains_str("日本語のメモ", "語の"));
}

#[test]
fn repeated_prefix_needle() {
    assert!(contains_str("aaab", "aab"));
    assert!(!contains_str("aaab", "abb"));
}
