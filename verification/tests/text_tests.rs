use rustagent::text::{contains, is_blank, starts_with, trim};

#[test]
fn trimming_matches_std() {
    for s in ["  a b  ", "\u{3000}x\u{2029}", "", "   ", "\u{85}y", "z\u{200B}"] {
        assert_eq!(trim(s), s.trim());
        assert_eq!(is_blank(s), s.trim().is_empty());
    }
}

#[test]
fn substring_and_prefix_tests() {
    assert!(contains("connection refused", "refused"));
    assert!(contains("abc", ""));
    assert!(!contains("ab", "abc"));
    assert!(!contains("aab", "abb"));
    assert!(starts_with("data: x", "data: "));
    assert!(!starts_with("data:x", "data: "));
    assert!(starts_with("x", ""));
}
