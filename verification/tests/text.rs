use please_install::text::{eq_ignore_ascii_case, join_all, replace_all, split_all};

#[test]
fn replacement_is_leftmost_and_non_overlapping() {
    assert_eq!(replace_all("aaa", "aa", "b"), "ba");
}

#[test]
fn replacement_without_a_match_changes_nothing() {
    assert_eq!(replace_all("abc", "zz", "y"), "abc");
    assert_eq!(replace_all("", "x", "y"), "");
}

#[test]
fn replacement_handles_longer_text() {
    assert_eq!(replace_all("$yes$yes", "$yes", "ok"), "okok");
}

#[test]
fn splitting_keeps_empty_segments() {
    let parts = split_all("a  b", ' ');
    assert_eq!(parts, vec!["a".to_string(), "".to_string(), "b".to_string()]);
    assert_eq!(split_all("", ' '), vec!["".to_string()]);
    assert_eq!(split_all(" x", ' '), vec!["".to_string(), "x".to_string()]);
}

#[test]
fn joining_with_separators() {
    let parts = vec!["a".to_string(), "b".to_string(), "c".to_string()];
    assert_eq!(join_all(&parts, ", "), "a, b, c");
    assert_eq!(join_all(&vec![], ", "), "");
    assert_eq!(join_all(&vec!["only".to_string()], ", "), "only");
}

#[test]
fn case_folding_compares_ascii_only() {
    assert!(eq_ignore_ascii_case("Apt", "aPt"));
    assert!(!eq_ignore_ascii_case("apt", "apk"));
    assert!(!eq_ignore_ascii_case("ab", "abc"));
}
