use rdo::classify::{check_existence, classify_failure, Existence, FailureKind};
use rdo::text::{append_u16, contains_str, eq_ignore_case_str, is_affirmative};

#[test]
fn substring_search_finds_and_rejects() {
    assert!(contains_str("abcdef", "cde"));
    assert!(contains_str("abcdef", ""));
    assert!(contains_str("abcdef", "abcdef"));
    assert!(!contains_str("abcdef", "abcdeg"));
    assert!(!contains_str("ab", "abc"));
    assert!(!contains_str("", "a"));
    assert!(contains_str("aaab", "aab"));
}

#[test]
fn case_insensitive_comparison() {
    assert!(eq_ignore_case_str("Yes", "yES"));
    assert!(eq_ignore_case_str("", ""));
    assert!(!eq_ignore_case_str("yes", "ye"));
    assert!(!eq_ignore_case_str("si", "s"));
}

#[test]
fn affirmative_answers() {
    assert!(is_affirmative("y"));
    assert!(is_affirmative("Y"));
    assert!(is_affirmative("yes"));
    assert!(is_affirmative("YES"));
    assert!(is_affirmative("s"));
    assert!(is_affirmative("S"));
    assert!(!is_affirmative("n"));
    assert!(!is_affirmative("no"));
    assert!(!is_affirmative("si"));
    assert!(!is_affirmative(""));
    assert!(!is_affirmative("y es"));
}

#[test]
fn decimal_rendering() {
    let mut s = String::new();
    append_u16(&mut s, 0);
    assert_eq!(s, "0");
    let mut s = String::from("port ");
    append_u16(&mut s, 5432);
    assert_eq!(s, "port 5432");
    let mut s = String::new();
    append_u16(&mut s, 65535);
    assert_eq!(s, "65535");
    let mut s = String::new();
    append_u16(&mut s, 10);
    assert_eq!(s, "10");
}

#[test]
fn existence_needs_success_and_the_one_row_marker() {
    assert_eq!(check_existence(true, "   1\n(1 row)\n"), Existence::Exists);
    assert_eq!(check_existence(true, "(0 rows)\n"), Existence::Missing);
    assert_eq!(check_existence(false, "(1 row)\n"), Existence::Missing);
    assert_eq!(check_existence(true, ""), Existence::Missing);
}

#[test]
fn classification_of_diagnostic_text() {
    assert_eq!(
        classify_failure("fe_sendauth: no password supplied"),
        FailureKind::CredentialMissing
    );
    assert_eq!(
        classify_failure("FATAL:  database \"sales\" does not exist"),
        FailureKind::TargetMissing
    );
    // Both halves of the missing-database signal are needed.
    assert_eq!(
        classify_failure("database \"sales\" is in recovery"),
        FailureKind::Other
    );
    assert_eq!(
        classify_failure("file does not exist"),
        FailureKind::Other
    );
    assert_eq!(classify_failure(""), FailureKind::Other);
    // A credential failure wins over a missing database.
    assert_eq!(
        classify_failure("no password supplied; database \"x\" does not exist"),
        FailureKind::CredentialMissing
    );
}
