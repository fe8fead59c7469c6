use mpv_rpc::text::{join_with, str_starts_with, truncate_string, truncate_string_fmt};

#[test]
fn truncate_string_keeps_short_strings() {
    let mut s = String::from("hello");
    truncate_string(&mut s, 10);
    assert_eq!(s, "hello");
}

#[test]
fn truncate_string_cuts_to_length() {
    let mut s = String::from("hello world");
    truncate_string(&mut s, 5);
    assert_eq!(s, "hello");
}

#[test]
fn truncate_string_counts_characters_not_bytes() {
    let mut s = String::from("ééééé");
    truncate_string(&mut s, 3);
    assert_eq!(s, "ééé");
}

#[test]
fn truncate_string_fmt_keeps_short_strings() {
    let mut s = String::from("short");
    truncate_string_fmt(&mut s, 128);
    assert_eq!(s, "short");
}

#[test]
fn truncate_string_fmt_exact_result() {
    let mut s = String::from("abcdef");
    truncate_string_fmt(&mut s, 5);
    assert_eq!(s, "ab...");
}

#[test]
fn truncate_string_fmt_bounds_length_and_marks() {
    let long: String = std::iter::repeat('x').take(300).collect();
    let mut s = long.clone();
    truncate_string_fmt(&mut s, 128);
    assert_eq!(s.chars().count(), 128);
    assert!(s.ends_with("..."));
}

#[test]
fn truncate_string_fmt_is_idempotent() {
    let long: String = std::iter::repeat('y').take(200).collect();
    let mut once = long.clone();
    truncate_string_fmt(&mut once, 128);
    let mut twice = once.clone();
    truncate_string_fmt(&mut twice, 128);
    assert_eq!(once, twice);
}

#[test]
fn truncate_string_fmt_smallest_length() {
    let mut s = String::from("abcdef");
    truncate_string_fmt(&mut s, 3);
    assert_eq!(s, "...");
}

#[test]
fn starts_with_matches_prefix() {
    assert!(str_starts_with("key-binding toggle-rpc d-1", "key-binding toggle-rpc d-"));
    assert!(str_starts_with("abc", ""));
    assert!(str_starts_with("abc", "abc"));
    assert!(!str_starts_with("ab", "abc"));
    assert!(!str_starts_with("abd", "abc"));
}

#[test]
fn join_with_separates_parts() {
    let parts = vec![String::from("a"), String::from("b"), String::from("c")];
    assert_eq!(join_with(&parts, " "), "a b c");
    let one = vec![String::from("solo")];
    assert_eq!(join_with(&one, " AND "), "solo");
    let none: Vec<String> = Vec::new();
    assert_eq!(join_with(&none, " "), "");
}
