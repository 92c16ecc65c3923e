use play::path::{cover_cache_name, get_file_path};
use play::text::{contains_sub, is_blank, join_with_spaces, to_ascii_lower};

#[test]
fn file_path_fans_out_by_hash_prefix() {
    assert_eq!(get_file_path("/osu", "abcd1234"), "/osu/a/ab/abcd1234");
    assert_eq!(get_file_path("root", "ff"), "root/f/ff/ff");
}

#[test]
fn cover_name_is_hash_plus_suffix() {
    assert_eq!(cover_cache_name("ff00"), "ff00.cover.jpg");
}

#[test]
fn ascii_lowercasing_leaves_non_ascii_alone() {
    assert_eq!(to_ascii_lower("AbC xYz"), "abc xyz");
    assert_eq!(to_ascii_lower("ÄБ"), "ÄБ");
    assert_eq!(to_ascii_lower(""), "");
}


#[test]
fn substring_test_finds_and_rejects() {
    assert!(contains_sub("hello world", "lo wo"));
    assert!(contains_sub("hello", ""));
    assert!(contains_sub("", ""));
    assert!(!contains_sub("hello", "world"));
    assert!(!contains_sub("ab", "abc"));
    assert!(contains_sub("ααβ", "αβ"));
}

#[test]
fn blank_means_whitespace_only() {
    assert!(is_blank(""));
    assert!(is_blank(" \t\n\u{3000}"));
    assert!(!is_blank(" a "));
}

#[test]
fn joining_tags_with_spaces() {
    let v: Vec<String> = vec!["rock".to_string(), "jazz".to_string(), "pop".to_string()];
    assert_eq!(join_with_spaces(&v), "rock jazz pop");
    let one: Vec<String> = vec!["solo".to_string()];
    assert_eq!(join_with_spaces(&one), "solo");
    let none: Vec<String> = Vec::new();
    assert_eq!(join_with_spaces(&none), "");
}
