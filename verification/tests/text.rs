use gitcache::text::{
    joined, contains, contains_char, ends_with_char, is_empty, list_contains, starts_with, str_eq,
    to_chars,
};

#[test]
fn chars_of_a_string() {
    assert_eq!(to_chars("a/é"), vec!['a', '/', 'é']);
    assert!(to_chars("").is_empty());
}

#[test]
fn equality_of_strings() {
    assert!(str_eq("", ""));
    assert!(str_eq("abc", "abc"));
    assert!(!str_eq("abc", "abd"));
    assert!(!str_eq("abc", "ab"));
    assert!(!str_eq("ab", "abc"));
}

#[test]
fn prefix_of_a_string() {
    assert!(starts_with("cachepath_home", "cachepath_"));
    assert!(starts_with("cachepath_", "cachepath_"));
    assert!(starts_with("anything", ""));
    assert!(!starts_with("cachepath", "cachepath_"));
    assert!(!starts_with("xcachepath_home", "cachepath_"));
    assert!(!starts_with("", "a"));
}

#[test]
fn substring_of_a_string() {
    assert!(contains("<html><a href=\"42/\">42</a></html>", "<a href=\"42/\">"));
    assert!(contains("abc", "abc"));
    assert!(contains("abc", "c"));
    assert!(contains("abc", ""));
    assert!(contains("", ""));
    assert!(!contains("abc", "abcd"));
    assert!(!contains("<a href=\"142/\">", "<a href=\"42/\">"));
    assert!(!contains("aab", "aba"));
    assert!(contains("aaab", "aab"));
}

#[test]
fn character_of_a_string() {
    assert!(contains_char("a/b", '/'));
    assert!(!contains_char("ab", '/'));
    assert!(!contains_char("", '/'));
    assert!(ends_with_char("dir/", '/'));
    assert!(!ends_with_char("dir/a", '/'));
    assert!(!ends_with_char("", '/'));
    assert!(is_empty(""));
    assert!(!is_empty("a"));
}

#[test]
fn joining_and_membership() {
    assert_eq!(joined(".cache/", "a.txt"), ".cache/a.txt");
    assert_eq!(joined("", ""), "");
    let list = vec!["/tmp/a".to_string(), "/tmp/b".to_string()];
    assert!(list_contains(&list, "/tmp/b"));
    assert!(!list_contains(&list, "/tmp/"));
    assert!(!list_contains(&Vec::new(), ""));
}
