use admin_auth::text::{contains, same_text, strip_prefix};

#[test]
fn contains_finds_a_needle_anywhere() {
    assert!(contains("application/json; charset=utf-8", "application/json"));
    assert!(contains("text/plain, text/html", "text/html"));
    assert!(contains("abc", "c"));
    assert!(contains("abc", "abc"));
    assert!(contains("abc", ""));
    assert!(contains("", ""));
}

#[test]
fn contains_misses_what_is_not_there() {
    assert!(!contains("application/jso", "application/json"));
    assert!(!contains("", "a"));
    assert!(!contains("ab", "abc"));
    assert!(!contains("aab", "aba"));
    assert!(!contains("Application/JSON", "application/json"));
}

#[test]
fn strip_prefix_hands_back_the_rest() {
    assert_eq!(strip_prefix("Bearer abc.def", "Bearer "), Some("abc.def"));
    assert_eq!(strip_prefix("Bearer ", "Bearer "), Some(""));
    assert_eq!(strip_prefix("Bearer ünï", "Bearer "), Some("ünï"));
    assert_eq!(strip_prefix("ünï-rest", "ünï"), Some("-rest"));
    assert_eq!(strip_prefix("abc", ""), Some("abc"));
}

#[test]
fn strip_prefix_refuses_another_beginning() {
    assert_eq!(strip_prefix("bearer abc", "Bearer "), None);
    assert_eq!(strip_prefix("Bearer", "Bearer "), None);
    assert_eq!(strip_prefix("", "Bearer "), None);
    assert_eq!(strip_prefix("Basic abc", "Bearer "), None);
}

#[test]
fn same_text_compares_every_character() {
    assert!(same_text("username", "username"));
    assert!(same_text("", ""));
    assert!(!same_text("username", "usernamE"));
    assert!(!same_text("username", "username "));
    assert!(!same_text("a", ""));
}
