use hello_web::text::{contains_char, same_text, strip_prefix};

#[test]
fn same_text_compares_every_character() {
    assert!(same_text("", ""));
    assert!(same_text("/", "/"));
    assert!(same_text("/echo", "/echo"));
    assert!(same_text("\u{e9}\u{4e16}", "\u{e9}\u{4e16}"));
    assert!(!same_text("/", ""));
    assert!(!same_text("", "/"));
    assert!(!same_text("/echo", "/ech"));
    assert!(!same_text("/ech", "/echo"));
    assert!(!same_text("/echo", "/echO"));
    assert!(!same_text("/echo", "/Echo"));
    assert!(!same_text("e", "\u{e9}"));
}

#[test]
fn contains_char_finds_a_character() {
    assert!(contains_char("a/b", '/'));
    assert!(contains_char("/", '/'));
    assert!(contains_char("ab/", '/'));
    assert!(contains_char("\u{4e16}/", '/'));
    assert!(contains_char("\u{4e16}", '\u{4e16}'));
    assert!(!contains_char("", '/'));
    assert!(!contains_char("ab", '/'));
    assert!(!contains_char("a%2Fb", '/'));
    assert!(!contains_char("\u{4e16}\u{e9}", '/'));
}

#[test]
fn strip_prefix_gives_what_follows() {
    assert_eq!(strip_prefix("/hey/Ada", "/hey/"), Some("Ada"));
    assert_eq!(strip_prefix("/hey/", "/hey/"), Some(""));
    assert_eq!(strip_prefix("/hey/a/b", "/hey/"), Some("a/b"));
    assert_eq!(strip_prefix("abc", ""), Some("abc"));
    assert_eq!(strip_prefix("", ""), Some(""));
    assert_eq!(strip_prefix("\u{e9}t\u{e9}", "\u{e9}"), Some("t\u{e9}"));
    assert_eq!(strip_prefix("/hey/\u{4e16}\u{754c}", "/hey/"), Some("\u{4e16}\u{754c}"));
}

#[test]
fn strip_prefix_refuses_another_start() {
    assert_eq!(strip_prefix("/hey", "/hey/"), None);
    assert_eq!(strip_prefix("", "/hey/"), None);
    assert_eq!(strip_prefix("/Hey/Ada", "/hey/"), None);
    assert_eq!(strip_prefix("/hex/Ada", "/hey/"), None);
    assert_eq!(strip_prefix("hey/Ada", "/hey/"), None);
    assert_eq!(strip_prefix("et\u{e9}", "\u{e9}"), None);
}
