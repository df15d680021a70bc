use clipsync::text::{characters, same_text, strip_quotes};

#[test]
fn strip_quotes_removes_every_double_quote() {
    assert_eq!(strip_quotes(""), "");
    assert_eq!(strip_quotes("plain"), "plain");
    assert_eq!(strip_quotes("\""), "");
    assert_eq!(strip_quotes("\"\"\""), "");
    assert_eq!(strip_quotes("\"ab\""), "ab");
    assert_eq!(strip_quotes("a\"b\"\"c"), "abc");
    assert_eq!(strip_quotes("\"a"), "a");
    assert_eq!(strip_quotes("a\""), "a");
}

#[test]
fn strip_quotes_keeps_everything_else() {
    assert_eq!(strip_quotes("'single' `back` \\\" 東\"方"), "'single' `back` \\ 東方");
    assert_eq!(strip_quotes("\u{201c}curly\u{201d}"), "\u{201c}curly\u{201d}");
}

#[test]
fn same_text_compares_contents() {
    assert!(same_text("", ""));
    assert!(same_text("yank", "yank"));
    assert!(same_text("東方", "東方"));
    assert!(!same_text("yank", "yanl"));
    assert!(!same_text("yank", "yan"));
    assert!(!same_text("yan", "yank"));
    assert!(!same_text("", "x"));
    assert!(!same_text("東方", "東京"));
}

#[test]
fn characters_lists_the_text() {
    assert_eq!(characters(""), Vec::<char>::new());
    assert_eq!(characters("a:1"), vec!['a', ':', '1']);
    assert_eq!(characters("東方"), vec!['東', '方']);
}
