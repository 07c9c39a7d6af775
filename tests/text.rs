use cookie_scout::text::{contains_text, same_text, split_text, starts_with_text, trim_text};

#[test]
fn trims_unicode_whitespace() {
    assert_eq!(trim_text("  a b \t\n"), "a b");
    assert_eq!(trim_text("\u{3000}x\u{A0}"), "x");
    assert_eq!(trim_text("   "), "");
    assert_eq!(trim_text(""), "");
}

#[test]
fn splits_like_str_split() {
    assert_eq!(split_text("a;b;;c", ';'), vec!["a", "b", "", "c"]);
    assert_eq!(split_text("", ';'), vec![""]);
    assert_eq!(split_text(";", ';'), vec!["", ""]);
}

#[test]
fn text_searches() {
    assert!(contains_text("sub.example.com", "example.com"));
    assert!(contains_text("abc", ""));
    assert!(!contains_text("", "a"));
    assert!(starts_with_text("https://x", "https://"));
    assert!(!starts_with_text("http", "https://"));
    assert!(same_text("ab", "ab"));
    assert!(!same_text("ab", "abc"));
}
