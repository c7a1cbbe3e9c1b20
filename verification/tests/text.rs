use ruty::clipboard::epoch_seconds;
use ruty::text::{is_blank_text, join, split_at_char, starts_with, text_eq};

#[test]
fn blank_texts() {
    assert!(is_blank_text(""));
    assert!(is_blank_text(" \t\r\n\u{0b}\u{0c}\u{85}\u{a0}\u{1680}\u{2000}\u{200a}\u{2028}\u{2029}\u{202f}\u{205f}\u{3000}"));
    assert!(!is_blank_text(" a "));
    assert!(!is_blank_text("\u{200b}"));
    assert!(!is_blank_text("\u{180e}"));
    assert!(!is_blank_text("\u{feff}"));
}

#[test]
fn splitting_and_joining() {
    assert_eq!(split_at_char("key=value=x", '='), ("key", "value=x"));
    assert_eq!(split_at_char("novalue", '='), ("novalue", ""));
    assert_eq!(split_at_char("=v", '='), ("", "v"));
    assert_eq!(split_at_char("", ' '), ("", ""));
    assert_eq!(join(&vec!["a".to_string(), "b".to_string(), "".to_string()], ", "), "a, b, ");
    assert_eq!(join(&vec!["a".to_string()], ", "), "a");
    assert_eq!(join(&Vec::new(), ", "), "");
    assert!(text_eq("abc", "abc"));
    assert!(!text_eq("abc", "abd"));
    assert!(!text_eq("abc", "ab"));
}

#[test]
fn prefixes() {
    assert!(starts_with("/app firefox", "/app "));
    assert!(starts_with("abc", ""));
    assert!(starts_with("", ""));
    assert!(starts_with("héllo", "hé"));
    assert!(!starts_with("/ap", "/app "));
    assert!(!starts_with("x/app ", "/app "));
}

#[test]
fn clock_before_the_epoch_counts_as_zero() {
    assert_eq!(epoch_seconds(None), 0);
    assert_eq!(epoch_seconds(Some(1_700_000_000)), 1_700_000_000);
}
