use todo_list::text::{append_decimal, is_space_char, same_text, split_tokens};

#[test]
fn split_on_runs_of_whitespace() {
    let t = split_tokens("  add\talice   2999-01-01 09:00 \n");
    assert_eq!(t, vec!["add", "alice", "2999-01-01", "09:00"]);
}

#[test]
fn split_empty_and_blank() {
    assert!(split_tokens("").is_empty());
    assert!(split_tokens(" \t \u{3000}\u{2003} ").is_empty());
}

#[test]
fn split_on_unicode_spaces() {
    let t = split_tokens("a\u{00A0}b\u{2028}c");
    assert_eq!(t, vec!["a", "b", "c"]);
}

#[test]
fn whitespace_class_matches_std() {
    for u in 0u32..0x3100 {
        if let Some(c) = char::from_u32(u) {
            assert_eq!(is_space_char(c), c.is_whitespace(), "code point {:x}", u);
        }
    }
}

#[test]
fn text_equality() {
    assert!(same_text("list", "list"));
    assert!(!same_text("list", "lis"));
    assert!(!same_text("list", "lisT"));
    assert!(same_text("", ""));
}

#[test]
fn decimal_rendering() {
    let mut s = String::from("n=");
    append_decimal(&mut s, 0);
    assert_eq!(s, "n=0");
    let mut s = String::new();
    append_decimal(&mut s, 1234567890);
    assert_eq!(s, "1234567890");
    let mut s = String::new();
    append_decimal(&mut s, u64::MAX);
    assert_eq!(s, u64::MAX.to_string());
}
