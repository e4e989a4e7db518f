use gitflow::text::{cut_at_first, decimal_text, parse_number, split_segments, trim};

#[test]
fn trim_unicode_whitespace() {
    assert_eq!(trim("\u{3000}\t a b \u{a0}\n"), "a b");
    assert_eq!(trim("   "), "");
    assert_eq!(trim(""), "");
}

#[test]
fn decimal_rendering() {
    assert_eq!(decimal_text(0), "0");
    assert_eq!(decimal_text(70), "70");
    assert_eq!(decimal_text(usize::MAX), usize::MAX.to_string());
}

#[test]
fn numbers_as_std_reads_them() {
    assert_eq!(parse_number("42"), Some(42));
    assert_eq!(parse_number("+42"), Some(42));
    assert_eq!(parse_number("+"), None);
    assert_eq!(parse_number(""), None);
    assert_eq!(parse_number("-1"), None);
    assert_eq!(parse_number("007"), Some(7));
}

#[test]
fn segments_skip_empty_pieces() {
    assert_eq!(split_segments("/a//b/", '/'), vec!["a", "b"]);
    assert!(split_segments("///", '/').is_empty());
}

#[test]
fn cut_at_first_occurrence() {
    assert_eq!(cut_at_first("a#b#c", '#'), "a");
    assert_eq!(cut_at_first("abc", '#'), "abc");
}
