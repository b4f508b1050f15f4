use url_previewer::limit::{length_in_bytes, length_in_chars};

#[test]
fn chars_within_budget_are_unchanged() {
    assert_eq!(length_in_chars("hello".to_owned(), 5), "hello");
    assert_eq!(length_in_chars("hello".to_owned(), 10), "hello");
    assert_eq!(length_in_chars(String::new(), 0), "");
}

#[test]
fn chars_over_budget_end_in_ellipsis() {
    assert_eq!(length_in_chars("hello world".to_owned(), 5), "hell\u{2026}");
    assert_eq!(length_in_chars("hello".to_owned(), 1), "\u{2026}");
    assert_eq!(length_in_chars("hello".to_owned(), 0), "\u{2026}");
}

#[test]
fn chars_ellipsis_is_not_doubled() {
    assert_eq!(length_in_chars("abc\u{2026}efgh".to_owned(), 5), "abc\u{2026}");
}

#[test]
fn chars_cut_keeps_code_points_whole() {
    let s = "\u{4f60}\u{597d}\u{4e16}\u{754c}".to_owned();
    assert_eq!(length_in_chars(s, 3), "\u{4f60}\u{597d}\u{2026}");
}

#[test]
fn long_title_is_cut_to_budget() {
    let title: String = std::iter::repeat('\u{e9}').take(500).collect();
    let cut = length_in_chars(title, 200);
    assert_eq!(cut.chars().count(), 200);
    assert!(cut.ends_with('\u{2026}'));
    assert_eq!(cut.chars().filter(|c| *c == '\u{2026}').count(), 1);
    assert!(cut.chars().take(199).all(|c| c == '\u{e9}'));
}

#[test]
fn bytes_within_budget_are_unchanged() {
    assert_eq!(length_in_bytes("hello".to_owned(), 5), "hello");
    assert_eq!(length_in_bytes("hi".to_owned(), 2), "hi");
}

#[test]
fn bytes_over_budget_are_cut_before_the_ellipsis() {
    // Ten bytes of budget leave six for the text and three for the ellipsis.
    assert_eq!(length_in_bytes("hello world".to_owned(), 10), "hello \u{2026}");
    assert_eq!(length_in_bytes("hello".to_owned(), 4), "\u{2026}");
}

#[test]
fn bytes_cut_falls_on_a_character() {
    // Each character takes three bytes; seven bytes of room hold two.
    let s = "\u{4f60}\u{597d}\u{4e16}\u{754c}".to_owned();
    assert_eq!(length_in_bytes(s, 11), "\u{4f60}\u{597d}\u{2026}");
    let t = "a\u{e9}\u{e9}\u{e9}\u{e9}".to_owned();
    assert_eq!(length_in_bytes(t, 8), "a\u{e9}\u{2026}");
}

#[test]
fn bytes_ellipsis_is_not_doubled() {
    assert_eq!(length_in_bytes("ab\u{2026}cdefgh".to_owned(), 9), "ab\u{2026}");
}
