use url_previewer::chars::{from_chars, has_prefix, same_text, same_text_ignoring_ascii_case, to_chars};
use url_previewer::extract_url::token::is_space;

#[test]
fn white_space_is_what_unicode_says() {
    for code in 0..=0x10FFFF_u32 {
        if let Some(c) = char::from_u32(code) {
            assert_eq!(is_space(c), c.is_whitespace(), "U+{code:04X}");
        }
    }
}

#[test]
fn chars_and_back() {
    let text = "a\u{e9}\u{4f60}\u{1f517}";
    let chars = to_chars(text);
    assert_eq!(chars, vec!['a', '\u{e9}', '\u{4f60}', '\u{1f517}']);
    assert_eq!(from_chars(&chars, 0, 4), text);
    assert_eq!(from_chars(&chars, 1, 3), "\u{e9}\u{4f60}");
    assert_eq!(from_chars(&chars, 2, 2), "");
}

#[test]
fn texts_are_compared() {
    assert!(same_text("abc", "abc"));
    assert!(same_text("", ""));
    assert!(!same_text("abc", "abd"));
    assert!(!same_text("abc", "ab"));
    assert!(!same_text("abc", "ABC"));
}

#[test]
fn texts_are_compared_without_ascii_case() {
    for (a, b) in [
        ("matrix.to", "MATRIX.TO"),
        ("Matrix.To", "matrix.to"),
        ("matrix.to", "matrix.t0"),
        ("@", "`"),
        ("[", "{"),
        ("\u{e9}", "\u{c9}"),
        ("k", "\u{212a}"),
        ("", ""),
        ("a", ""),
    ] {
        assert_eq!(same_text_ignoring_ascii_case(a, b), a.eq_ignore_ascii_case(b), "{a} {b}");
    }
}

#[test]
fn prefix_is_found_from_a_place() {
    let chars = to_chars("ab> cd");
    assert!(has_prefix(&chars, 2, "> "));
    assert!(!has_prefix(&chars, 0, "> "));
    assert!(has_prefix(&chars, 0, "ab"));
    assert!(has_prefix(&chars, 6, ""));
    assert!(!has_prefix(&chars, 5, "de"));
    assert!(!has_prefix(&chars, 4, "cde"));
}
