use url_previewer::html_escape;

#[test]
fn attr_escapes_quotes_and_ampersands() {
    assert_eq!(html_escape::attr("a\"b&c"), "a&quot;b&amp;c");
    assert_eq!(html_escape::attr("<plain>"), "<plain>");
    assert_eq!(html_escape::attr(""), "");
}

#[test]
fn text_escapes_angle_brackets_and_ampersands() {
    assert_eq!(html_escape::text("a<b>&\"c"), "a&lt;b&gt;&amp;\"c");
    assert_eq!(html_escape::text("caf\u{e9} \u{2026}"), "caf\u{e9} \u{2026}");
}
