use url_previewer::render::{
    loading_notice, pick_shown_url, preview_notice, render_fields, unavailable_notice, OpenGraph,
};
use url_previewer::whitespace::collapse_whitespace;

const LINK: &str = "https://matrix.to/#/!r:e/$ev?via=e&via=f";
const LINK_ESCAPED: &str = "https://matrix.to/#/!r:e/$ev?via=e&amp;via=f";

#[test]
fn loading_notice_bodies() {
    let notice = loading_notice(LINK);
    assert_eq!(notice.text, "(Loading\u{2026})");
    assert_eq!(
        notice.html,
        format!(
            "<blockquote><div class=\"m13253-url-preview-headline\"><a class=\"m13253-url-preview-backref\" href=\"{}\">\u{23f3}\u{fe0f}</a> <span class=\"m13253-url-preview-loading\"><em>Loading\u{2026}</em></span></div></blockquote>",
            LINK_ESCAPED
        )
    );
}

#[test]
fn unavailable_notice_bodies() {
    let notice = unavailable_notice(LINK);
    assert_eq!(notice.text, "(URL preview is unavailable.)");
    assert_eq!(
        notice.html,
        format!(
            "<blockquote><div class=\"m13253-url-preview-headline\"><a class=\"m13253-url-preview-backref\" href=\"{}\">\u{26a0}\u{fe0f}</a> <span class=\"m13253-url-preview-error\"><em>URL preview is unavailable.</em></span></div></blockquote>",
            LINK_ESCAPED
        )
    );
}

#[test]
fn preview_with_all_fields() {
    let notice = render_fields(LINK, "https://e.example/?a=1&b=\"2\"", "T <1>", "S & Co", "D > d");
    assert_eq!(notice.text, "T <1> \u{2013} S & Co\n> D > d");
    assert_eq!(
        notice.html,
        format!(
            "<blockquote><div class=\"m13253-url-preview-headline\"><a class=\"m13253-url-preview-backref\" href=\"{}\">\u{1f517}\u{fe0f}</a> <strong><a class=\"m13253-url-preview-title\" href=\"https://e.example/?a=1&amp;b=&quot;2&quot;\">T &lt;1&gt;</a></strong> \u{2013} <span class=\"m13253-url-preview-site-name\">S &amp; Co</span></div><div class=\"m13253-url-preview-description\">D &gt; d</div></blockquote>",
            LINK_ESCAPED
        )
    );
}

#[test]
fn preview_without_title() {
    let notice = render_fields(LINK, "https://e.example/", "", "", "");
    assert_eq!(notice.text, "(No title)");
    assert_eq!(
        notice.html,
        format!(
            "<blockquote><div class=\"m13253-url-preview-headline\"><a class=\"m13253-url-preview-backref\" href=\"{}\">\u{1f517}\u{fe0f}</a> <em><a class=\"m13253-url-preview-empty-title\" href=\"https://e.example/\">No title</a></em></div></blockquote>",
            LINK_ESCAPED
        )
    );
}

#[test]
fn preview_with_title_and_description_only() {
    let notice = render_fields("l", "u", "T", "", "D");
    assert_eq!(notice.text, "T\n> D");
    assert_eq!(
        notice.html,
        "<blockquote><div class=\"m13253-url-preview-headline\"><a class=\"m13253-url-preview-backref\" href=\"l\">\u{1f517}\u{fe0f}</a> <strong><a class=\"m13253-url-preview-title\" href=\"u\">T</a></strong></div><div class=\"m13253-url-preview-description\">D</div></blockquote>"
    );
}

#[test]
fn preview_tidies_and_cuts_fields() {
    let page = OpenGraph {
        description: format!("  {}  ", "d".repeat(300)),
        site_name: " Site\t\n Name ".to_owned(),
        title: "A \r\n  title".to_owned(),
        url: "https://canonical.example/page#frag".to_owned(),
    };
    let notice = preview_notice("l", "https://asked.example/", &page);
    let description = format!("{}\u{2026}", "d".repeat(199));
    assert_eq!(notice.text, format!("A title \u{2013} Site Name\n> {description}"));
    assert!(notice.html.contains("href=\"https://canonical.example/page#frag\">A title</a>"));
    assert!(notice.html.contains(&format!(
        "<div class=\"m13253-url-preview-description\">{description}</div>"
    )));
}

#[test]
fn shown_url_falls_back_to_the_requested_one() {
    assert_eq!(pick_shown_url("", "https://asked.example/"), "https://asked.example/");
    assert_eq!(pick_shown_url("/relative", "https://asked.example/"), "https://asked.example/");
    assert_eq!(pick_shown_url("HTTPS://Page.Example", "https://asked.example/"), "https://page.example/");
    let long = format!("https://page.example/{}", "a".repeat(2048));
    assert_eq!(pick_shown_url(&long, "https://asked.example/"), "https://asked.example/");
}

#[test]
fn white_space_is_collapsed_and_trimmed() {
    assert_eq!(collapse_whitespace("  a \t\n b\x0c\rc  "), "a b c");
    assert_eq!(collapse_whitespace(""), "");
    assert_eq!(collapse_whitespace(" \n\t "), "");
    assert_eq!(collapse_whitespace("a"), "a");
    // A no-break space is no HTML white space: it stays inside and goes at the ends.
    assert_eq!(collapse_whitespace("\u{a0}a\u{a0}\u{a0}b \u{a0}"), "a\u{a0}\u{a0}b");
}
