use indexmap::IndexSet;
use url_previewer::common::MAX_PARSED_BYTES;
use url_previewer::extract_url::markup::{MarkupEvent, MarkupNode, MAX_VISITED_NODES};
use url_previewer::extract_url::{
    extract_urls_from_html, extract_urls_from_markup, extract_urls_from_plain,
    extract_urls_from_text, read_fragment,
};

fn items(set: &IndexSet<String>) -> Vec<&str> {
    set.iter().map(|s| s.as_str()).collect()
}

#[test]
fn text_gives_valid_urls_in_order() {
    assert_eq!(
        extract_urls_from_text("a http://b.example/x b ftp://no.example/ https://c.example/#f"),
        vec!["http://b.example/x", "https://c.example/"]
    );
}

#[test]
fn text_keeps_repetitions() {
    assert_eq!(
        extract_urls_from_text("http://a.example/ http://a.example/"),
        vec!["http://a.example/", "http://a.example/"]
    );
}

#[test]
fn text_bracket_balancing() {
    assert_eq!(extract_urls_from_text("See (http://a.b/c(d))."), vec!["http://a.b/c(d)"]);
    assert_eq!(extract_urls_from_text("(see http://a.b/x)"), vec!["http://a.b/x"]);
}

#[test]
fn text_drops_mention_links() {
    assert_eq!(
        extract_urls_from_text("hi https://matrix.to/#/@u:example.com see https://a.example/"),
        vec!["https://a.example/"]
    );
}

#[test]
fn html_gives_links_and_text_without_quoted_content() {
    let html = [
        "<p><a href=\"https://example.com/a\">x http://inner.example/</a> ",
        "text http://b.example/ <code>http://c.example/</code></p>",
        "<blockquote>http://q.example/</blockquote>",
        "<del>http://d.example/ <b>http://d2.example/</b></del>",
        "<mx-reply>http://r.example/</mx-reply>",
        "<pre>http://p.example/</pre>",
        "<a>http://noh.example/</a> <b>http://bold.example/</b>",
    ]
    .concat();
    let urls = extract_urls_from_html(&html).unwrap();
    assert_eq!(
        items(&urls),
        vec![
            "https://example.com/a",
            "http://b.example/",
            "http://noh.example/",
            "http://bold.example/"
        ]
    );
}

#[test]
fn html_same_url_twice_is_one_candidate() {
    let html = "http://a.example/ <a href=\"http://b.example/\">b</a> http://a.example/ http://b.example/";
    let urls = extract_urls_from_html(html).unwrap();
    assert_eq!(items(&urls), vec!["http://a.example/", "http://b.example/"]);
}

#[test]
fn html_mention_links_are_no_candidates() {
    let html = [
        "<a href=\"https://matrix.to/#/@alice:example.com\">Alice</a>: look at ",
        "<a href=\"https://example.com/\">this</a> and https://matrix.to/#/!r:example.com ",
        "<b><i><a href=\"HTTPS://MATRIX.TO/x\">deep</a></i></b>",
    ]
    .concat();
    let urls = extract_urls_from_html(&html).unwrap();
    assert_eq!(items(&urls), vec!["https://example.com/"]);
}

#[test]
fn html_link_with_bad_target_still_hides_its_text() {
    let html = "<a href=\"nonsense\">http://shown.example/</a> http://after.example/";
    let urls = extract_urls_from_html(html).unwrap();
    assert_eq!(items(&urls), vec!["http://after.example/"]);
}

#[test]
fn html_fifteen_urls_give_the_first_ten() {
    let html: String = (0..15).map(|i| format!("<p>http://h{i}.example/</p>")).collect();
    let urls = extract_urls_from_html(&html).unwrap();
    let expected: Vec<String> = (0..10).map(|i| format!("http://h{i}.example/")).collect();
    assert_eq!(urls.into_iter().collect::<Vec<_>>(), expected);
}

#[test]
fn html_fifteen_urls_in_one_text_give_the_first_ten() {
    let all: Vec<String> = (1..=15).map(|i| format!("http://a.b/{i}")).collect();
    let urls = extract_urls_from_html(&all.join(" ")).unwrap();
    assert_eq!(urls.into_iter().collect::<Vec<_>>(), all[..10].to_vec());
}

#[test]
fn html_ten_urls_are_all_taken() {
    let all: Vec<String> = (1..=10).map(|i| format!("http://a.b/{i}")).collect();
    let urls = extract_urls_from_html(&all.join(" ")).unwrap();
    assert_eq!(urls.into_iter().collect::<Vec<_>>(), all);
}

#[test]
fn html_repetitions_take_no_room() {
    // Twelve URLs are found, eleven of them distinct: ten are taken.
    let mut found: Vec<String> = (1..=9).map(|i| format!("http://a.b/{i}")).collect();
    found.push("http://a.b/1".to_owned());
    found.push("http://a.b/10".to_owned());
    found.push("http://a.b/11".to_owned());
    let html: String = found.iter().map(|u| format!("<a href=\"{u}\">x</a> ")).collect();
    let urls = extract_urls_from_html(&html).unwrap();
    let expected: Vec<String> = (1..=10).map(|i| format!("http://a.b/{i}")).collect();
    assert_eq!(urls.into_iter().collect::<Vec<_>>(), expected);
}

#[test]
fn plain_fifteen_urls_give_the_first_ten() {
    let all: Vec<String> = (1..=15).map(|i| format!("http://a.b/{i}")).collect();
    let urls = extract_urls_from_plain(&all.join("\n"));
    assert_eq!(urls.into_iter().collect::<Vec<_>>(), all[..10].to_vec());
}

#[test]
fn html_deep_nesting_is_walked() {
    let html = format!("{}http://deep.example/{}", "<b>".repeat(300), "</b>".repeat(300));
    let urls = extract_urls_from_html(&html).unwrap();
    assert_eq!(items(&urls), vec!["http://deep.example/"]);
}

#[test]
fn markup_events_are_followed() {
    let text = |s: &str| MarkupEvent::Open(MarkupNode::Text(s.to_owned()));
    let element = |name: &str, link: Option<&str>| {
        MarkupEvent::Open(MarkupNode::Element {
            name: name.to_owned(),
            link: link.map(str::to_owned),
        })
    };
    let events = vec![
        MarkupEvent::Open(MarkupNode::Other),
        element("p", None),
        text("http://one.example/"),
        MarkupEvent::Close,
        element("pre", None),
        element("a", Some("http://hidden.example/")),
        text("http://hidden2.example/"),
        MarkupEvent::Close,
        MarkupEvent::Close,
        MarkupEvent::Close,
        element("a", Some("http://two.example/#f")),
        text("http://three.example/"),
        MarkupEvent::Close,
        MarkupEvent::Close,
        text("http://one.example/ http://four.example/"),
        MarkupEvent::Close,
        MarkupEvent::Close,
        MarkupEvent::Close,
    ];
    let urls = extract_urls_from_markup(&events).unwrap();
    assert_eq!(
        items(&urls),
        vec!["http://one.example/", "http://two.example/", "http://four.example/"]
    );
}

#[test]
fn markup_with_too_many_nodes_is_refused() {
    let mut events = Vec::new();
    for _ in 0..MAX_VISITED_NODES {
        events.push(MarkupEvent::Open(MarkupNode::Other));
        events.push(MarkupEvent::Close);
    }
    assert!(extract_urls_from_markup(&events).is_some());
    events.push(MarkupEvent::Open(MarkupNode::Other));
    events.push(MarkupEvent::Close);
    assert!(extract_urls_from_markup(&events).is_none());
}

#[test]
fn markup_nodes_passed_over_do_not_count() {
    let mut events = vec![MarkupEvent::Open(MarkupNode::Element {
        name: "pre".to_owned(),
        link: None,
    })];
    for _ in 0..MAX_VISITED_NODES {
        events.push(MarkupEvent::Open(MarkupNode::Other));
        events.push(MarkupEvent::Close);
    }
    events.push(MarkupEvent::Close);
    assert!(extract_urls_from_markup(&events).is_some());
}

#[test]
fn plain_body_skips_leading_quote() {
    let body = "> quoted http://q.example/\n> more http://q2.example/\n\nanswer http://a.example/\n> late http://late.example/";
    let urls = extract_urls_from_plain(body);
    assert_eq!(items(&urls), vec!["http://a.example/", "http://late.example/"]);
}

#[test]
fn plain_body_without_quote() {
    let urls = extract_urls_from_plain("http://a.example/ and\r\nhttp://b.example/ http://a.example/");
    assert_eq!(items(&urls), vec!["http://a.example/", "http://b.example/"]);
}

#[test]
fn plain_body_that_is_all_quote() {
    assert!(extract_urls_from_plain("> http://q.example/").is_empty());
    assert!(extract_urls_from_plain("").is_empty());
    let urls = extract_urls_from_plain(">http://a.example/");
    assert_eq!(items(&urls), vec!["http://a.example/"]);
}

#[test]
fn fragment_events_are_well_nested() {
    let deep = format!("{}x{}", "<b>".repeat(200), "</i>".repeat(3));
    for html in [
        "",
        "plain text",
        "<p>one</p><p>two<br>three</p>",
        "<a href=\"http://a.example/\">x</a><!-- c --><pre><code>y</code></pre>",
        "</p></div>stray closers<table><td>cell",
        "<b><i>misnested</b></i>",
        deep.as_str(),
    ] {
        let events = read_fragment(html).unwrap();
        let mut open: i64 = 0;
        for event in events.iter() {
            match event {
                MarkupEvent::Open(_) => open += 1,
                MarkupEvent::Close => open -= 1,
            }
            assert!(open >= 0, "{html}");
        }
        assert_eq!(open, 0, "{html}");
        assert!(matches!(events.first(), Some(MarkupEvent::Open(MarkupNode::Other))), "{html}");
    }
}

#[test]
fn fragment_events_hold_names_links_and_text() {
    let events = read_fragment("<a href=\"u\" title=\"t\">x</a><em>y</em>").unwrap();
    let mut seen = Vec::new();
    for event in events.iter() {
        match event {
            MarkupEvent::Open(MarkupNode::Text(text)) => seen.push(format!("text {text}")),
            MarkupEvent::Open(MarkupNode::Element { name, link }) => {
                seen.push(format!("{name} {link:?}"))
            }
            MarkupEvent::Open(MarkupNode::Other) => seen.push("other".to_owned()),
            MarkupEvent::Close => seen.push("close".to_owned()),
        }
    }
    assert_eq!(
        seen,
        vec![
            "other",
            "html None",
            "a Some(\"u\")",
            "text x",
            "close",
            "close",
            "em None",
            "text y",
            "close",
            "close",
            "close",
            "close",
        ]
    );
}

#[test]
fn html_too_long_to_parse_is_refused() {
    let mut text = String::from("http://a.example/ ");
    text.push_str(&" ".repeat(MAX_PARSED_BYTES - text.len()));
    assert_eq!(text.len(), MAX_PARSED_BYTES);
    text.push(' ');
    assert!(read_fragment(&text).is_none());
    assert!(extract_urls_from_html(&text).is_none());
}
