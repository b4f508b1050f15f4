//! The notices that answer a message: a plain text and its HTML twin.

use vstd::prelude::*;
use vstd::string::StringExecFns;
use crate::common::{MAX_RESPONSE_TEXT_CHARS, SAFE_URL_LENGTH};
use crate::extract_url::validate::{parse_url, parsed_url};
use crate::html_escape::{attr, attr_spec, text, text_spec};
use crate::limit::{byte_len, length_in_chars, length_in_chars_spec};
use crate::whitespace::{collapse_whitespace, collapse_whitespace_spec};

verus! {

/// What a page says of itself. Title, site name and description are empty
/// where the page does not give them; the URL is then the one that was asked
/// for.
#[derive(Clone, Debug)]
pub struct OpenGraph {
    pub description: String,
    pub site_name: String,
    pub title: String,
    pub url: String,
}

/// A notice in its two forms.
#[derive(Debug)]
pub struct Notice {
    /// The plain text.
    pub text: String,
    /// The HTML.
    pub html: String,
}

/// The model of `OpenGraph`.
pub struct OpenGraphRecord {
    pub description: Seq<char>,
    pub site_name: Seq<char>,
    pub title: Seq<char>,
    pub url: Seq<char>,
}

/// The model of `Notice`.
pub struct NoticeRecord {
    pub text: Seq<char>,
    pub html: Seq<char>,
}

impl View for OpenGraph {
    type V = OpenGraphRecord;

    open spec fn view(&self) -> OpenGraphRecord {
        OpenGraphRecord {
            description: self.description@,
            site_name: self.site_name@,
            title: self.title@,
            url: self.url@,
        }
    }
}

impl View for Notice {
    type V = NoticeRecord;

    open spec fn view(&self) -> NoticeRecord {
        NoticeRecord { text: self.text@, html: self.html@ }
    }
}

/// The start of every notice's HTML, up to the link back to the message.
pub const HEADLINE_OPEN: &'static str =
    "<blockquote><div class=\"m13253-url-preview-headline\"><a class=\"m13253-url-preview-backref\" href=\"";

/// The start of every notice's HTML, up to the link back to the message.
pub open spec fn headline_open() -> Seq<char> {
    HEADLINE_OPEN@
}

/// The notice that stands while a preview is fetched.
pub open spec fn loading_spec(event_link: Seq<char>) -> NoticeRecord {
    NoticeRecord {
        text: "(Loading\u{2026})"@,
        html: headline_open() + attr_spec(event_link)
            + "\">\u{23f3}\u{fe0f}</a> <span class=\"m13253-url-preview-loading\"><em>Loading\u{2026}</em></span></div></blockquote>"@,
    }
}

/// The notice that says that no preview could be made.
pub open spec fn unavailable_spec(event_link: Seq<char>) -> NoticeRecord {
    NoticeRecord {
        text: "(URL preview is unavailable.)"@,
        html: headline_open() + attr_spec(event_link)
            + "\">\u{26a0}\u{fe0f}</a> <span class=\"m13253-url-preview-error\"><em>URL preview is unavailable.</em></span></div></blockquote>"@,
    }
}

/// The title in the plain text.
pub open spec fn title_text(title: Seq<char>) -> Seq<char> {
    if title.len() == 0 {
        "(No title)"@
    } else {
        title
    }
}

/// The site name in the plain text; nothing for an empty one.
pub open spec fn site_text(site_name: Seq<char>) -> Seq<char> {
    if site_name.len() == 0 {
        Seq::empty()
    } else {
        " \u{2013} "@ + site_name
    }
}

/// The description in the plain text; nothing for an empty one.
pub open spec fn description_text(description: Seq<char>) -> Seq<char> {
    if description.len() == 0 {
        Seq::empty()
    } else {
        "\n> "@ + description
    }
}

/// The plain text of a preview.
pub open spec fn preview_text(title: Seq<char>, site_name: Seq<char>, description: Seq<char>) -> Seq<
    char,
> {
    title_text(title) + site_text(site_name) + description_text(description)
}

/// The title in the HTML, from the end of the link back to the message on:
/// a link to the page.
pub open spec fn title_html(page_url: Seq<char>, title: Seq<char>) -> Seq<char> {
    if title.len() == 0 {
        "\">\u{1f517}\u{fe0f}</a> <em><a class=\"m13253-url-preview-empty-title\" href=\""@
            + attr_spec(page_url) + "\">No title</a></em>"@
    } else {
        "\">\u{1f517}\u{fe0f}</a> <strong><a class=\"m13253-url-preview-title\" href=\""@
            + attr_spec(page_url) + "\">"@ + text_spec(title) + "</a></strong>"@
    }
}

/// The site name in the HTML; nothing for an empty one.
pub open spec fn site_html(site_name: Seq<char>) -> Seq<char> {
    if site_name.len() == 0 {
        Seq::empty()
    } else {
        " \u{2013} <span class=\"m13253-url-preview-site-name\">"@ + text_spec(site_name)
            + "</span>"@
    }
}

/// The description in the HTML; nothing for an empty one.
pub open spec fn description_html(description: Seq<char>) -> Seq<char> {
    if description.len() == 0 {
        Seq::empty()
    } else {
        "<div class=\"m13253-url-preview-description\">"@ + text_spec(description) + "</div>"@
    }
}

/// The HTML of a preview.
pub open spec fn preview_html(
    event_link: Seq<char>,
    page_url: Seq<char>,
    title: Seq<char>,
    site_name: Seq<char>,
    description: Seq<char>,
) -> Seq<char> {
    headline_open() + attr_spec(event_link) + title_html(page_url, title) + site_html(site_name)
        + "</div>"@ + description_html(description) + "</blockquote>"@
}

/// A field as it is shown: white space tidied, then cut to
/// `MAX_RESPONSE_TEXT_CHARS` characters.
pub open spec fn shown_field(field: Seq<char>) -> Seq<char> {
    length_in_chars_spec(collapse_whitespace_spec(field), MAX_RESPONSE_TEXT_CHARS as nat)
}

/// The URL that a preview links to: the one that the page gives for itself,
/// as the `url` crate serializes it, if it is a URL of at most
/// `SAFE_URL_LENGTH` bytes; else the URL that was asked for.
pub open spec fn shown_url(page_url: Seq<char>, requested: Seq<char>) -> Seq<char> {
    match parsed_url(page_url) {
        Some(url) => if byte_len(url.href) <= SAFE_URL_LENGTH {
            url.href
        } else {
            requested
        },
        None => requested,
    }
}

/// The notice that shows the preview of a page.
pub open spec fn preview_spec(
    event_link: Seq<char>,
    requested: Seq<char>,
    page: OpenGraphRecord,
) -> NoticeRecord {
    let title = shown_field(page.title);
    let site_name = shown_field(page.site_name);
    let description = shown_field(page.description);
    NoticeRecord {
        text: preview_text(title, site_name, description),
        html: preview_html(
            event_link,
            shown_url(page.url, requested),
            title,
            site_name,
            description,
        ),
    }
}


/// Makes the notice that stands while a preview is fetched. `event_link`
/// points back to the message that is answered.
pub fn loading_notice(event_link: &str) -> (notice: Notice)
    ensures
        notice@ == loading_spec(event_link@),
{
    let mut html = String::from_str(HEADLINE_OPEN);
    html.append(attr(event_link).as_str());
    html.append(
        "\">\u{23f3}\u{fe0f}</a> <span class=\"m13253-url-preview-loading\"><em>Loading\u{2026}</em></span></div></blockquote>",
    );
    Notice { text: String::from_str("(Loading\u{2026})"), html }
}

/// Makes the notice that says that no preview could be made.
pub fn unavailable_notice(event_link: &str) -> (notice: Notice)
    ensures
        notice@ == unavailable_spec(event_link@),
{
    let mut html = String::from_str(HEADLINE_OPEN);
    html.append(attr(event_link).as_str());
    html.append(
        "\">\u{26a0}\u{fe0f}</a> <span class=\"m13253-url-preview-error\"><em>URL preview is unavailable.</em></span></div></blockquote>",
    );
    Notice { text: String::from_str("(URL preview is unavailable.)"), html }
}

/// Tells whether `s` holds no character.
fn is_blank(s: &str) -> (b: bool)
    ensures
        b == (s@.len() == 0),
{
    s.is_empty()
}

fn title_part(page_url: &str, title: &str) -> (part: String)
    ensures
        part@ == title_html(page_url@, title@),
{
    if is_blank(title) {
        let mut part = String::from_str(
            "\">\u{1f517}\u{fe0f}</a> <em><a class=\"m13253-url-preview-empty-title\" href=\"",
        );
        part.append(attr(page_url).as_str());
        part.append("\">No title</a></em>");
        part
    } else {
        let mut part = String::from_str(
            "\">\u{1f517}\u{fe0f}</a> <strong><a class=\"m13253-url-preview-title\" href=\"",
        );
        part.append(attr(page_url).as_str());
        part.append("\">");
        part.append(text(title).as_str());
        part.append("</a></strong>");
        part
    }
}

fn site_part(site_name: &str) -> (part: String)
    ensures
        part@ == site_html(site_name@),
{
    if is_blank(site_name) {
        String::new()
    } else {
        let mut part = String::from_str(" \u{2013} <span class=\"m13253-url-preview-site-name\">");
        part.append(text(site_name).as_str());
        part.append("</span>");
        part
    }
}

fn description_part(description: &str) -> (part: String)
    ensures
        part@ == description_html(description@),
{
    if is_blank(description) {
        String::new()
    } else {
        let mut part = String::from_str("<div class=\"m13253-url-preview-description\">");
        part.append(text(description).as_str());
        part.append("</div>");
        part
    }
}

fn plain_part(lead: &str, field: &str) -> (part: String)
    ensures
        part@ == (if field@.len() == 0 {
            Seq::empty()
        } else {
            lead@ + field@
        }),
{
    if is_blank(field) {
        String::new()
    } else {
        let mut part = String::from_str(lead);
        part.append(field);
        part
    }
}

/// Makes a preview from fields that are ready to be shown.
pub fn render_fields(
    event_link: &str,
    page_url: &str,
    title: &str,
    site_name: &str,
    description: &str,
) -> (notice: Notice)
    ensures
        notice.text@ == preview_text(title@, site_name@, description@),
        notice.html@ == preview_html(event_link@, page_url@, title@, site_name@, description@),
{
    let mut html = String::from_str(HEADLINE_OPEN);
    html.append(attr(event_link).as_str());
    html.append(title_part(page_url, title).as_str());
    html.append(site_part(site_name).as_str());
    html.append("</div>");
    html.append(description_part(description).as_str());
    html.append("</blockquote>");
    let mut plain = if is_blank(title) {
        String::from_str("(No title)")
    } else {
        String::from_str(title)
    };
    plain.append(plain_part(" \u{2013} ", site_name).as_str());
    plain.append(plain_part("\n> ", description).as_str());
    Notice { text: plain, html }
}

/// Picks the URL that a preview links to.
pub fn pick_shown_url(page_url: &str, requested: &str) -> (url: String)
    ensures
        url@ == shown_url(page_url@, requested@),
{
    match parse_url(page_url) {
        Some(parsed) => {
            proof {
                crate::limit::lemma_byte_len_is_encoded_len(parsed.href@);
            }
            if parsed.href.as_str().as_bytes().len() <= SAFE_URL_LENGTH {
                parsed.href
            } else {
                String::from_str(requested)
            }
        },
        None => String::from_str(requested),
    }
}

/// Makes the notice that shows the preview of a page.
///
/// Title, site name and description are tidied and cut to
/// `MAX_RESPONSE_TEXT_CHARS` characters; a page without a title is shown as
/// "No title". Site name and description are left out where they are empty.
/// `requested` is the URL that was fetched.
pub fn preview_notice(event_link: &str, requested: &str, page: &OpenGraph) -> (notice: Notice)
    ensures
        notice@ == preview_spec(event_link@, requested@, page@),
{
    let title = length_in_chars(collapse_whitespace(page.title.as_str()), MAX_RESPONSE_TEXT_CHARS);
    let site_name = length_in_chars(
        collapse_whitespace(page.site_name.as_str()),
        MAX_RESPONSE_TEXT_CHARS,
    );
    let description = length_in_chars(
        collapse_whitespace(page.description.as_str()),
        MAX_RESPONSE_TEXT_CHARS,
    );
    let url = pick_shown_url(page.url.as_str(), requested);
    render_fields(
        event_link,
        url.as_str(),
        title.as_str(),
        site_name.as_str(),
        description.as_str(),
    )
}

} // verus!
