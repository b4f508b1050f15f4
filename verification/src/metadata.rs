//! Reading the metadata of a fetched page.
//!
//! The bytes of a page are turned into text by the charset that is declared
//! for it, by its header first and by the page itself after. The fields of
//! a preview are taken from the first place that gives them. Parsing of
//! HTML, of content types and of charsets is left to `scraper`, `mime` and
//! `encoding_rs`; the order in which their answers count is decided here.

use vstd::prelude::*;
use vstd::string::StringExecFns;
use crate::chars::{option_text, same_text};
use crate::common::{fits_parser, is_parseable};
use crate::render::{OpenGraph, OpenGraphRecord};

verus! {

/// Most bytes of a page that are decoded. The decoder counts up to three
/// bytes of text for each byte of the page, and the count must fit; a longer
/// page is read as empty.
pub const MAX_PAGE_BYTES: usize = 0x2000_0000;

/// For each element of the document `document` that the CSS selector
/// `selector` matches, in the order in which `scraper` finds them, the value
/// of its attribute `attr`, if it has that attribute. `None` where
/// `selector` is no selector.
pub uninterp spec fn selected_attrs(
    document: Seq<char>,
    selector: Seq<char>,
    attr: Seq<char>,
) -> Option<Seq<Option<Seq<char>>>>;

/// For each element of the document `document` that the CSS selector
/// `selector` matches, in the order in which `scraper` finds them, the text
/// inside it. `None` where `selector` is no selector.
pub uninterp spec fn selected_texts(document: Seq<char>, selector: Seq<char>) -> Option<
    Seq<Seq<char>>,
>;

/// The charset parameter of a content type, as `mime` reads it; `None`
/// where `value` is no content type or has no such parameter.
pub uninterp spec fn content_type_charset(value: Seq<char>) -> Option<Seq<char>>;

/// The name of the encoding that `encoding_rs` knows under `label`; `None`
/// for a label that it does not know.
pub uninterp spec fn encoding_name(label: Seq<char>) -> Option<Seq<char>>;

/// `bytes` decoded by the encoding that `encoding_rs` knows under `label`;
/// `None` for a label that it does not know.
pub uninterp spec fn decoded(bytes: Seq<u8>, label: Seq<char>) -> Option<Seq<char>>;

/// `bytes` decoded as UTF-8 by `encoding_rs`.
pub uninterp spec fn decoded_utf8(bytes: Seq<u8>) -> Seq<char>;

/// The texts of optional strings.
pub open spec fn option_texts(v: Seq<Option<String>>) -> Seq<Option<Seq<char>>> {
    Seq::new(v.len(), |i: int| option_text(v[i]))
}

/// What is read of one element that a selector matched.
#[derive(Debug)]
pub struct Picked {
    /// The value of the attribute that was asked for, if the element has it.
    pub attr: Option<String>,
    /// The text inside the element.
    pub text: String,
}

/// A question to a document: a CSS selector, and the name of the attribute
/// to read of each element that it matches.
#[derive(Debug)]
pub struct Query {
    pub selector: String,
    pub attr: String,
}

/// The attribute values of a list of elements.
pub open spec fn picked_attrs(v: Seq<Picked>) -> Seq<Option<Seq<char>>> {
    Seq::new(v.len(), |i: int| option_text(v[i].attr))
}

/// The texts of a list of elements.
pub open spec fn picked_texts(v: Seq<Picked>) -> Seq<Seq<char>> {
    Seq::new(v.len(), |i: int| v[i].text@)
}

/// `found` is what the document gives for a selector and an attribute:
/// the elements that `selected_attrs` and `selected_texts` name, or nothing
/// where the selector is none.
pub open spec fn answers(
    found: Option<Vec<Picked>>,
    document: Seq<char>,
    selector: Seq<char>,
    attr: Seq<char>,
) -> bool {
    match found {
        Some(v) => {
            &&& selected_attrs(document, selector, attr) == Some(picked_attrs(v@))
            &&& selected_texts(document, selector) == Some(picked_texts(v@))
        },
        None => {
            &&& selected_attrs(document, selector, attr) is None
            &&& selected_texts(document, selector) is None
        },
    }
}

/// Calls `scraper::Html::parse_document` once and then, for each query,
/// `Selector::parse` and `Html::select`, and copies out what
/// `ElementRef::attr` returns and what `ElementRef::text` yields, joined,
/// for each element. The answer to each query is named `selected_attrs` and
/// `selected_texts`; nothing else is claimed of it. A text that is too long
/// for the parser's buffers is left out.
#[verifier::external_body]
fn select_all(document: &str, queries: &Vec<Query>) -> (found: Vec<Option<Vec<Picked>>>)
    requires
        is_parseable(document@),
    ensures
        found.len() == queries.len(),
        forall|i: int|
            0 <= i < queries.len() ==> match #[trigger] found[i] {
                Some(v) => {
                    &&& selected_attrs(document@, queries[i].selector@, queries[i].attr@) == Some(
                        picked_attrs(v@),
                    )
                    &&& selected_texts(document@, queries[i].selector@) == Some(picked_texts(v@))
                },
                None => {
                    &&& selected_attrs(document@, queries[i].selector@, queries[i].attr@) is None
                    &&& selected_texts(document@, queries[i].selector@) is None
                },
            },
{
    let dom = scraper::Html::parse_document(document);
    queries.iter().map(|query| match scraper::Selector::parse(&query.selector) {
        Ok(parsed) => Some(
            dom.select(&parsed).map(|element| Picked {
                attr: element.attr(&query.attr).map(str::to_owned),
                text: element.text().collect::<String>(),
            }).collect(),
        ),
        Err(_) => None,
    }).collect()
}

/// Calls `mime::Mime::from_str` (through `str::parse`) and `Mime::get_param` with `mime::CHARSET`.
/// The result is named `content_type_charset`; nothing else is claimed of
/// it.
#[verifier::external_body]
fn charset_of_content_type(value: &str) -> (label: Option<String>)
    ensures
        option_text(label) == content_type_charset(value@),
{
    match value.parse::<mime::Mime>() {
        Ok(parsed) => parsed.get_param(mime::CHARSET).map(|name| name.as_str().to_owned()),
        Err(_) => None,
    }
}

/// Calls `encoding_rs::Encoding::for_label` and copies out the encoding's
/// `name`. The result is named `encoding_name`; nothing else is claimed of
/// it.
#[verifier::external_body]
fn name_of_encoding(label: &str) -> (name: Option<String>)
    ensures
        option_text(name) == encoding_name(label@),
{
    encoding_rs::Encoding::for_label(label.as_bytes()).map(|encoding| encoding.name().to_owned())
}

/// Calls `encoding_rs::Encoding::for_label` and, with the encoding found,
/// `Encoding::decode`. The result is named `decoded`; it is there exactly
/// for the labels that `for_label` knows. Left out are bytes so many that
/// the length of their text could not be counted.
#[verifier::external_body]
fn decode_with(bytes: &[u8], label: &str) -> (text: Option<String>)
    requires
        bytes@.len() <= MAX_PAGE_BYTES,
    ensures
        option_text(text) == decoded(bytes@, label@),
        text is Some <==> encoding_name(label@) is Some,
{
    encoding_rs::Encoding::for_label(label.as_bytes()).map(
        |encoding| encoding.decode(bytes).0.into_owned(),
    )
}

/// Calls `Encoding::decode` on `encoding_rs::UTF_8`. The result is named
/// `decoded_utf8`; nothing else is claimed of it. Left out are bytes so many
/// that the length of their text could not be counted.
#[verifier::external_body]
fn decode_utf8(bytes: &[u8]) -> (text: String)
    requires
        bytes@.len() <= MAX_PAGE_BYTES,
    ensures
        text@ == decoded_utf8(bytes@),
{
    encoding_rs::UTF_8.decode(bytes).0.into_owned()
}


/// The first of `items` that is there and not empty.
pub open spec fn first_filled(items: Seq<Option<Seq<char>>>) -> Option<Seq<char>>
    decreases items.len(),
{
    if items.len() == 0 {
        None
    } else if items[0] is Some && items[0]->0.len() > 0 {
        items[0]
    } else {
        first_filled(items.drop_first())
    }
}

/// `first` if it is there, else `second`.
pub open spec fn or_else(first: Option<Seq<char>>, second: Option<Seq<char>>) -> Option<
    Seq<char>,
> {
    if first is Some {
        first
    } else {
        second
    }
}

/// The text, or the empty text where there is none.
pub open spec fn or_empty(o: Option<Seq<char>>) -> Seq<char> {
    match o {
        Some(s) => s,
        None => Seq::empty(),
    }
}

/// The first filled value of the attribute `attr` among the elements that
/// `selector` matches.
pub open spec fn filled_attr(document: Seq<char>, selector: Seq<char>, attr: Seq<char>) -> Option<
    Seq<char>,
> {
    match selected_attrs(document, selector, attr) {
        Some(values) => first_filled(values),
        None => None,
    }
}

/// The first text that is not empty among the elements that `selector`
/// matches.
pub open spec fn filled_text(document: Seq<char>, selector: Seq<char>) -> Option<Seq<char>> {
    match selected_texts(document, selector) {
        Some(values) => first_filled(values.map_values(|t: Seq<char>| Some(t))),
        None => None,
    }
}

/// The description of a page: the Open Graph one, else the Twitter one, else
/// the plain one.
pub open spec fn description_of(document: Seq<char>) -> Seq<char> {
    or_empty(
        or_else(
            or_else(
                filled_attr(document, "meta[property=\"og:description\" i]"@, "content"@),
                filled_attr(document, "meta[property=\"twitter:description\" i]"@, "content"@),
            ),
            filled_attr(document, "meta[name=\"description\" i]"@, "content"@),
        ),
    )
}

/// The site name of a page: the Open Graph one.
pub open spec fn site_name_of(document: Seq<char>) -> Seq<char> {
    or_empty(filled_attr(document, "meta[property=\"og:site_name\" i]"@, "content"@))
}

/// The title of a page: the Open Graph one, else the Twitter one, else the
/// text of the first `title`, `h1`, `h2` or `h3`, tried in this order, that
/// has any.
pub open spec fn title_of(document: Seq<char>) -> Seq<char> {
    or_empty(
        or_else(
            or_else(
                or_else(
                    or_else(
                        or_else(
                            filled_attr(document, "meta[property=\"og:title\" i]"@, "content"@),
                            filled_attr(
                                document,
                                "meta[property=\"twitter:title\" i]"@,
                                "content"@,
                            ),
                        ),
                        filled_text(document, "title"@),
                    ),
                    filled_text(document, "h1"@),
                ),
                filled_text(document, "h2"@),
            ),
            filled_text(document, "h3"@),
        ),
    )
}

/// The URL of a page: the Open Graph one that the page gives, else its
/// canonical link, else `requested`, the URL that was asked for.
pub open spec fn url_of(document: Seq<char>, requested: Seq<char>) -> Seq<char> {
    match or_else(
        filled_attr(document, "meta[property=\"og:url\" i]"@, "content"@),
        filled_attr(document, "link[rel=\"canonical\" i]"@, "href"@),
    ) {
        Some(url) => url,
        None => requested,
    }
}

/// What is known of a page that could not be read: no fields, and the URL
/// that was asked for.
pub open spec fn no_metadata(requested: Seq<char>) -> OpenGraphRecord {
    OpenGraphRecord {
        description: Seq::empty(),
        site_name: Seq::empty(),
        title: Seq::empty(),
        url: requested,
    }
}

/// The metadata of a page that was asked for as `requested`. A page whose
/// text is too long to be parsed gives no fields, and `requested` for its
/// URL.
pub open spec fn open_graph_of(document: Seq<char>, requested: Seq<char>) -> OpenGraphRecord {
    if is_parseable(document) {
        OpenGraphRecord {
            description: description_of(document),
            site_name: site_name_of(document),
            title: title_of(document),
            url: url_of(document, requested),
        }
    } else {
        no_metadata(requested)
    }
}

/// Picks the first of `items` that is there and not empty.
pub fn pick_first_filled(items: &Vec<Option<String>>) -> (found: Option<String>)
    ensures
        option_text(found) == first_filled(option_texts(items@)),
{
    let ghost all = option_texts(items@);
    let mut i: usize = 0;
    proof {
        assert(all.skip(0) =~= all);
    }
    while i < items.len()
        invariant
            i <= items.len(),
            all == option_texts(items@),
            first_filled(all) == first_filled(all.skip(i as int)),
        decreases items.len() - i,
    {
        proof {
            assert(all.skip(i as int).drop_first() =~= all.skip(i as int + 1));
            assert(all.skip(i as int)[0] == option_text(items@[i as int]));
        }
        match &items[i] {
            Some(value) => {
                if !value.as_str().is_empty() {
                    return Some(value.clone());
                }
            },
            None => {},
        }
        i += 1;
    }
    None
}

/// Picks the first text among `items` that is not empty.
pub fn pick_first_text(items: &Vec<String>) -> (found: Option<String>)
    ensures
        option_text(found) == first_filled(
            crate::chars::texts(items@).map_values(|t: Seq<char>| Some(t)),
        ),
{
    let ghost all = crate::chars::texts(items@).map_values(|t: Seq<char>| Some(t));
    let mut i: usize = 0;
    proof {
        assert(all.skip(0) =~= all);
    }
    while i < items.len()
        invariant
            i <= items.len(),
            all == crate::chars::texts(items@).map_values(|t: Seq<char>| Some(t)),
            first_filled(all) == first_filled(all.skip(i as int)),
        decreases items.len() - i,
    {
        proof {
            assert(all.skip(i as int).drop_first() =~= all.skip(i as int + 1));
            assert(all.skip(i as int)[0] == Some(items@[i as int]@));
        }
        if !items[i].as_str().is_empty() {
            return Some(items[i].clone());
        }
        i += 1;
    }
    None
}

/// Makes a query.
fn query(selector: &str, attr: &str) -> (made: Query)
    ensures
        made.selector@ == selector@,
        made.attr@ == attr@,
{
    Query { selector: selector.to_owned(), attr: attr.to_owned() }
}

/// The attribute values in an answer; none where the selector was none.
pub fn attrs_in(answer: &Option<Vec<Picked>>) -> (values: Vec<Option<String>>)
    ensures
        option_texts(values@) == (match answer {
            Some(v) => picked_attrs(v@),
            None => Seq::empty(),
        }),
{
    let mut values: Vec<Option<String>> = Vec::new();
    match answer {
        Some(v) => {
            let mut i: usize = 0;
            while i < v.len()
                invariant
                    i <= v.len(),
                    values.len() == i,
                    forall|j: int|
                        0 <= j < i ==> option_text(#[trigger] values@[j]) == option_text(
                            v@[j].attr,
                        ),
                decreases v.len() - i,
            {
                let value = match &v[i].attr {
                    Some(text) => Some(text.clone()),
                    None => None,
                };
                values.push(value);
                i += 1;
            }
            proof {
                assert(option_texts(values@) =~= picked_attrs(v@));
            }
        },
        None => {
            proof {
                assert(option_texts(values@) =~= Seq::<Option<Seq<char>>>::empty());
            }
        },
    }
    values
}

/// The texts in an answer; none where the selector was none.
pub fn texts_in(answer: &Option<Vec<Picked>>) -> (values: Vec<String>)
    ensures
        crate::chars::texts(values@) == (match answer {
            Some(v) => picked_texts(v@),
            None => Seq::empty(),
        }),
{
    let mut values: Vec<String> = Vec::new();
    match answer {
        Some(v) => {
            let mut i: usize = 0;
            while i < v.len()
                invariant
                    i <= v.len(),
                    values.len() == i,
                    forall|j: int| 0 <= j < i ==> (#[trigger] values@[j])@ == v@[j].text@,
                decreases v.len() - i,
            {
                values.push(v[i].text.clone());
                i += 1;
            }
            proof {
                assert(crate::chars::texts(values@) =~= picked_texts(v@));
            }
        },
        None => {
            proof {
                assert(crate::chars::texts(values@) =~= Seq::<Seq<char>>::empty());
            }
        },
    }
    values
}

fn find_attr(
    answer: &Option<Vec<Picked>>,
    Ghost(document): Ghost<Seq<char>>,
    Ghost(selector): Ghost<Seq<char>>,
    Ghost(attr): Ghost<Seq<char>>,
) -> (found: Option<String>)
    requires
        answers(*answer, document, selector, attr),
    ensures
        option_text(found) == filled_attr(document, selector, attr),
{
    match answer {
        Some(_) => pick_first_filled(&attrs_in(answer)),
        None => None,
    }
}

fn find_text(
    answer: &Option<Vec<Picked>>,
    Ghost(document): Ghost<Seq<char>>,
    Ghost(selector): Ghost<Seq<char>>,
    Ghost(attr): Ghost<Seq<char>>,
) -> (found: Option<String>)
    requires
        answers(*answer, document, selector, attr),
    ensures
        option_text(found) == filled_text(document, selector),
{
    match answer {
        Some(_) => pick_first_text(&texts_in(answer)),
        None => None,
    }
}

fn first_or(first: Option<String>, second: Option<String>) -> (found: Option<String>)
    ensures
        option_text(found) == or_else(option_text(first), option_text(second)),
{
    match first {
        Some(value) => Some(value),
        None => second,
    }
}

fn text_or_empty(o: Option<String>) -> (text: String)
    ensures
        text@ == or_empty(option_text(o)),
{
    match o {
        Some(value) => value,
        None => String::new(),
    }
}

/// Picks the URL of a page: the one that the page gives, else the one that
/// was asked for.
pub fn pick_url(given: Option<String>, requested: &str) -> (url: String)
    ensures
        url@ == (match option_text(given) {
            Some(url) => url,
            None => requested@,
        }),
{
    match given {
        Some(url) => url,
        None => requested.to_owned(),
    }
}

/// Makes the record of a page that could not be read.
pub fn empty_page(requested: &str) -> (page: OpenGraph)
    ensures
        page@ == no_metadata(requested@),
{
    OpenGraph {
        description: String::new(),
        site_name: String::new(),
        title: String::new(),
        url: requested.to_owned(),
    }
}

/// Reads the metadata of a page from its text. `requested` is the URL that
/// the page was asked for as.
///
/// Each field is taken from the first place that gives a value that is not
/// empty. Title, site name and description are empty where no place gives
/// them; the URL is `requested` where the page gives none. A text of more
/// than `MAX_PARSED_BYTES` bytes is not parsed: it gives empty fields and
/// `requested`.
pub fn read_open_graph(document: &str, requested: &str) -> (page: OpenGraph)
    ensures
        page@ == open_graph_of(document@, requested@),
{
    if !fits_parser(document) {
        return empty_page(requested);
    }
    let mut queries: Vec<Query> = Vec::new();
    queries.push(query("meta[property=\"og:description\" i]", "content"));
    queries.push(query("meta[property=\"twitter:description\" i]", "content"));
    queries.push(query("meta[name=\"description\" i]", "content"));
    queries.push(query("meta[property=\"og:site_name\" i]", "content"));
    queries.push(query("meta[property=\"og:title\" i]", "content"));
    queries.push(query("meta[property=\"twitter:title\" i]", "content"));
    queries.push(query("title", ""));
    queries.push(query("h1", ""));
    queries.push(query("h2", ""));
    queries.push(query("h3", ""));
    queries.push(query("meta[property=\"og:url\" i]", "content"));
    queries.push(query("link[rel=\"canonical\" i]", "href"));
    let found = select_all(document, &queries);
    let ghost d = document@;
    let ghost c = "content"@;
    let ghost e = ""@;
    let description = first_or(
        first_or(
            find_attr(
                &found[0],
                Ghost(d),
                Ghost("meta[property=\"og:description\" i]"@),
                Ghost(c),
            ),
            find_attr(
                &found[1],
                Ghost(d),
                Ghost("meta[property=\"twitter:description\" i]"@),
                Ghost(c),
            ),
        ),
        find_attr(&found[2], Ghost(d), Ghost("meta[name=\"description\" i]"@), Ghost(c)),
    );
    let description = text_or_empty(description);
    let site_name = text_or_empty(
        find_attr(&found[3], Ghost(d), Ghost("meta[property=\"og:site_name\" i]"@), Ghost(c)),
    );
    let title = first_or(
        find_attr(&found[4], Ghost(d), Ghost("meta[property=\"og:title\" i]"@), Ghost(c)),
        find_attr(&found[5], Ghost(d), Ghost("meta[property=\"twitter:title\" i]"@), Ghost(c)),
    );
    let title = first_or(title, find_text(&found[6], Ghost(d), Ghost("title"@), Ghost(e)));
    let title = first_or(title, find_text(&found[7], Ghost(d), Ghost("h1"@), Ghost(e)));
    let title = first_or(title, find_text(&found[8], Ghost(d), Ghost("h2"@), Ghost(e)));
    let title = first_or(title, find_text(&found[9], Ghost(d), Ghost("h3"@), Ghost(e)));
    let title = text_or_empty(title);
    let url = first_or(
        find_attr(&found[10], Ghost(d), Ghost("meta[property=\"og:url\" i]"@), Ghost(c)),
        find_attr(&found[11], Ghost(d), Ghost("link[rel=\"canonical\" i]"@), Ghost("href"@)),
    );
    let url = pick_url(url, requested);
    OpenGraph { description, site_name, title, url }
}


/// `label`, if `encoding_rs` knows an encoding under it.
pub open spec fn known_label(label: Option<Seq<char>>) -> Option<Seq<char>> {
    if label is Some && encoding_name(label->0) is Some {
        label
    } else {
        None
    }
}

/// The first of `labels` under which `encoding_rs` knows an encoding.
pub open spec fn first_known(labels: Seq<Option<Seq<char>>>) -> Option<Seq<char>>
    decreases labels.len(),
{
    if labels.len() == 0 {
        None
    } else if known_label(labels[0]) is Some {
        labels[0]
    } else {
        first_known(labels.drop_first())
    }
}

/// The charset parameter of an optional content type.
pub open spec fn charset_param(content_type: Option<Seq<char>>) -> Option<Seq<char>> {
    match content_type {
        Some(value) => content_type_charset(value),
        None => None,
    }
}

/// The values of an attribute among the elements that a selector matches;
/// none where the selector is none.
pub open spec fn attr_list(document: Seq<char>, selector: Seq<char>, attr: Seq<char>) -> Seq<
    Option<Seq<char>>,
> {
    match selected_attrs(document, selector, attr) {
        Some(values) => values,
        None => Seq::empty(),
    }
}

/// The charset that a page declares for itself, by a label that
/// `encoding_rs` knows: the one of the first `meta` element with a `charset`
/// that is known; else the one of the first `meta` element that stands for
/// a `Content-Type` header with a known charset. A page whose text is too
/// long to be parsed declares none. `draft` is the page read as UTF-8.
pub open spec fn page_charset(draft: Seq<char>) -> Option<Seq<char>> {
    if is_parseable(draft) {
        or_else(
            first_known(attr_list(draft, "meta[charset]"@, "charset"@)),
            first_known(
                attr_list(draft, "meta[http-equiv=\"Content-Type\" i]"@, "content"@).map_values(
                    |c: Option<Seq<char>>| charset_param(c),
                ),
            ),
        )
    } else {
        None
    }
}

/// The charset that counts for a page, by a label that `encoding_rs` knows:
/// the one of the `Content-Type` header that came with the page, if that is
/// known; else the one that the page declares for itself. A label that is
/// not known gives way to the next place. `draft` is the page read as UTF-8.
pub open spec fn declared_charset(draft: Seq<char>, content_type: Option<Seq<char>>) -> Option<
    Seq<char>,
> {
    or_else(known_label(charset_param(content_type)), page_charset(draft))
}

/// The text of a page: its bytes decoded by the charset that counts for it,
/// and as UTF-8 where none counts. A page of more than `MAX_PAGE_BYTES`
/// bytes is not decoded: its text is empty.
pub open spec fn page_text(body: Seq<u8>, content_type: Option<Seq<char>>) -> Seq<char> {
    if body.len() > MAX_PAGE_BYTES {
        Seq::empty()
    } else {
        let draft = decoded_utf8(body);
        match declared_charset(draft, content_type) {
            Some(label) => if encoding_name(label) == Some("UTF-8"@) {
                draft
            } else {
                match decoded(body, label) {
                    Some(text) => text,
                    None => draft,
                }
            },
            None => draft,
        }
    }
}

/// Tells whether `encoding_rs` knows an encoding under an optional label.
fn is_known(label: &Option<String>) -> (known: bool)
    ensures
        known == (known_label(option_text(*label)) is Some),
{
    match label {
        Some(l) => name_of_encoding(l.as_str()).is_some(),
        None => false,
    }
}

/// Picks the first of `labels` under which an encoding is known.
pub fn pick_first_known(labels: &Vec<Option<String>>) -> (found: Option<String>)
    ensures
        option_text(found) == first_known(option_texts(labels@)),
{
    let ghost all = option_texts(labels@);
    let mut i: usize = 0;
    proof {
        assert(all.skip(0) =~= all);
    }
    while i < labels.len()
        invariant
            i <= labels.len(),
            all == option_texts(labels@),
            first_known(all) == first_known(all.skip(i as int)),
        decreases labels.len() - i,
    {
        proof {
            assert(all.skip(i as int).drop_first() =~= all.skip(i as int + 1));
            assert(all.skip(i as int)[0] == option_text(labels@[i as int]));
        }
        if is_known(&labels[i]) {
            return labels[i].clone();
        }
        i += 1;
    }
    None
}

/// The charset parameter of an optional content type.
fn charset_of(content_type: &Option<String>) -> (label: Option<String>)
    ensures
        option_text(label) == charset_param(option_text(*content_type)),
{
    match content_type {
        Some(value) => charset_of_content_type(value.as_str()),
        None => None,
    }
}

/// The charset parameters of a list of optional content types.
fn charsets_of(contents: &Vec<Option<String>>) -> (labels: Vec<Option<String>>)
    ensures
        option_texts(labels@) == option_texts(contents@).map_values(
            |c: Option<Seq<char>>| charset_param(c),
        ),
{
    let mut labels: Vec<Option<String>> = Vec::new();
    let mut i: usize = 0;
    while i < contents.len()
        invariant
            i <= contents.len(),
            labels.len() == i,
            forall|j: int|
                0 <= j < i ==> option_text(#[trigger] labels@[j]) == charset_param(
                    option_text(contents@[j]),
                ),
        decreases contents.len() - i,
    {
        labels.push(charset_of(&contents[i]));
        i += 1;
    }
    proof {
        assert(option_texts(labels@) =~= option_texts(contents@).map_values(
            |c: Option<Seq<char>>| charset_param(c),
        ));
    }
    labels
}

/// Finds the charset that counts for a page. `draft` is the page read as
/// UTF-8, `content_type` the value of the header that came with it. A draft
/// of more than `MAX_PARSED_BYTES` bytes is not parsed: for it only the
/// header counts.
pub fn find_charset(draft: &str, content_type: &Option<String>) -> (label: Option<String>)
    ensures
        option_text(label) == declared_charset(draft@, option_text(*content_type)),
{
    let by_header = charset_of(content_type);
    if is_known(&by_header) {
        return by_header;
    }
    if !fits_parser(draft) {
        return None;
    }
    let mut queries: Vec<Query> = Vec::new();
    queries.push(query("meta[charset]", "charset"));
    queries.push(query("meta[http-equiv=\"Content-Type\" i]", "content"));
    let found = select_all(draft, &queries);
    let by_meta = pick_first_known(&attrs_in(&found[0]));
    if by_meta.is_some() {
        return by_meta;
    }
    pick_first_known(&charsets_of(&attrs_in(&found[1])))
}

/// Decodes the bytes of a page by the charset that counts for it: the one
/// of the header, else the one that the page declares, else UTF-8. A page of
/// more than `MAX_PAGE_BYTES` bytes is not decoded and gives an empty text;
/// a page whose text as UTF-8 has more than `MAX_PARSED_BYTES` bytes is not
/// searched for a charset of its own.
pub fn decode_page(body: &[u8], content_type: &Option<String>) -> (text: String)
    ensures
        text@ == page_text(body@, option_text(*content_type)),
{
    if body.len() > MAX_PAGE_BYTES {
        return String::new();
    }
    let draft = decode_utf8(body);
    match find_charset(draft.as_str(), content_type) {
        Some(label) => {
            let is_utf8 = match name_of_encoding(label.as_str()) {
                Some(name) => same_text(name.as_str(), "UTF-8"),
                None => false,
            };
            if is_utf8 {
                draft
            } else {
                match decode_with(body, label.as_str()) {
                    Some(text) => text,
                    None => draft,
                }
            }
        },
        None => draft,
    }
}

/// The metadata of a page that was fetched: none for a page of more than
/// `MAX_PAGE_BYTES` bytes, else what its text gives.
pub open spec fn page_metadata(
    body: Seq<u8>,
    content_type: Option<Seq<char>>,
    requested: Seq<char>,
) -> OpenGraphRecord {
    if body.len() > MAX_PAGE_BYTES {
        no_metadata(requested)
    } else {
        open_graph_of(page_text(body, content_type), requested)
    }
}

/// Reads the metadata of a page from the bytes that were fetched, the
/// value of the `Content-Type` header that came with them, and the URL that
/// was asked for. A page of more than `MAX_PAGE_BYTES` bytes, and one whose
/// text has more than `MAX_PARSED_BYTES` bytes, gives empty fields and the
/// URL that was asked for.
pub fn read_page(body: &[u8], content_type: &Option<String>, requested: &str) -> (page: OpenGraph)
    ensures
        page@ == page_metadata(body@, option_text(*content_type), requested@),
        body@.len() > MAX_PAGE_BYTES || !is_parseable(page_text(body@, option_text(*content_type)))
            ==> page@ == no_metadata(requested@),
{
    if body.len() > MAX_PAGE_BYTES {
        return empty_page(requested);
    }
    let text = decode_page(body, content_type);
    read_open_graph(text.as_str(), requested)
}

/// `bytes`, cut to at most `max_size` bytes.
pub open spec fn cut_to(bytes: Seq<u8>, max_size: usize) -> Seq<u8> {
    if bytes.len() <= max_size {
        bytes
    } else {
        bytes.take(max_size as int)
    }
}

/// Adds a chunk that was read to the body of a page, up to `max_size`
/// bytes in all; what goes beyond is dropped. Tells whether more is to be
/// read: it is while the body is short of `max_size`.
pub fn append_chunk(body: &mut Vec<u8>, chunk: &[u8], max_size: usize) -> (more: bool)
    ensures
        final(body)@ == cut_to(cut_to(old(body)@, max_size) + chunk@, max_size),
        more == (final(body)@.len() < max_size),
{
    if body.len() > max_size {
        body.truncate(max_size);
    }
    let ghost start = body@;
    assert(start == cut_to(old(body)@, max_size));
    let mut i: usize = 0;
    while i < chunk.len() && body.len() < max_size
        invariant
            i <= chunk.len(),
            body.len() <= max_size,
            start.len() <= max_size,
            body@ == start + chunk@.take(i as int),
        decreases chunk.len() - i,
    {
        body.push(chunk[i]);
        proof {
            assert(chunk@.take(i as int + 1) =~= chunk@.take(i as int).push(chunk@[i as int]));
            assert(body@ =~= start + chunk@.take(i as int + 1));
        }
        i += 1;
    }
    proof {
        if i == chunk.len() {
            assert(chunk@.take(i as int) =~= chunk@);
        } else {
            assert(body@ =~= (start + chunk@).take(max_size as int));
        }
    }
    body.len() < max_size
}

} // verus!
