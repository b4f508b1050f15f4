//! Candidate URLs in parsed markup.
//!
//! A document is read as the sequence of events of a walk through its tree,
//! depth first: each node is opened, its children follow, and it is closed.
//! Text gives the URLs found in it. A link gives the URL it points to, and
//! what it shows is passed over. Quoted, verbatim and deleted content is
//! passed over with everything in it.

use vstd::prelude::*;
use indexmap::IndexSet;
use crate::chars::same_text;
use crate::common::{fits_parser, is_parseable};
use crate::chars::texts;
use crate::extract_url::token::{find_url_tokens, url_tokens};
use crate::extract_url::validate::{validate_url, validated};
use crate::url_set::{
    capped, insert_all_capped, insert_capped, lemma_capped_extend, lemma_capped_push,
    lemma_unique_extend_concat, new_set, set_items, unique, unique_extend, unique_push,
};

verus! {

/// The most nodes that a walk may visit.
pub const MAX_VISITED_NODES: usize = 1048576;

/// A node of a document.
#[derive(Debug)]
pub enum MarkupNode {
    /// Text between tags.
    Text(String),
    /// An element: its name, and the target of its link if it has one.
    Element { name: String, link: Option<String> },
    /// A root, a comment, a doctype or a processing instruction.
    Other,
}

/// One step of the walk through a document.
#[derive(Debug)]
pub enum MarkupEvent {
    /// A node starts. Up to the matching `Close`, its children follow.
    Open(MarkupNode),
    /// The node that was opened last and not closed yet ends.
    Close,
}

/// The model of `MarkupNode`.
pub enum NodeRecord {
    Text(Seq<char>),
    Element { name: Seq<char>, link: Option<Seq<char>> },
    Other,
}

/// The model of `MarkupEvent`.
pub enum EventRecord {
    Open(NodeRecord),
    Close,
}

impl View for MarkupNode {
    type V = NodeRecord;

    open spec fn view(&self) -> NodeRecord {
        match self {
            MarkupNode::Text(t) => NodeRecord::Text(t@),
            MarkupNode::Element { name, link } => NodeRecord::Element {
                name: name@,
                link: match link {
                    Some(l) => Some(l@),
                    None => None,
                },
            },
            MarkupNode::Other => NodeRecord::Other,
        }
    }
}

impl View for MarkupEvent {
    type V = EventRecord;

    open spec fn view(&self) -> EventRecord {
        match self {
            MarkupEvent::Open(node) => EventRecord::Open(node@),
            MarkupEvent::Close => EventRecord::Close,
        }
    }
}

/// The models of a sequence of events.
pub open spec fn records(events: Seq<MarkupEvent>) -> Seq<EventRecord> {
    Seq::new(events.len(), |i: int| events[i]@)
}

/// The candidates among `tokens`, in their order.
pub open spec fn keep_valid(tokens: Seq<Seq<char>>) -> Seq<Seq<char>>
    decreases tokens.len(),
{
    if tokens.len() == 0 {
        Seq::empty()
    } else {
        match validated(tokens.last()) {
            Some(url) => keep_valid(tokens.drop_last()).push(url),
            None => keep_valid(tokens.drop_last()),
        }
    }
}

/// The candidates that stand in `text`, left to right, with repetitions.
pub open spec fn text_candidates(text: Seq<char>) -> Seq<Seq<char>> {
    keep_valid(url_tokens(text))
}

/// An element whose content is quoted, verbatim or deleted.
pub open spec fn is_skipped_element(name: Seq<char>) -> bool {
    name == "code"@ || name == "del"@ || name == "mx-reply"@ || name == "pre"@ || name
        == "blockquote"@
}

/// How far a walk has come.
pub struct Walk {
    /// How many nodes are open that are passed over; zero outside them.
    pub skipping: nat,
    /// How many nodes were visited, not counting those passed over.
    pub visited: nat,
    /// The candidates found, in the order of the document, with repetitions.
    pub found: Seq<Seq<char>>,
}

/// The walk after it has visited `node`.
pub open spec fn enter(w: Walk, node: NodeRecord) -> Walk {
    match node {
        NodeRecord::Text(t) => Walk {
            skipping: 0,
            visited: w.visited + 1,
            found: w.found + text_candidates(t),
        },
        NodeRecord::Element { name, link } => if name == "a"@ && link is Some {
            Walk {
                skipping: 1,
                visited: w.visited + 1,
                found: match validated(link->0) {
                    Some(url) => w.found.push(url),
                    None => w.found,
                },
            }
        } else if is_skipped_element(name) {
            Walk { skipping: 1, visited: w.visited + 1, found: w.found }
        } else {
            Walk { skipping: 0, visited: w.visited + 1, found: w.found }
        },
        NodeRecord::Other => Walk { skipping: 0, visited: w.visited + 1, found: w.found },
    }
}

/// The walk after one more event.
pub open spec fn step(w: Walk, event: EventRecord) -> Walk {
    match event {
        EventRecord::Open(node) => if w.skipping > 0 {
            Walk { skipping: w.skipping + 1, visited: w.visited, found: w.found }
        } else {
            enter(w, node)
        },
        EventRecord::Close => if w.skipping > 0 {
            Walk { skipping: (w.skipping - 1) as nat, visited: w.visited, found: w.found }
        } else {
            w
        },
    }
}

/// The walk after all of `events`.
pub open spec fn walk(events: Seq<EventRecord>) -> Walk
    decreases events.len(),
{
    if events.len() == 0 {
        Walk { skipping: 0, visited: 0, found: Seq::empty() }
    } else {
        step(walk(events.drop_last()), events.last())
    }
}

/// The candidates of a document: the URLs found, each once, where it comes
/// first, and of those the first `MAX_URL_COUNTS_PER_MESSAGE`; `None` for a
/// document in which more than `MAX_VISITED_NODES` nodes are visited.
pub open spec fn markup_candidates(events: Seq<EventRecord>) -> Option<Seq<Seq<char>>> {
    if walk(events).visited <= MAX_VISITED_NODES {
        Some(capped(unique(walk(events).found)))
    } else {
        None
    }
}

/// How many nodes are open after `events`: one more for each `Open`, one
/// less for each `Close`.
pub open spec fn open_nodes(events: Seq<EventRecord>) -> int
    decreases events.len(),
{
    if events.len() == 0 {
        0
    } else {
        match events.last() {
            EventRecord::Open(_) => open_nodes(events.drop_last()) + 1,
            EventRecord::Close => open_nodes(events.drop_last()) - 1,
        }
    }
}

/// No `Close` comes without a node to close.
pub open spec fn well_nested(events: Seq<EventRecord>) -> bool {
    forall|k: int| 0 <= k <= events.len() ==> open_nodes(#[trigger] events.take(k)) >= 0
}

/// The events of the walk through the tree that `scraper` makes of the
/// fragment `html`, where `link_attr` names the attribute that holds an
/// element's link.
pub uninterp spec fn fragment_events(html: Seq<char>, link_attr: Seq<char>) -> Seq<EventRecord>;

/// Calls `scraper::Html::parse_fragment` and copies out the tree, in the
/// order of `ego_tree`'s `traverse`: for each node an `Open` with what
/// `Node`, `Element::name` and `Element::attr` give, then its children, then
/// a `Close`. The result is named `fragment_events`. Of it is claimed what
/// `traverse` shows: each node is closed after it was opened and after all
/// that was opened in it, and at the end every node is closed. A text that
/// is too long for the parser's buffers is left out.
#[verifier::external_body]
fn parse_fragment(html: &str, link_attr: &str) -> (events: Vec<MarkupEvent>)
    requires
        is_parseable(html@),
    ensures
        records(events@) == fragment_events(html@, link_attr@),
        well_nested(records(events@)),
        open_nodes(records(events@)) == 0,
{
    let dom = scraper::Html::parse_fragment(html);
    dom.tree.root().traverse().map(|edge| match edge {
        ego_tree::iter::Edge::Open(n) => MarkupEvent::Open(match n.value() {
            scraper::Node::Text(t) => MarkupNode::Text(t.text.to_string()),
            scraper::Node::Element(e) => MarkupNode::Element {
                name: e.name().to_owned(),
                link: e.attr(link_attr).map(str::to_owned),
            },
            _ => MarkupNode::Other,
        }),
        ego_tree::iter::Edge::Close(_) => MarkupEvent::Close,
    }).collect()
}

/// Finds the candidates that stand in running text, left to right. A
/// candidate that stands there twice is returned twice.
pub fn extract_urls_from_text(text: &str) -> (urls: Vec<String>)
    ensures
        texts(urls@) == text_candidates(text@),
{
    let tokens = find_url_tokens(text);
    let ghost all = texts(tokens@);
    let mut urls: Vec<String> = Vec::new();
    let mut i: usize = 0;
    proof {
        assert(all.take(0) =~= Seq::<Seq<char>>::empty());
        assert(texts(urls@) =~= Seq::<Seq<char>>::empty());
    }
    while i < tokens.len()
        invariant
            i <= tokens.len(),
            all == texts(tokens@),
            texts(urls@) == keep_valid(all.take(i as int)),
        decreases tokens.len() - i,
    {
        proof {
            assert(all.take(i as int + 1).drop_last() =~= all.take(i as int));
            assert(all.take(i as int + 1).last() == tokens@[i as int]@);
        }
        match validate_url(tokens[i].as_str()) {
            Some(url) => {
                proof {
                    assert(texts(urls@.push(url)) =~= texts(urls@).push(url@));
                }
                urls.push(url);
            },
            None => {},
        }
        i += 1;
    }
    proof {
        assert(all.take(tokens.len() as int) =~= all);
    }
    urls
}

/// Tells whether an element's content is passed over.
fn skipped_element(name: &str) -> (b: bool)
    ensures
        b == is_skipped_element(name@),
{
    same_text(name, "code") || same_text(name, "del") || same_text(name, "mx-reply") || same_text(
        name,
        "pre",
    ) || same_text(name, "blockquote")
}

/// Collects the candidates of a document from the events of its walk.
///
/// Each URL found is in the set once, at the place where it came first;
/// after `MAX_URL_COUNTS_PER_MESSAGE` candidates no more are taken. `None`
/// comes back for a document in which more than `MAX_VISITED_NODES` nodes
/// are visited.
pub fn extract_urls_from_markup(events: &Vec<MarkupEvent>) -> (urls: Option<IndexSet<String>>)
    ensures
        match urls {
            Some(set) => markup_candidates(records(events@)) == Some(set_items(set)),
            None => markup_candidates(records(events@)) is None,
        },
{
    let ghost all = records(events@);
    let mut set = new_set();
    let mut skipping: usize = 0;
    let mut visited: usize = 0;
    let mut i: usize = 0;
    proof {
        assert(all.take(0) =~= Seq::<EventRecord>::empty());
    }
    while i < events.len()
        invariant
            i <= events.len(),
            all == records(events@),
            skipping <= i,
            visited <= i,
            skipping == walk(all.take(i as int)).skipping,
            visited == walk(all.take(i as int)).visited,
            set_items(set) == capped(unique(walk(all.take(i as int)).found)),
        decreases events.len() - i,
    {
        let ghost before = walk(all.take(i as int));
        proof {
            assert(all.take(i as int + 1).drop_last() =~= all.take(i as int));
            assert(all.take(i as int + 1).last() == events@[i as int]@);
        }
        match &events[i] {
            MarkupEvent::Close => {
                if skipping > 0 {
                    skipping -= 1;
                }
            },
            MarkupEvent::Open(node) => {
                if skipping > 0 {
                    skipping += 1;
                } else {
                    visited += 1;
                    match node {
                        MarkupNode::Text(t) => {
                            let found = extract_urls_from_text(t.as_str());
                            proof {
                                lemma_unique_extend_concat(
                                    Seq::empty(),
                                    before.found,
                                    texts(found@),
                                );
                                lemma_capped_extend(unique(before.found), texts(found@));
                            }
                            insert_all_capped(&mut set, &found);
                        },
                        MarkupNode::Element { name, link } => {
                            let is_link = same_text(name.as_str(), "a");
                            match link {
                                Some(target) if is_link => {
                                    skipping = 1;
                                    match validate_url(target.as_str()) {
                                        Some(url) => {
                                            proof {
                                                assert(before.found.push(url@).drop_last()
                                                    =~= before.found);
                                                assert(unique(before.found.push(url@))
                                                    == unique_push(unique(before.found), url@));
                                                lemma_capped_push(unique(before.found), url@);
                                            }
                                            insert_capped(&mut set, url);
                                        },
                                        None => {},
                                    }
                                },
                                _ => {
                                    if skipped_element(name.as_str()) {
                                        skipping = 1;
                                    }
                                },
                            }
                        },
                        MarkupNode::Other => {},
                    }
                }
            },
        }
        i += 1;
    }
    proof {
        assert(all.take(events.len() as int) =~= all);
    }
    if visited <= MAX_VISITED_NODES {
        Some(set)
    } else {
        None
    }
}

/// The candidates of a message in HTML: those of the document that the
/// text is read as; `None` for a text that is too long to be parsed, and
/// for a document in which more than `MAX_VISITED_NODES` nodes are visited.
pub open spec fn html_candidates(html: Seq<char>) -> Option<Seq<Seq<char>>> {
    if is_parseable(html) {
        markup_candidates(fragment_events(html, "href"@))
    } else {
        None
    }
}

/// Reads the HTML of a message as the events of the walk through it. The
/// link of an element is its `href`. The events are well nested and leave
/// no node open. `None` comes back exactly for a text of more than
/// `MAX_PARSED_BYTES` bytes.
pub fn read_fragment(html: &str) -> (events: Option<Vec<MarkupEvent>>)
    ensures
        events is Some <==> is_parseable(html@),
        events matches Some(found) ==> {
            &&& records(found@) == fragment_events(html@, "href"@)
            &&& well_nested(records(found@))
            &&& open_nodes(records(found@)) == 0
        },
{
    if fits_parser(html) {
        Some(parse_fragment(html, "href"))
    } else {
        None
    }
}

/// Extracts the candidates of a message from its HTML: the targets of its
/// links and the URLs in its text, without what is quoted, verbatim or
/// deleted.
///
/// Each URL found is in the set once, at the place where it came first;
/// after `MAX_URL_COUNTS_PER_MESSAGE` candidates no more are taken. `None`
/// comes back for a text of more than `MAX_PARSED_BYTES` bytes, and for a
/// document in which more than `MAX_VISITED_NODES` nodes are visited. The
/// events that a text is read as are well nested and leave no node open.
pub fn extract_urls_from_html(html: &str) -> (urls: Option<IndexSet<String>>)
    ensures
        match urls {
            Some(set) => html_candidates(html@) == Some(set_items(set)),
            None => html_candidates(html@) is None,
        },
        urls is Some ==> well_nested(fragment_events(html@, "href"@)) && open_nodes(
            fragment_events(html@, "href"@),
        ) == 0,
{
    match read_fragment(html) {
        Some(events) => extract_urls_from_markup(&events),
        None => None,
    }
}

} // verus!
