//! What holds of every extraction.

use vstd::prelude::*;
use crate::chars::starts_with;
use crate::common::{MAX_URL_COUNTS_PER_MESSAGE, SAFE_URL_LENGTH};
use crate::extract_url::markup::{
    enter, keep_valid, markup_candidates, open_nodes, step, text_candidates, walk, well_nested,
    EventRecord, NodeRecord,
};
use crate::extract_url::plain::body_candidates;
use crate::extract_url::validate::{
    accepts, is_candidate, is_mention_domain, parsed_url, validated, without_fragment,
    HostRecord, UrlRecord,
};
use crate::limit::{byte_len, lemma_byte_len_take};
use crate::url_set::{capped, unique, unique_extend, unique_push};

verus! {

/// Every item of `items` is a candidate.
pub open spec fn all_candidates(items: Seq<Seq<char>>) -> bool {
    forall|i: int| 0 <= i < items.len() ==> is_candidate(#[trigger] items[i])
}

/// A URL whose host is the domain of mention links is never validated.
pub proof fn law_mention_links_are_rejected(input: Seq<char>)
    requires
        parsed_url(input) matches Some(url) && url.host matches HostRecord::Domain(d)
            && is_mention_domain(d),
    ensures
        validated(input) is None,
{
}

/// A candidate was made of a text that parses to an accepted URL: one with
/// the scheme `http` or `https` and a host that is not the domain of
/// mention links. It is that URL's serialization without the fragment, and
/// it is no longer than `SAFE_URL_LENGTH` bytes.
pub proof fn law_candidates_come_from_accepted_urls(url: Seq<char>)
    requires
        is_candidate(url),
    ensures
        byte_len(url) <= SAFE_URL_LENGTH,
        exists|input: Seq<char>|
            {
                &&& #[trigger] parsed_url(input) is Some
                &&& accepts(parsed_url(input)->0)
                &&& !(parsed_url(input)->0.host matches HostRecord::Domain(d) && is_mention_domain(
                    d,
                ))
                &&& without_fragment(input) == Some(url)
            },
{
    let input = choose|input: Seq<char>| #[trigger] validated(input) == Some(url);
    assert(parsed_url(input) is Some);
    let whole = parsed_url(input)->0.href;
    assert(whole.take(url.len() as int) == url);
    lemma_byte_len_take(whole, url.len() as int);
}

/// What validation keeps are candidates.
pub proof fn lemma_keep_valid_candidates(tokens: Seq<Seq<char>>)
    ensures
        all_candidates(keep_valid(tokens)),
    decreases tokens.len(),
{
    if tokens.len() > 0 {
        lemma_keep_valid_candidates(tokens.drop_last());
    }
}

/// What a walk finds are candidates.
pub proof fn lemma_walk_finds_candidates(events: Seq<EventRecord>)
    ensures
        all_candidates(walk(events).found),
    decreases events.len(),
{
    if events.len() > 0 {
        lemma_walk_finds_candidates(events.drop_last());
        let before = walk(events.drop_last());
        match events.last() {
            EventRecord::Open(NodeRecord::Text(t)) => {
                lemma_keep_valid_candidates(crate::extract_url::token::url_tokens(t));
            },
            _ => {},
        }
    }
}

/// `unique_extend` holds what `acc` and `items` hold, and nothing twice
/// that `acc` does not hold twice.
pub proof fn lemma_unique_extend_members(acc: Seq<Seq<char>>, items: Seq<Seq<char>>)
    requires
        acc.no_duplicates(),
    ensures
        unique_extend(acc, items).no_duplicates(),
        forall|x: Seq<char>| #[trigger]
            unique_extend(acc, items).contains(x) <==> acc.contains(x) || items.contains(x),
    decreases items.len(),
{
    let out = unique_extend(acc, items);
    if items.len() == 0 {
    } else {
        let front = items.drop_last();
        let last = items.last();
        lemma_unique_extend_members(acc, front);
        let mid = unique_extend(acc, front);
        assert forall|x: Seq<char>| #[trigger]
            out.contains(x) <==> acc.contains(x) || items.contains(x) by {
            if items.contains(x) {
                let k = choose|k: int| 0 <= k < items.len() && items[k] == x;
                if k < front.len() {
                    assert(front[k] == x);
                    assert(front.contains(x));
                } else {
                    assert(x == last);
                }
            }
            if front.contains(x) {
                let k = choose|k: int| 0 <= k < front.len() && front[k] == x;
                assert(items[k] == x);
            }
            assert(items[items.len() - 1] == last);
            if mid.contains(last) {
            } else {
                assert(mid.push(last)[mid.len() as int] == last);
                if mid.contains(x) {
                    let k = choose|k: int| 0 <= k < mid.len() && mid[k] == x;
                    assert(mid.push(last)[k] == x);
                }
            }
        }
    }
}

/// `a` stands in `items` before any occurrence of `b`.
pub open spec fn comes_first(items: Seq<Seq<char>>, a: Seq<char>, b: Seq<char>) -> bool {
    exists|k: int|
        {
            &&& 0 <= k < items.len()
            &&& #[trigger] items[k] == a
            &&& forall|m: int| 0 <= m <= k ==> #[trigger] items[m] != b
        }
}

/// Extraction without repetitions: `unique(items)` holds each item of
/// `items` exactly once, and in the order in which the items come first in
/// `items`: of two of its items, the earlier one stands in `items` before
/// any occurrence of the later one.
pub proof fn law_unique_keeps_first_occurrences(items: Seq<Seq<char>>)
    ensures
        unique(items).no_duplicates(),
        forall|x: Seq<char>| #[trigger] unique(items).contains(x) <==> items.contains(x),
        forall|i: int, j: int|
            0 <= i < j < unique(items).len() ==> #[trigger] comes_first(
                items,
                unique(items)[i],
                unique(items)[j],
            ),
    decreases items.len(),
{
    let out = unique(items);
    lemma_unique_extend_members(Seq::empty(), items);
    if items.len() > 0 {
        let front = items.drop_last();
        let last = items.last();
        let mid = unique(front);
        law_unique_keeps_first_occurrences(front);
        lemma_unique_extend_members(Seq::empty(), front);
        assert forall|i: int, j: int| 0 <= i < j < out.len() implies #[trigger] comes_first(
            items,
            out[i],
            out[j],
        ) by {
            if j < mid.len() {
                assert(out[i] == mid[i] && out[j] == mid[j]);
                assert(comes_first(front, mid[i], mid[j]));
                let k = choose|k: int|
                    {
                        &&& 0 <= k < front.len()
                        &&& #[trigger] front[k] == mid[i]
                        &&& forall|m: int| 0 <= m <= k ==> #[trigger] front[m] != mid[j]
                    };
                assert(items[k] == out[i]);
                assert forall|m: int| 0 <= m <= k implies #[trigger] items[m] != out[j] by {
                    assert(items[m] == front[m]);
                }
            } else {
                assert(!mid.contains(last));
                assert(out[j] == last);
                assert(out[i] == mid[i]);
                assert(mid.contains(mid[i]));
                assert(front.contains(mid[i]));
                let k = choose|k: int| 0 <= k < front.len() && front[k] == mid[i];
                assert(items[k] == out[i]);
                assert forall|m: int| 0 <= m <= k implies #[trigger] items[m] != out[j] by {
                    assert(items[m] == front[m]);
                    if front[m] == last {
                        assert(front.contains(last));
                    }
                }
            }
        }
    }
}

/// Every URL that is extracted from markup is a candidate, wherever it
/// stood: none has the domain of mention links for its host.
pub proof fn law_markup_gives_candidates(events: Seq<EventRecord>)
    requires
        markup_candidates(events) is Some,
    ensures
        all_candidates(markup_candidates(events)->0),
{
    let found = walk(events).found;
    lemma_walk_finds_candidates(events);
    lemma_unique_extend_members(Seq::empty(), found);
    let all = unique(found);
    let out = capped(all);
    assert forall|i: int| 0 <= i < out.len() implies is_candidate(#[trigger] out[i]) by {
        assert(out[i] == all[i]);
        assert(all.contains(all[i]));
        assert(found.contains(all[i]));
        let k = choose|k: int| 0 <= k < found.len() && found[k] == all[i];
        assert(is_candidate(found[k]));
    }
}

/// Extraction gives no more than `MAX_URL_COUNTS_PER_MESSAGE` candidates:
/// the first of the URLs found, each counted once, in their order.
pub proof fn law_extraction_is_capped(events: Seq<EventRecord>, body: Seq<char>)
    ensures
        markup_candidates(events) is Some ==> markup_candidates(events)->0.len()
            <= MAX_URL_COUNTS_PER_MESSAGE,
        markup_candidates(events) is Some ==> forall|i: int|
            0 <= i < markup_candidates(events)->0.len() ==> #[trigger] markup_candidates(
                events,
            )->0[i] == unique(walk(events).found)[i],
        markup_candidates(events) is Some && unique(walk(events).found).len()
            >= MAX_URL_COUNTS_PER_MESSAGE ==> markup_candidates(events)->0.len()
            == MAX_URL_COUNTS_PER_MESSAGE,
        body_candidates(body).len() <= MAX_URL_COUNTS_PER_MESSAGE,
{
}

/// Every URL that is extracted from a plain-text body is a candidate.
pub proof fn law_plain_body_gives_candidates(body: Seq<char>)
    ensures
        all_candidates(body_candidates(body)),
{
    let rest = body.skip(crate::extract_url::plain::quote_end(body, 0));
    let found = text_candidates(rest);
    lemma_keep_valid_candidates(crate::extract_url::token::url_tokens(rest));
    lemma_unique_extend_members(Seq::empty(), found);
    let all = unique(found);
    let out = capped(all);
    assert forall|i: int| 0 <= i < out.len() implies is_candidate(#[trigger] out[i]) by {
        assert(out[i] == all[i]);
        assert(all.contains(all[i]));
        assert(found.contains(all[i]));
        let k = choose|k: int| 0 <= k < found.len() && found[k] == all[i];
        assert(is_candidate(found[k]));
    }
}

/// Validating a candidate again gives the same candidate, where the `url`
/// crate reads the candidate as it wrote it: with the scheme and the host
/// of the URL it was made of, and with nothing to take away.
pub proof fn lemma_validated_again(input: Seq<char>, url: Seq<char>)
    requires
        validated(input) == Some(url),
        parsed_url(url) == Some(
            UrlRecord {
                href: url,
                scheme: parsed_url(input)->0.scheme,
                host: parsed_url(input)->0.host,
            },
        ),
        without_fragment(url) == Some(url),
    ensures
        validated(url) == validated(input),
{
    assert(is_candidate(url));
    law_candidates_come_from_accepted_urls(url);
    assert(url.take(url.len() as int) =~= url);
}


/// What is passed over lies inside open nodes: in a walk through events
/// that are well nested, no more nodes are passed over than are open, and
/// no more were visited than were opened. So nothing is passed over any
/// more once every node is closed.
pub proof fn law_passing_over_ends_with_the_node(events: Seq<EventRecord>)
    requires
        well_nested(events),
    ensures
        walk(events).skipping <= open_nodes(events),
        walk(events).visited <= events.len(),
        open_nodes(events) == 0 ==> walk(events).skipping == 0,
    decreases events.len(),
{
    if events.len() > 0 {
        let front = events.drop_last();
        assert forall|k: int| 0 <= k <= front.len() implies open_nodes(
            #[trigger] front.take(k),
        ) >= 0 by {
            assert(front.take(k) =~= events.take(k));
        }
        law_passing_over_ends_with_the_node(front);
        assert(events.take(events.len() as int) =~= events);
        assert(events.take(front.len() as int) =~= front);
    }
}

} // verus!
