//! Candidate URLs in a plain-text message body.
//!
//! A reply starts with the lines of the message it answers, each marked with
//! `> `. Those leading lines are passed over; the rest is searched as
//! running text.

use vstd::prelude::*;
use indexmap::IndexSet;
use crate::chars::{from_chars, has_prefix, starts_with, to_chars};
use crate::extract_url::markup::{extract_urls_from_text, text_candidates};
use crate::url_set::{
    capped, insert_all_capped, lemma_capped_extend, new_set, set_items, unique,
};

verus! {

/// The place after the line break that ends the line of `i`, or the end of
/// the text where no line break follows.
pub open spec fn line_end(s: Seq<char>, i: int) -> int
    decreases s.len() - i,
{
    if i < 0 || i >= s.len() {
        i
    } else if s[i] == '\n' {
        i + 1
    } else {
        line_end(s, i + 1)
    }
}

/// Where the quoted lines end that start at `i`, the start of a line.
///
/// The test on the end of the line always holds; it is there to show that
/// the definition ends.
pub open spec fn quote_end(s: Seq<char>, i: int) -> int
    decreases s.len() - i,
{
    if 0 <= i < s.len() && starts_with(s.skip(i), "> "@) {
        let e = line_end(s, i);
        if i < e <= s.len() {
            quote_end(s, e)
        } else {
            e
        }
    } else {
        i
    }
}

/// The candidates of a plain-text body: the URLs found behind the quoted
/// lines, each once, where it comes first, and of those the first
/// `MAX_URL_COUNTS_PER_MESSAGE`.
pub open spec fn body_candidates(body: Seq<char>) -> Seq<Seq<char>> {
    capped(unique(text_candidates(body.skip(quote_end(body, 0)))))
}

/// A line ends behind its start and within the text.
pub proof fn lemma_line_end_bounds(s: Seq<char>, i: int)
    requires
        0 <= i < s.len(),
    ensures
        i < line_end(s, i) <= s.len(),
    decreases s.len() - i,
{
    if s[i] != '\n' {
        if i + 1 < s.len() {
            lemma_line_end_bounds(s, i + 1);
        } else {
            assert(line_end(s, i + 1) == i + 1);
        }
    }
}

/// Extracts the candidates of a message from its plain-text body, without
/// the quoted lines at its start.
///
/// Each URL found is in the set once, at the place where it came first;
/// after `MAX_URL_COUNTS_PER_MESSAGE` candidates no more are taken.
pub fn extract_urls_from_plain(body: &str) -> (urls: IndexSet<String>)
    ensures
        set_items(urls) == body_candidates(body@),
{
    let v = to_chars(body);
    let mut i: usize = 0;
    loop
        invariant
            i <= v.len(),
            quote_end(v@, 0) == quote_end(v@, i as int),
        ensures
            i <= v.len(),
            quote_end(v@, 0) == i,
        decreases v.len() - i,
    {
        if i >= v.len() {
            break ;
        }
        if !has_prefix(&v, i, "> ") {
            break ;
        }
        let ghost start = i as int;
        proof {
            lemma_line_end_bounds(v@, start);
        }
        loop
            invariant_except_break
                start <= i <= v.len(),
                line_end(v@, start) == line_end(v@, i as int),
            invariant
                start < v.len(),
            ensures
                start < i <= v.len(),
                line_end(v@, start) == i,
            decreases v.len() - i,
        {
            if i >= v.len() {
                break ;
            }
            i += 1;
            if v[i - 1] == '\n' {
                break ;
            }
        }
    }
    let rest = from_chars(v.as_slice(), i, v.len());
    let found = extract_urls_from_text(rest.as_str());
    let mut urls = new_set();
    proof {
        lemma_capped_extend(Seq::empty(), crate::chars::texts(found@));
    }
    insert_all_capped(&mut urls, &found);
    urls
}

} // verus!
