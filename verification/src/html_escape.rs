//! Escaping of text for HTML attribute values and element content.
//!
//! Both functions replace characters one by one and leave every other
//! character, ASCII or not, as it is.

use vstd::prelude::*;

verus! {

/// What one character becomes inside a double-quoted attribute value.
pub open spec fn attr_char(c: char) -> Seq<char> {
    if c == '"' {
        seq!['&', 'q', 'u', 'o', 't', ';']
    } else if c == '&' {
        seq!['&', 'a', 'm', 'p', ';']
    } else {
        seq![c]
    }
}

/// What one character becomes inside element content.
pub open spec fn text_char(c: char) -> Seq<char> {
    if c == '&' {
        seq!['&', 'a', 'm', 'p', ';']
    } else if c == '<' {
        seq!['&', 'l', 't', ';']
    } else if c == '>' {
        seq!['&', 'g', 't', ';']
    } else {
        seq![c]
    }
}

/// The escaped form of `s` for a double-quoted attribute value: the
/// replacements of its characters, in order.
pub open spec fn attr_spec(s: Seq<char>) -> Seq<char>
    decreases s.len(),
{
    if s.len() == 0 {
        Seq::empty()
    } else {
        attr_spec(s.drop_last()) + attr_char(s.last())
    }
}

/// The escaped form of `s` for element content: the replacements of its
/// characters, in order.
pub open spec fn text_spec(s: Seq<char>) -> Seq<char>
    decreases s.len(),
{
    if s.len() == 0 {
        Seq::empty()
    } else {
        text_spec(s.drop_last()) + text_char(s.last())
    }
}

/// Escapes `s` for use inside a double-quoted HTML attribute value:
/// `"` becomes `&quot;` and `&` becomes `&amp;`.
pub fn attr(s: &str) -> (result: String)
    ensures
        result@ == attr_spec(s@),
{
    let mut result = String::new();
    for c in it: s.chars()
        invariant
            it.seq() == s@,
            result@ == attr_spec(it.seq().take(it.index() as int)),
    {
        proof {
            let n = it.index() as int;
            assert(it.seq().take(n + 1).drop_last() == it.seq().take(n));
        }
        if c == '"' {
            result.push('&');
            result.push('q');
            result.push('u');
            result.push('o');
            result.push('t');
            result.push(';');
        } else if c == '&' {
            result.push('&');
            result.push('a');
            result.push('m');
            result.push('p');
            result.push(';');
        } else {
            result.push(c);
        }
    }
    proof {
        assert(s@.take(s@.len() as int) == s@);
    }
    result
}

/// Escapes `s` for use as HTML element content: `&` becomes `&amp;`,
/// `<` becomes `&lt;` and `>` becomes `&gt;`.
pub fn text(s: &str) -> (result: String)
    ensures
        result@ == text_spec(s@),
{
    let mut result = String::new();
    for c in it: s.chars()
        invariant
            it.seq() == s@,
            result@ == text_spec(it.seq().take(it.index() as int)),
    {
        proof {
            let n = it.index() as int;
            assert(it.seq().take(n + 1).drop_last() == it.seq().take(n));
        }
        if c == '&' {
            result.push('&');
            result.push('a');
            result.push('m');
            result.push('p');
            result.push(';');
        } else if c == '<' {
            result.push('&');
            result.push('l');
            result.push('t');
            result.push(';');
        } else if c == '>' {
            result.push('&');
            result.push('g');
            result.push('t');
            result.push(';');
        } else {
            result.push(c);
        }
    }
    proof {
        assert(s@.take(s@.len() as int) == s@);
    }
    result
}

} // verus!
