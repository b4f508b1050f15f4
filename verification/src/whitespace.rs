//! Tidying of the white space in a metadata field.
//!
//! Each run of HTML white space (tab, line feed, form feed, carriage return,
//! space) becomes one space; then white space at both ends is taken away.

use vstd::prelude::*;
use crate::chars::{from_chars, to_chars};
use crate::extract_url::token::{is_space, is_whitespace};

verus! {

/// White space as HTML counts it.
pub open spec fn is_html_space(c: char) -> bool {
    c == '\t' || c == '\n' || c == '\x0c' || c == '\r' || c == ' '
}

/// `s` with each run of HTML white space replaced by one space.
pub open spec fn collapse_runs(s: Seq<char>) -> Seq<char>
    decreases s.len(),
{
    if s.len() == 0 {
        Seq::empty()
    } else if !is_html_space(s.last()) {
        collapse_runs(s.drop_last()).push(s.last())
    } else if s.len() >= 2 && is_html_space(s[s.len() - 2]) {
        collapse_runs(s.drop_last())
    } else {
        collapse_runs(s.drop_last()).push(' ')
    }
}

/// The first place at or after `i` that holds no white space.
pub open spec fn trim_start(s: Seq<char>, i: int) -> int
    decreases s.len() - i,
{
    if 0 <= i < s.len() && is_whitespace(s[i]) {
        trim_start(s, i + 1)
    } else {
        i
    }
}

/// The last place at or before `j` with no white space before it.
pub open spec fn trim_end(s: Seq<char>, j: int) -> int
    decreases j,
{
    if 0 < j <= s.len() && is_whitespace(s[j - 1]) {
        trim_end(s, j - 1)
    } else {
        j
    }
}

/// `s` without the white space at its ends.
pub open spec fn trimmed(s: Seq<char>) -> Seq<char> {
    let from = trim_start(s, 0);
    let to = trim_end(s, s.len() as int);
    if from <= to {
        s.subrange(from, to)
    } else {
        Seq::empty()
    }
}

/// What `collapse_whitespace` returns.
pub open spec fn collapse_whitespace_spec(s: Seq<char>) -> Seq<char> {
    trimmed(collapse_runs(s))
}

fn html_space(c: char) -> (b: bool)
    ensures
        b == is_html_space(c),
{
    c == '\t' || c == '\n' || c == '\x0c' || c == '\r' || c == ' '
}

/// Replaces each run of HTML white space in `s` by one space and takes away
/// the white space at both ends.
pub fn collapse_whitespace(s: &str) -> (result: String)
    ensures
        result@ == collapse_whitespace_spec(s@),
{
    let v = to_chars(s);
    let mut out: Vec<char> = Vec::new();
    let mut i: usize = 0;
    proof {
        assert(v@.take(0) =~= Seq::<char>::empty());
    }
    while i < v.len()
        invariant
            i <= v.len(),
            out@ == collapse_runs(v@.take(i as int)),
            out.len() <= i,
        decreases v.len() - i,
    {
        proof {
            assert(v@.take(i as int + 1).drop_last() =~= v@.take(i as int));
        }
        if !html_space(v[i]) {
            out.push(v[i]);
        } else if !(i > 0 && html_space(v[i - 1])) {
            out.push(' ');
        }
        i += 1;
    }
    proof {
        assert(v@.take(v.len() as int) =~= v@);
    }
    let mut from: usize = 0;
    while from < out.len() && is_space(out[from])
        invariant
            from <= out.len(),
            trim_start(out@, 0) == trim_start(out@, from as int),
        decreases out.len() - from,
    {
        from += 1;
    }
    let mut to: usize = out.len();
    while to > 0 && is_space(out[to - 1])
        invariant
            to <= out.len(),
            trim_end(out@, out.len() as int) == trim_end(out@, to as int),
        decreases to,
    {
        to -= 1;
    }
    if from <= to {
        from_chars(out.as_slice(), from, to)
    } else {
        String::new()
    }
}

} // verus!
