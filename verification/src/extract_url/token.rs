//! URL tokens in running text.
//!
//! A token starts wherever the letters `http` stand, in either case, followed
//! by an optional `s` and a colon. It goes on over any slashes and then over
//! a run of at least one segment. A segment is a stretch of characters that
//! are neither white space nor brackets, or an opening bracket, the run that
//! follows it, and the closing bracket of the same kind if that comes next.
//! The four kinds are `()`, `<>`, `[]` and `{}`. A run ends before white
//! space, before a closing bracket that closes nothing in it, and at the end
//! of the text; an opening bracket that is never closed stays in the token.
//! So in `(see http://a.b/x)` the token is `http://a.b/x`, and in
//! `http://a.b/c(d))` it is `http://a.b/c(d)`.

use vstd::prelude::*;
use crate::chars::{from_chars, texts, to_chars};

verus! {

/// White space: the characters with the Unicode property `White_Space`.
pub open spec fn is_whitespace(c: char) -> bool {
    let v = c as u32;
    ||| 0x09 <= v <= 0x0D
    ||| v == 0x20
    ||| v == 0x85
    ||| v == 0xA0
    ||| v == 0x1680
    ||| 0x2000 <= v <= 0x200A
    ||| v == 0x2028
    ||| v == 0x2029
    ||| v == 0x202F
    ||| v == 0x205F
    ||| v == 0x3000
}

/// The bracket that closes `c`, where `c` opens one.
pub open spec fn closer_of(c: char) -> Option<char> {
    if c == '(' {
        Some(')')
    } else if c == '<' {
        Some('>')
    } else if c == '[' {
        Some(']')
    } else if c == '{' {
        Some('}')
    } else {
        None
    }
}

pub open spec fn is_opener(c: char) -> bool {
    closer_of(c) is Some
}

pub open spec fn is_closer(c: char) -> bool {
    c == ')' || c == '>' || c == ']' || c == '}'
}

/// A character that a segment holds outside brackets.
pub open spec fn is_plain(c: char) -> bool {
    !is_opener(c) && !is_closer(c) && !is_whitespace(c)
}

/// The place after the bracket that closes `opener`, if it stands at `j`;
/// else `j`.
pub open spec fn closed_at(s: Seq<char>, j: int, opener: char) -> int {
    if 0 <= j < s.len() && closer_of(opener) == Some(s[j]) {
        j + 1
    } else {
        j
    }
}

/// Where the longest run of segments that starts at `i` ends.
///
/// The test on `after` in the bracket case always holds (see
/// `lemma_run_end_bounds`); it is there to show that the definition ends.
pub open spec fn run_end(s: Seq<char>, i: int) -> int
    decreases s.len() - i,
{
    if i < 0 || i >= s.len() {
        i
    } else if is_opener(s[i]) {
        let inner = run_end(s, i + 1);
        let after = closed_at(s, inner, s[i]);
        if i < after <= s.len() {
            run_end(s, after)
        } else {
            after
        }
    } else if is_plain(s[i]) {
        run_end(s, i + 1)
    } else {
        i
    }
}

/// Where the slashes that start at `i` end.
pub open spec fn slashes_end(s: Seq<char>, i: int) -> int
    decreases s.len() - i,
{
    if 0 <= i < s.len() && s[i] == '/' {
        slashes_end(s, i + 1)
    } else {
        i
    }
}

/// `c` is the ASCII letter `lower`, in either case.
pub open spec fn is_letter(c: char, lower: char, upper: char) -> bool {
    c == lower || c == upper
}

/// The place after `http:` or `https:`, in any case, if that stands at `i`.
pub open spec fn scheme_end(s: Seq<char>, i: int) -> Option<int> {
    if 0 <= i && i + 4 < s.len() && is_letter(s[i], 'h', 'H') && is_letter(s[i + 1], 't', 'T')
        && is_letter(s[i + 2], 't', 'T') && is_letter(s[i + 3], 'p', 'P') {
        if s[i + 4] == ':' {
            Some(i + 5)
        } else if i + 5 < s.len() && is_letter(s[i + 4], 's', 'S') && s[i + 5] == ':' {
            Some(i + 6)
        } else {
            None
        }
    } else {
        None
    }
}

/// Where the token that starts at `i` ends, if one starts there.
pub open spec fn token_end(s: Seq<char>, i: int) -> Option<int> {
    match scheme_end(s, i) {
        None => None,
        Some(p) => {
            let q = slashes_end(s, p);
            let e = run_end(s, q);
            if q < e {
                Some(e)
            } else {
                None
            }
        },
    }
}

/// The tokens of `s` from `i` on, left to right. After a token the search
/// goes on behind it; elsewhere it moves on by one character.
pub open spec fn tokens_from(s: Seq<char>, i: int) -> Seq<Seq<char>>
    decreases s.len() - i,
{
    if i < 0 || i >= s.len() {
        Seq::empty()
    } else {
        match token_end(s, i) {
            Some(e) => if i < e <= s.len() {
                seq![s.subrange(i, e)] + tokens_from(s, e)
            } else {
                Seq::empty()
            },
            None => tokens_from(s, i + 1),
        }
    }
}

/// The URL tokens of `s`, left to right.
pub open spec fn url_tokens(s: Seq<char>) -> Seq<Seq<char>> {
    tokens_from(s, 0)
}

/// What is left of a run when the brackets of `stack` are still open and the
/// innermost run has ended at `j`: each bracket, innermost (last) first, is
/// closed if its closing bracket comes next, and the run around it goes on.
pub open spec fn unwind(s: Seq<char>, stack: Seq<char>, j: int) -> int
    decreases stack.len(),
{
    if stack.len() == 0 {
        j
    } else {
        unwind(s, stack.drop_last(), run_end(s, closed_at(s, j, stack.last())))
    }
}

/// A run ends at or after its start and within the text.
pub proof fn lemma_run_end_bounds(s: Seq<char>, i: int)
    requires
        0 <= i <= s.len(),
    ensures
        i <= run_end(s, i) <= s.len(),
    decreases s.len() - i,
{
    if i < s.len() {
        if is_opener(s[i]) {
            lemma_run_end_bounds(s, i + 1);
            let after = closed_at(s, run_end(s, i + 1), s[i]);
            lemma_run_end_bounds(s, after);
        } else if is_plain(s[i]) {
            lemma_run_end_bounds(s, i + 1);
        }
    }
}

/// Slashes end at or after their start and within the text.
pub proof fn lemma_slashes_end_bounds(s: Seq<char>, i: int)
    requires
        0 <= i <= s.len(),
    ensures
        i <= slashes_end(s, i) <= s.len(),
    decreases s.len() - i,
{
    if i < s.len() && s[i] == '/' {
        lemma_slashes_end_bounds(s, i + 1);
    }
}

/// A token is not empty and lies within the text.
pub proof fn law_token_is_not_empty(s: Seq<char>, i: int)
    requires
        token_end(s, i) is Some,
    ensures
        0 <= i < token_end(s, i)->0 <= s.len(),
{
    let p = scheme_end(s, i)->0;
    lemma_slashes_end_bounds(s, p);
    lemma_run_end_bounds(s, slashes_end(s, p));
}

/// A run stops before white space, before a closing bracket, or at the end
/// of the text.
pub proof fn law_run_stops(s: Seq<char>, i: int)
    requires
        0 <= i <= s.len(),
    ensures
        run_end(s, i) == s.len() || is_whitespace(s[run_end(s, i)]) || is_closer(
            s[run_end(s, i)],
        ),
    decreases s.len() - i,
{
    if i < s.len() {
        if is_opener(s[i]) {
            lemma_run_end_bounds(s, i + 1);
            let after = closed_at(s, run_end(s, i + 1), s[i]);
            law_run_stops(s, after);
        } else if is_plain(s[i]) {
            law_run_stops(s, i + 1);
        }
    }
}

/// No white space stands in a run.
pub proof fn lemma_run_has_no_white_space(s: Seq<char>, i: int)
    requires
        0 <= i <= s.len(),
    ensures
        forall|k: int| i <= k < run_end(s, i) ==> !is_whitespace(#[trigger] s[k]),
    decreases s.len() - i,
{
    if i < s.len() {
        if is_opener(s[i]) {
            lemma_run_end_bounds(s, i + 1);
            lemma_run_has_no_white_space(s, i + 1);
            let inner = run_end(s, i + 1);
            let after = closed_at(s, inner, s[i]);
            lemma_run_end_bounds(s, after);
            lemma_run_has_no_white_space(s, after);
            assert forall|k: int| i <= k < run_end(s, i) implies !is_whitespace(
                #[trigger] s[k],
            ) by {
                if k == i {
                } else if k < inner {
                } else if k < after {
                    assert(k == inner);
                    assert(is_closer(s[k]));
                } else {
                }
            }
        } else if is_plain(s[i]) {
            lemma_run_end_bounds(s, i + 1);
            lemma_run_has_no_white_space(s, i + 1);
        }
    }
}

/// Only slashes stand where slashes are passed over.
pub proof fn lemma_slashes_are_slashes(s: Seq<char>, i: int)
    requires
        0 <= i <= s.len(),
    ensures
        forall|k: int| i <= k < slashes_end(s, i) ==> #[trigger] s[k] == '/',
    decreases s.len() - i,
{
    if i < s.len() && s[i] == '/' {
        lemma_slashes_are_slashes(s, i + 1);
    }
}

/// No white space stands in a token.
pub proof fn law_token_has_no_white_space(s: Seq<char>, i: int)
    requires
        token_end(s, i) is Some,
    ensures
        forall|k: int| i <= k < token_end(s, i)->0 ==> !is_whitespace(#[trigger] s[k]),
{
    let p = scheme_end(s, i)->0;
    let q = slashes_end(s, p);
    lemma_slashes_end_bounds(s, p);
    lemma_slashes_are_slashes(s, p);
    lemma_run_end_bounds(s, q);
    lemma_run_has_no_white_space(s, q);
    assert forall|k: int| i <= k < token_end(s, i)->0 implies !is_whitespace(#[trigger] s[k]) by {
        if k < p {
            assert(k == i || k == i + 1 || k == i + 2 || k == i + 3 || k == i + 4 || k == i + 5);
        } else if k < q {
            assert(s[k] == '/');
        } else {
        }
    }
}

/// Tells whether `c` is white space.
pub fn is_space(c: char) -> (b: bool)
    ensures
        b == is_whitespace(c),
{
    let v: u32 = c as u32;
    (0x09 <= v && v <= 0x0D) || v == 0x20 || v == 0x85 || v == 0xA0 || v == 0x1680 || (0x2000 <= v
        && v <= 0x200A) || v == 0x2028 || v == 0x2029 || v == 0x202F || v == 0x205F || v == 0x3000
}

fn opens(c: char) -> (b: bool)
    ensures
        b == is_opener(c),
{
    c == '(' || c == '<' || c == '[' || c == '{'
}

fn closes(c: char, opener: char) -> (b: bool)
    ensures
        b == (closer_of(opener) == Some(c)),
{
    (opener == '(' && c == ')') || (opener == '<' && c == '>') || (opener == '[' && c == ']') || (
    opener == '{' && c == '}')
}

fn plain(c: char) -> (b: bool)
    ensures
        b == is_plain(c),
{
    !opens(c) && !(c == ')' || c == '>' || c == ']' || c == '}') && !is_space(c)
}

/// Scans the run of segments that starts at `start`. The brackets that are
/// open are kept on a stack, so the depth of nesting costs memory, not calls.
fn scan_run(v: &Vec<char>, start: usize) -> (end: usize)
    requires
        start <= v.len(),
    ensures
        end == run_end(v@, start as int),
        start <= end <= v.len(),
{
    let mut stack: Vec<char> = Vec::new();
    let mut i: usize = start;
    loop
        invariant
            start <= i <= v.len(),
            stack.len() <= i - start,
            run_end(v@, start as int) == unwind(v@, stack@, run_end(v@, i as int)),
        decreases 2 * (v.len() - i) + stack.len(),
    {
        proof {
            lemma_run_end_bounds(v@, i as int);
        }
        if i < v.len() && opens(v[i]) {
            proof {
                lemma_run_end_bounds(v@, i as int + 1);
                assert(stack@.push(v@[i as int]).drop_last() =~= stack@);
            }
            stack.push(v[i]);
            i += 1;
        } else if i < v.len() && plain(v[i]) {
            i += 1;
        } else {
            match stack.pop() {
                None => {
                    proof {
                        lemma_run_end_bounds(v@, start as int);
                    }
                    return i;
                },
                Some(opener) => {
                    if i < v.len() && closes(v[i], opener) {
                        i += 1;
                    }
                },
            }
        }
    }
}

/// Where the token that starts at `i` ends, if one starts there.
fn match_token(v: &Vec<char>, i: usize) -> (end: Option<usize>)
    requires
        i < v.len(),
    ensures
        match end {
            Some(e) => token_end(v@, i as int) == Some(e as int) && i < e <= v.len(),
            None => token_end(v@, i as int) is None,
        },
{
    let n = v.len();
    if n - i < 5 {
        return None;
    }
    if !((v[i] == 'h' || v[i] == 'H') && (v[i + 1] == 't' || v[i + 1] == 'T') && (v[i + 2] == 't'
        || v[i + 2] == 'T') && (v[i + 3] == 'p' || v[i + 3] == 'P')) {
        return None;
    }
    let after_scheme: usize = if v[i + 4] == ':' {
        i + 5
    } else if n - i > 5 && (v[i + 4] == 's' || v[i + 4] == 'S') && v[i + 5] == ':' {
        i + 6
    } else {
        return None;
    };
    let mut p: usize = after_scheme;
    loop
        invariant
            after_scheme <= p <= n,
            n == v.len(),
            slashes_end(v@, after_scheme as int) == slashes_end(v@, p as int),
        ensures
            after_scheme <= p <= n,
            slashes_end(v@, after_scheme as int) == p,
        decreases n - p,
    {
        if p >= n {
            break ;
        }
        if v[p] != '/' {
            break ;
        }
        p += 1;
    }
    let e = scan_run(v, p);
    if p < e {
        Some(e)
    } else {
        None
    }
}

/// Finds the URL tokens of `text`, left to right.
pub fn find_url_tokens(text: &str) -> (tokens: Vec<String>)
    ensures
        texts(tokens@) == url_tokens(text@),
{
    let v = to_chars(text);
    let mut tokens: Vec<String> = Vec::new();
    let mut i: usize = 0;
    while i < v.len()
        invariant
            i <= v.len(),
            v@ == text@,
            texts(tokens@) + tokens_from(v@, i as int) == url_tokens(v@),
        decreases v.len() - i,
    {
        match match_token(&v, i) {
            Some(e) => {
                let token = from_chars(v.as_slice(), i, e);
                proof {
                    assert(texts(tokens@.push(token)) =~= texts(tokens@).push(token@));
                    assert(texts(tokens@).push(token@) + tokens_from(v@, e as int) =~= texts(
                        tokens@,
                    ) + (seq![token@] + tokens_from(v@, e as int)));
                }
                tokens.push(token);
                i = e;
            },
            None => {
                i += 1;
            },
        }
    }
    proof {
        assert(texts(tokens@) + Seq::<Seq<char>>::empty() =~= texts(tokens@));
    }
    tokens
}

} // verus!
