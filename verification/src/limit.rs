//! Shortening of text to a budget of characters or of UTF-8 bytes.
//!
//! A text that is over its budget is cut at a character and ends in an
//! ellipsis; the ellipsis is not doubled where the cut already ends in one.

use vstd::prelude::*;
use vstd::utf8::*;
use crate::chars::{from_chars, to_chars};

verus! {

/// The character that marks a shortened text.
pub const ELLIPSIS: char = '\u{2026}';

/// `p`, ending in an ellipsis: one is appended unless `p` ends in one.
pub open spec fn with_ellipsis(p: Seq<char>) -> Seq<char> {
    if p.len() > 0 && p.last() == ELLIPSIS {
        p
    } else {
        p.push(ELLIPSIS)
    }
}

/// How many bytes the UTF-8 encoding of `c` takes.
pub open spec fn char_width(c: char) -> nat {
    let v = c as u32;
    if v <= 0x7F {
        1
    } else if v <= 0x7FF {
        2
    } else if v <= 0xFFFF {
        3
    } else {
        4
    }
}

/// How many bytes the UTF-8 encoding of `s` takes.
pub open spec fn byte_len(s: Seq<char>) -> nat
    decreases s.len(),
{
    if s.len() == 0 {
        0
    } else {
        char_width(s[0]) + byte_len(s.drop_first())
    }
}

/// How many leading characters of `s` fit into `limit` bytes.
pub open spec fn fitting_chars(s: Seq<char>, limit: int) -> nat
    decreases s.len(),
{
    if s.len() == 0 || char_width(s[0]) > limit {
        0
    } else {
        1 + fitting_chars(s.drop_first(), limit - char_width(s[0]))
    }
}

/// What `length_in_chars` returns.
pub open spec fn length_in_chars_spec(s: Seq<char>, max_chars: nat) -> Seq<char> {
    if s.len() <= max_chars {
        s
    } else if max_chars == 0 {
        with_ellipsis(Seq::empty())
    } else {
        with_ellipsis(s.take(max_chars - 1))
    }
}

/// What `length_in_bytes` returns.
pub open spec fn length_in_bytes_spec(s: Seq<char>, max_bytes: nat) -> Seq<char> {
    if byte_len(s) <= max_bytes {
        s
    } else {
        with_ellipsis(s.take(fitting_chars(s, max_bytes - 4) as int))
    }
}

/// `byte_len` is the length of the UTF-8 encoding.
pub proof fn lemma_byte_len_is_encoded_len(s: Seq<char>)
    ensures
        byte_len(s) == encode_utf8(s).len(),
    decreases s.len(),
{
    if s.len() > 0 {
        lemma_byte_len_is_encoded_len(s.drop_first());
        char_is_scalar(s[0]);
    }
}

/// The bytes of a prefix that is longer by one character.
pub proof fn lemma_byte_len_take_next(s: Seq<char>, k: int)
    requires
        0 <= k < s.len(),
    ensures
        byte_len(s.take(k + 1)) == byte_len(s.take(k)) + char_width(s[k]),
    decreases k,
{
    if k == 0 {
        assert(s.take(1).drop_first() =~= Seq::<char>::empty());
        assert(byte_len(s.take(1).drop_first()) == 0);
        assert(byte_len(s.take(0)) == 0);
    } else {
        let t = s.drop_first();
        lemma_byte_len_take_next(t, k - 1);
        assert(s.take(k + 1).drop_first() =~= t.take(k));
        assert(s.take(k).drop_first() =~= t.take(k - 1));
    }
}

/// A prefix takes no more bytes than the whole.
pub proof fn lemma_byte_len_take(s: Seq<char>, k: int)
    requires
        0 <= k <= s.len(),
    ensures
        byte_len(s.take(k)) <= byte_len(s),
    decreases s.len() - k,
{
    if k == s.len() {
        assert(s.take(k) =~= s);
    } else {
        lemma_byte_len_take_next(s, k);
        lemma_byte_len_take(s, k + 1);
    }
}

/// `fitting_chars` is the longest prefix within the limit: the prefix fits,
/// and with one more character it would not.
pub proof fn law_fitting_chars_is_longest(s: Seq<char>, limit: int)
    requires
        0 <= limit,
    ensures
        fitting_chars(s, limit) <= s.len(),
        byte_len(s.take(fitting_chars(s, limit) as int)) <= limit,
        fitting_chars(s, limit) < s.len() ==> byte_len(
            s.take(fitting_chars(s, limit) as int + 1),
        ) > limit,
    decreases s.len(),
{
    if s.len() == 0 {
        assert(s.take(0) =~= s);
    } else if char_width(s[0]) > limit {
        assert(byte_len(s.take(0)) == 0);
        lemma_byte_len_take_next(s, 0);
    } else {
        let t = s.drop_first();
        let rest = limit - char_width(s[0]);
        law_fitting_chars_is_longest(t, rest);
        let k = fitting_chars(t, rest) as int;
        assert(s.take(k + 1).drop_first() =~= t.take(k));
        if k < t.len() {
            assert(s.take(k + 2).drop_first() =~= t.take(k + 1));
        }
    }
}

/// A text over its budget of characters comes back cut at a character and
/// ending in one ellipsis: all before the ellipsis is the start of the text,
/// the result is within the budget (one character, for a budget of zero),
/// and no second ellipsis stands before the last. Left out are the texts
/// whose two characters before the cut are ellipses already: those keep
/// both.
pub proof fn law_cut_ends_in_one_ellipsis(s: Seq<char>, max_chars: nat)
    requires
        s.len() > max_chars,
        !(max_chars >= 3 && s[max_chars - 2] == ELLIPSIS && s[max_chars - 3] == ELLIPSIS),
    ensures
        ({
            let r = length_in_chars_spec(s, max_chars);
            &&& r.len() >= 1
            &&& r.last() == ELLIPSIS
            &&& r.len() >= 2 ==> r[r.len() - 2] != ELLIPSIS
            &&& r.len() <= max_chars || r.len() == 1
            &&& r.drop_last() == s.take(r.len() - 1)
        }),
{
    let r = length_in_chars_spec(s, max_chars);
    if max_chars == 0 {
        assert(r.drop_last() =~= s.take(0));
    } else {
        let p = s.take(max_chars - 1);
        if p.len() > 0 && p.last() == ELLIPSIS {
            assert(r == p);
            assert(r.drop_last() =~= s.take(r.len() - 1));
        } else {
            assert(r == p.push(ELLIPSIS));
            assert(r.drop_last() =~= s.take(r.len() - 1));
        }
    }
}

/// The UTF-8 width of `c`, in bytes.
fn width_of(c: char) -> (w: usize)
    ensures
        w == char_width(c),
        1 <= w <= 4,
{
    let v: u32 = c as u32;
    if v <= 0x7F {
        1
    } else if v <= 0x7FF {
        2
    } else if v <= 0xFFFF {
        3
    } else {
        4
    }
}

/// How many leading characters of `v` fit into `limit` bytes.
fn fitting_prefix(v: &Vec<char>, limit: usize) -> (k: usize)
    ensures
        k == fitting_chars(v@, limit as int),
        k <= v.len(),
{
    let mut k: usize = 0;
    let mut room: usize = limit;
    proof {
        assert(v@.skip(0) =~= v@);
    }
    while k < v.len()
        invariant
            k <= v.len(),
            room <= limit,
            fitting_chars(v@, limit as int) == k + fitting_chars(v@.skip(k as int), room as int),
        decreases v.len() - k,
    {
        let w = width_of(v[k]);
        if w > room {
            return k;
        }
        proof {
            assert(v@.skip(k as int).drop_first() =~= v@.skip(k as int + 1));
        }
        room -= w;
        k += 1;
    }
    k
}

/// `v[..keep]` as a string that ends in an ellipsis.
fn cut_with_ellipsis(v: &Vec<char>, keep: usize) -> (result: String)
    requires
        keep <= v.len(),
    ensures
        result@ == with_ellipsis(v@.take(keep as int)),
{
    let mut result = from_chars(v.as_slice(), 0, keep);
    if !(keep > 0 && v[keep - 1] == ELLIPSIS) {
        result.push(ELLIPSIS);
    }
    result
}

/// Shortens `s` to at most `max_bytes` bytes of UTF-8.
///
/// A text within the budget comes back unchanged. A longer one is cut after
/// the last character that ends within `max_bytes - 4` bytes, and ends in
/// an ellipsis: three bytes, appended unless the cut already ends in one.
/// A budget under four bytes leaves no room for a cut, so a text over such
/// a budget is not accepted.
pub fn length_in_bytes(s: String, max_bytes: usize) -> (result: String)
    requires
        byte_len(s@) <= max_bytes || max_bytes > 3,
    ensures
        result@ == length_in_bytes_spec(s@, max_bytes as nat),
{
    proof {
        lemma_byte_len_is_encoded_len(s@);
    }
    if s.as_str().as_bytes().len() <= max_bytes {
        return s;
    }
    let v = to_chars(s.as_str());
    let keep = fitting_prefix(&v, max_bytes - 4);
    cut_with_ellipsis(&v, keep)
}

/// Shortens `s` to at most `max_chars` characters.
///
/// A text within the budget comes back unchanged. A longer one keeps its
/// first `max_chars - 1` characters (none for a budget of zero) and ends in
/// an ellipsis, appended unless the cut already ends in one.
pub fn length_in_chars(s: String, max_chars: usize) -> (result: String)
    ensures
        result@ == length_in_chars_spec(s@, max_chars as nat),
{
    let v = to_chars(s.as_str());
    if v.len() <= max_chars {
        return s;
    }
    let keep = if max_chars == 0 {
        0
    } else {
        max_chars - 1
    };
    proof {
        assert(v@.take(0) =~= Seq::<char>::empty());
    }
    cut_with_ellipsis(&v, keep)
}

} // verus!
