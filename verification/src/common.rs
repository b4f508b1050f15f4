//! Limits shared by the extraction and rendering code.

use vstd::prelude::*;
use crate::limit::{byte_len, lemma_byte_len_is_encoded_len};

verus! {

/// Longest text, in characters, of one rendered metadata field.
pub const MAX_RESPONSE_TEXT_CHARS: usize = 200;

/// Longest serialized URL, in bytes, that is accepted as a candidate.
pub const SAFE_URL_LENGTH: usize = 2048;

/// Most candidate URLs taken from one message.
pub const MAX_URL_COUNTS_PER_MESSAGE: usize = 10;

/// Longest text, in bytes, that is handed to the HTML parser. The parser's
/// buffers hold up to 2^31 bytes, and a byte of the text can grow to three
/// in them; a longer text is not parsed.
pub const MAX_PARSED_BYTES: usize = 0x2000_0000;

/// A text that is short enough to be parsed as HTML.
pub open spec fn is_parseable(text: Seq<char>) -> bool {
    byte_len(text) <= MAX_PARSED_BYTES
}

/// Tells whether `text` is short enough to be parsed as HTML.
pub fn fits_parser(text: &str) -> (fits: bool)
    ensures
        fits == is_parseable(text@),
{
    proof {
        lemma_byte_len_is_encoded_len(text@);
    }
    text.as_bytes().len() <= MAX_PARSED_BYTES
}

} // verus!
