//! Candidate URLs of a message.

pub mod laws;
pub mod markup;
pub mod plain;
pub mod token;
pub mod validate;

pub use markup::{
    extract_urls_from_html, extract_urls_from_markup, extract_urls_from_text, read_fragment,
};
pub use plain::extract_urls_from_plain;
pub use validate::validate_url;
