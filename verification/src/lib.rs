//! Link previews for chat messages: finding candidate URLs in message text
//! and markup, and rendering page metadata as a plain and a rich notice.

pub mod common;
pub mod config;
pub mod chars;
pub mod extract_url;
pub mod html_escape;
pub mod limit;
pub mod linkage;
pub mod metadata;
pub mod render;
pub mod rewrite;
pub mod url_set;
pub mod whitespace;
pub mod worker;
