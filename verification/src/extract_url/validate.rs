//! Which URLs are candidates for a preview.
//!
//! A candidate is an absolute `http` or `https` URL with a host, no longer
//! than the safe length, whose host is not the domain of user-mention links.
//! It is kept without its fragment. Parsing and serializing are the `url`
//! crate's; what is accepted is decided here.

use vstd::prelude::*;
use crate::chars::{
    eq_ignoring_ascii_case, option_text, same_text, same_text_ignoring_ascii_case, starts_with,
};
use crate::common::SAFE_URL_LENGTH;
use crate::limit::{byte_len, lemma_byte_len_is_encoded_len};

verus! {

/// The host of a parsed URL.
#[derive(Debug)]
pub enum UrlHost {
    /// The URL has no host.
    Missing,
    /// A domain name, as the URL serializes it.
    Domain(String),
    /// An IPv4 address.
    Ipv4,
    /// An IPv6 address.
    Ipv6,
}

/// What is read of a URL after parsing.
#[derive(Debug)]
pub struct ParsedUrl {
    /// The serialization of the whole URL.
    pub href: String,
    /// The scheme, in lower case and without the colon.
    pub scheme: String,
    pub host: UrlHost,
}

/// The model of `UrlHost`.
pub enum HostRecord {
    Missing,
    Domain(Seq<char>),
    Ipv4,
    Ipv6,
}

/// The model of `ParsedUrl`.
pub struct UrlRecord {
    pub href: Seq<char>,
    pub scheme: Seq<char>,
    pub host: HostRecord,
}

impl View for UrlHost {
    type V = HostRecord;

    open spec fn view(&self) -> HostRecord {
        match self {
            UrlHost::Missing => HostRecord::Missing,
            UrlHost::Domain(d) => HostRecord::Domain(d@),
            UrlHost::Ipv4 => HostRecord::Ipv4,
            UrlHost::Ipv6 => HostRecord::Ipv6,
        }
    }
}

impl View for ParsedUrl {
    type V = UrlRecord;

    open spec fn view(&self) -> UrlRecord {
        UrlRecord { href: self.href@, scheme: self.scheme@, host: self.host@ }
    }
}

/// The model of an optional `ParsedUrl`.
pub open spec fn option_record(o: Option<ParsedUrl>) -> Option<UrlRecord> {
    match o {
        Some(p) => Some(p@),
        None => None,
    }
}

/// What the `url` crate reads from `input`: the record of the URL that
/// `Url::parse` makes of it, or `None` where it makes none.
pub uninterp spec fn parsed_url(input: Seq<char>) -> Option<UrlRecord>;

/// The serialization of the URL that the `url` crate makes of `input`, after
/// its fragment has been taken away; `None` where it makes no URL.
pub uninterp spec fn without_fragment(input: Seq<char>) -> Option<Seq<char>>;

/// Calls `url::Url::parse` and copies out what `Url::as_str`, `Url::scheme`
/// and `Url::host` return. The result is named `parsed_url`; nothing else is
/// claimed of it.
#[verifier::external_body]
pub(crate) fn parse_url(input: &str) -> (parsed: Option<ParsedUrl>)
    ensures
        option_record(parsed) == parsed_url(input@),
{
    match url::Url::parse(input) {
        Ok(u) => Some(
            ParsedUrl {
                href: u.as_str().to_owned(),
                scheme: u.scheme().to_owned(),
                host: match u.host() {
                    None => UrlHost::Missing,
                    Some(url::Host::Domain(d)) => UrlHost::Domain(d.to_owned()),
                    Some(url::Host::Ipv4(_)) => UrlHost::Ipv4,
                    Some(url::Host::Ipv6(_)) => UrlHost::Ipv6,
                },
            },
        ),
        Err(_) => None,
    }
}

/// Calls `url::Url::parse`, then `Url::set_fragment(None)`, and copies out
/// what `Url::as_str` returns then. The result is named `without_fragment`.
/// It is there exactly where `Url::parse` makes a URL of `input`, and it is
/// a prefix of that URL's serialization: `set_fragment(None)` only cuts the
/// serialization short.
#[verifier::external_body]
fn parse_url_without_fragment(input: &str) -> (href: Option<String>)
    ensures
        option_text(href) == without_fragment(input@),
        href is Some <==> parsed_url(input@) is Some,
        href is Some ==> starts_with(parsed_url(input@)->0.href, href->0@),
{
    match url::Url::parse(input) {
        Ok(mut u) => {
            u.set_fragment(None);
            Some(u.as_str().to_owned())
        },
        Err(_) => None,
    }
}

/// The domain of the links that stand for a mention of a user.
pub open spec fn is_mention_domain(domain: Seq<char>) -> bool {
    eq_ignoring_ascii_case(domain, "matrix.to"@)
}

/// The scheme is `http` or `https`.
pub open spec fn is_web_scheme(scheme: Seq<char>) -> bool {
    scheme == "http"@ || scheme == "https"@
}

/// A parsed URL that may be a candidate.
pub open spec fn accepts(url: UrlRecord) -> bool {
    &&& byte_len(url.href) <= SAFE_URL_LENGTH
    &&& is_web_scheme(url.scheme)
    &&& match url.host {
        HostRecord::Missing => false,
        HostRecord::Domain(d) => !is_mention_domain(d),
        HostRecord::Ipv4 => true,
        HostRecord::Ipv6 => true,
    }
}

/// The candidate that `input` stands for, if it stands for one: the
/// serialization of an accepted URL without its fragment, which is the
/// start of the whole serialization.
pub open spec fn validated(input: Seq<char>) -> Option<Seq<char>> {
    match (parsed_url(input), without_fragment(input)) {
        (Some(url), Some(href)) => if accepts(url) && starts_with(url.href, href) {
            Some(href)
        } else {
            None
        },
        _ => None,
    }
}

/// A candidate: the fragment-free serialization of a URL that was parsed
/// from some text and accepted.
pub open spec fn is_candidate(url: Seq<char>) -> bool {
    exists|input: Seq<char>| #[trigger] validated(input) == Some(url)
}

/// Tells whether a parsed URL may be a candidate: it is no longer than
/// `SAFE_URL_LENGTH` bytes, its scheme is `http` or `https`, and it has a
/// host that is not the domain of mention links.
pub fn accept_parsed(url: &ParsedUrl) -> (accepted: bool)
    ensures
        accepted == accepts(url@),
{
    proof {
        lemma_byte_len_is_encoded_len(url.href@);
    }
    if url.href.as_str().as_bytes().len() > SAFE_URL_LENGTH {
        return false;
    }
    if !(same_text(url.scheme.as_str(), "http") || same_text(url.scheme.as_str(), "https")) {
        return false;
    }
    match &url.host {
        UrlHost::Missing => false,
        UrlHost::Domain(d) => !same_text_ignoring_ascii_case(d.as_str(), "matrix.to"),
        UrlHost::Ipv4 => true,
        UrlHost::Ipv6 => true,
    }
}

/// Validates one URL as a candidate and returns it without its fragment.
///
/// A candidate comes back exactly where `url` is an absolute URL that is
/// accepted (see `accept_parsed`); `None` comes back where `url` is no
/// absolute URL, and where the URL is not accepted.
pub fn validate_url(url: &str) -> (candidate: Option<String>)
    ensures
        option_text(candidate) == validated(url@),
        candidate is Some <==> (parsed_url(url@) is Some && accepts(parsed_url(url@)->0)),
        candidate is Some ==> is_candidate(candidate->0@),
{
    match parse_url(url) {
        None => None,
        Some(parsed) => {
            if accept_parsed(&parsed) {
                parse_url_without_fragment(url)
            } else {
                None
            }
        },
    }
}

} // verus!
