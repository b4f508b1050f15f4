//! The settings of the previewer.

use vstd::prelude::*;
use vstd::string::StringExecFns;
use crate::rewrite::{rules_view, RewriteRule};

verus! {

/// A stretch of time: whole seconds and the nanoseconds beyond them.
#[derive(Clone, Copy, Debug, PartialEq, Eq, Structural)]
pub struct Span {
    pub secs: u64,
    pub nanos: u32,
}

impl Span {
    /// No time at all.
    pub open spec fn is_zero_spec(self) -> bool {
        self.secs == 0 && self.nanos == 0
    }

    /// Tells whether the span is no time at all.
    #[verifier::when_used_as_spec(is_zero_spec)]
    pub fn is_zero(self) -> (zero: bool)
        ensures
            zero == self.is_zero_spec(),
    {
        self.secs == 0 && self.nanos == 0
    }
}

/// The settings, as they are read or after `Config::new` has filled in
/// what was left open.
#[derive(Clone, Debug)]
pub struct Config {
    /// Where the state is kept.
    pub data_dir: String,
    /// The `Accept-Language` header of a fetch.
    pub crawler_accept_language: String,
    /// The proxy for fetches; empty for none.
    pub crawler_proxy: String,
    /// The most bytes read of one page.
    pub crawler_max_size: usize,
    /// The time that one fetch may take.
    pub crawler_timeout: Span,
    /// The `User-Agent` header of a fetch.
    pub crawler_user_agent: String,
    /// The rules by which URLs are rewritten before they are fetched.
    pub rewrite_url: Vec<RewriteRule>,
    /// The most previews kept in the cache.
    pub cache_entries: u64,
    /// How long a preview stays in the cache.
    pub cache_duration: Span,
}

/// The model of `Config`.
pub struct ConfigRecord {
    pub data_dir: Seq<char>,
    pub crawler_accept_language: Seq<char>,
    pub crawler_proxy: Seq<char>,
    pub crawler_max_size: usize,
    pub crawler_timeout: Span,
    pub crawler_user_agent: Seq<char>,
    pub rewrite_url: Seq<(Seq<char>, Seq<char>)>,
    pub cache_entries: u64,
    pub cache_duration: Span,
}

impl View for Config {
    type V = ConfigRecord;

    open spec fn view(&self) -> ConfigRecord {
        ConfigRecord {
            data_dir: self.data_dir@,
            crawler_accept_language: self.crawler_accept_language@,
            crawler_proxy: self.crawler_proxy@,
            crawler_max_size: self.crawler_max_size,
            crawler_timeout: self.crawler_timeout,
            crawler_user_agent: self.crawler_user_agent@,
            rewrite_url: rules_view(self.rewrite_url@),
            cache_entries: self.cache_entries,
            cache_duration: self.cache_duration,
        }
    }
}

/// The languages asked for where none are set.
pub open spec fn default_accept_language() -> Seq<char> {
    DEFAULT_ACCEPT_LANGUAGE@
}

/// The most bytes read of one page where no limit is set.
pub const DEFAULT_MAX_SIZE: usize = 10485760;

/// The seconds that a fetch may take where no time is set.
pub const DEFAULT_TIMEOUT_SECS: u64 = 30;

/// The name under which pages are fetched where none is set.
pub const DEFAULT_USER_AGENT: &'static str =
    "Mozilla/5.0 (compatible; Matrix-URL-Previewer-Bot; +https://github.com/m13253/matrix-url-previewer-bot; like Discordbot, TelegramBot, Twitterbot)";

/// The languages asked for where none are set.
pub const DEFAULT_ACCEPT_LANGUAGE: &'static str = "en-US,en;q=0.9";

/// The name under which pages are fetched where none is set.
pub open spec fn default_user_agent() -> Seq<char> {
    DEFAULT_USER_AGENT@
}

/// `text`, or `default` where `text` is empty.
pub open spec fn text_or(text: Seq<char>, default: Seq<char>) -> Seq<char> {
    if text.len() == 0 {
        default
    } else {
        text
    }
}

/// The settings with what was left open filled in.
pub open spec fn with_defaults(loaded: ConfigRecord) -> ConfigRecord {
    ConfigRecord {
        data_dir: loaded.data_dir,
        crawler_accept_language: text_or(
            loaded.crawler_accept_language,
            default_accept_language(),
        ),
        crawler_proxy: loaded.crawler_proxy,
        crawler_max_size: if loaded.crawler_max_size == 0 {
            DEFAULT_MAX_SIZE
        } else {
            loaded.crawler_max_size
        },
        crawler_timeout: if loaded.crawler_timeout.is_zero() {
            Span { secs: DEFAULT_TIMEOUT_SECS, nanos: 0 }
        } else {
            loaded.crawler_timeout
        },
        crawler_user_agent: text_or(loaded.crawler_user_agent, default_user_agent()),
        rewrite_url: loaded.rewrite_url,
        cache_entries: loaded.cache_entries,
        cache_duration: loaded.cache_duration,
    }
}

impl Config {
    /// Makes the settings to run with from the settings as they were read:
    /// an empty language list, a size limit of zero, a timeout of zero and
    /// an empty user agent give way to the defaults; all else stays.
    pub fn new(loaded: Config) -> (config: Config)
        ensures
            config@ == with_defaults(loaded@),
    {
        let mut config = loaded;
        if config.crawler_accept_language.as_str().is_empty() {
            config.crawler_accept_language = String::from_str(DEFAULT_ACCEPT_LANGUAGE);
        }
        if config.crawler_max_size == 0 {
            config.crawler_max_size = DEFAULT_MAX_SIZE;
        }
        if config.crawler_timeout.is_zero() {
            config.crawler_timeout = Span { secs: DEFAULT_TIMEOUT_SECS, nanos: 0 };
        }
        if config.crawler_user_agent.as_str().is_empty() {
            config.crawler_user_agent = String::from_str(DEFAULT_USER_AGENT);
        }
        config
    }
}

/// After `Config::new` the four settings that have a default are set, and
/// filling in once more changes nothing.
pub proof fn law_defaults_leave_nothing_open(loaded: ConfigRecord)
    ensures
        with_defaults(loaded).crawler_accept_language.len() > 0,
        with_defaults(loaded).crawler_max_size > 0,
        !with_defaults(loaded).crawler_timeout.is_zero(),
        with_defaults(loaded).crawler_user_agent.len() > 0,
        with_defaults(with_defaults(loaded)) == with_defaults(loaded),
{
    reveal_strlit("en-US,en;q=0.9");
    reveal_strlit(
        "Mozilla/5.0 (compatible; Matrix-URL-Previewer-Bot; +https://github.com/m13253/matrix-url-previewer-bot; like Discordbot, TelegramBot, Twitterbot)",
    );
}

} // verus!
