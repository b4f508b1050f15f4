use url_previewer::common::{MAX_RESPONSE_TEXT_CHARS, MAX_URL_COUNTS_PER_MESSAGE, SAFE_URL_LENGTH};
use url_previewer::config::{Config, Span};
use url_previewer::rewrite::RewriteRule;

fn empty() -> Config {
    Config {
        data_dir: "data".to_owned(),
        crawler_accept_language: String::new(),
        crawler_proxy: String::new(),
        crawler_max_size: 0,
        crawler_timeout: Span { secs: 0, nanos: 0 },
        crawler_user_agent: String::new(),
        rewrite_url: Vec::new(),
        cache_entries: 0,
        cache_duration: Span { secs: 0, nanos: 0 },
    }
}

#[test]
fn constants() {
    assert_eq!(MAX_RESPONSE_TEXT_CHARS, 200);
    assert_eq!(SAFE_URL_LENGTH, 2048);
    assert_eq!(MAX_URL_COUNTS_PER_MESSAGE, 10);
}

#[test]
fn defaults_are_filled_in() {
    let config = Config::new(empty());
    assert_eq!(config.data_dir, "data");
    assert_eq!(config.crawler_accept_language, "en-US,en;q=0.9");
    assert_eq!(config.crawler_proxy, "");
    assert_eq!(config.crawler_max_size, 10 * 1024 * 1024);
    assert_eq!(config.crawler_timeout, Span { secs: 30, nanos: 0 });
    assert_eq!(
        config.crawler_user_agent,
        "Mozilla/5.0 (compatible; Matrix-URL-Previewer-Bot; +https://github.com/m13253/matrix-url-previewer-bot; like Discordbot, TelegramBot, Twitterbot)"
    );
    assert!(config.rewrite_url.is_empty());
    assert_eq!(config.cache_entries, 0);
    assert_eq!(config.cache_duration, Span { secs: 0, nanos: 0 });
}

#[test]
fn set_values_are_kept() {
    let config = Config::new(Config {
        data_dir: "d".to_owned(),
        crawler_accept_language: "de".to_owned(),
        crawler_proxy: "socks5://127.0.0.1:9050".to_owned(),
        crawler_max_size: 1,
        crawler_timeout: Span { secs: 0, nanos: 1 },
        crawler_user_agent: "agent".to_owned(),
        rewrite_url: vec![RewriteRule { pattern: "a".to_owned(), replacement: "b".to_owned() }],
        cache_entries: 7,
        cache_duration: Span { secs: 60, nanos: 0 },
    });
    assert_eq!(config.crawler_accept_language, "de");
    assert_eq!(config.crawler_proxy, "socks5://127.0.0.1:9050");
    assert_eq!(config.crawler_max_size, 1);
    assert_eq!(config.crawler_timeout, Span { secs: 0, nanos: 1 });
    assert_eq!(config.crawler_user_agent, "agent");
    assert_eq!(config.rewrite_url.len(), 1);
    assert_eq!(config.rewrite_url[0].pattern, "a");
    assert_eq!(config.rewrite_url[0].replacement, "b");
    assert_eq!(config.cache_entries, 7);
    assert_eq!(config.cache_duration, Span { secs: 60, nanos: 0 });
}

#[test]
fn zero_span() {
    assert!(Span { secs: 0, nanos: 0 }.is_zero());
    assert!(!Span { secs: 1, nanos: 0 }.is_zero());
    assert!(!Span { secs: 0, nanos: 1 }.is_zero());
}
