use url_previewer::rewrite::{apply_rules, pick_changed, rewrite_url, Replaced, RewriteRule};

fn rule(pattern: &str, replacement: &str) -> RewriteRule {
    RewriteRule { pattern: pattern.to_owned(), replacement: replacement.to_owned() }
}

#[test]
fn no_rule_leaves_the_url() {
    assert_eq!(rewrite_url("https://a.example/x", &Vec::new()), Some("https://a.example/x".to_owned()));
    assert_eq!(apply_rules("https://a.example/x", &Vec::new()), None);
}

#[test]
fn rule_that_does_not_match_leaves_the_url() {
    let rules = vec![rule("^https://twitter\\.com/", "https://nitter.example/")];
    assert_eq!(apply_rules("https://a.example/x", &rules), None);
    assert_eq!(rewrite_url("https://a.example/x", &rules), Some("https://a.example/x".to_owned()));
}

#[test]
fn first_matching_rule_wins() {
    let rules = vec![
        rule("^https://nothing\\.example/", "https://unused.example/"),
        rule("^https://twitter\\.com/(.*)$", "https://first.example/$1"),
        rule("^https://twitter\\.com/", "https://second.example/"),
        rule("first", "third"),
    ];
    assert_eq!(
        rewrite_url("https://twitter.com/user/status/1", &rules),
        Some("https://first.example/user/status/1".to_owned())
    );
}

#[test]
fn rule_replaces_every_match() {
    let rules = vec![rule("a", "b")];
    assert_eq!(apply_rules("https://aa.example/a", &rules), Some("https://bb.exbmple/b".to_owned()));
}

#[test]
fn rewritten_url_is_validated_again() {
    let rules = vec![rule("^https://a\\.example/", "HTTPS://B.Example/#frag")];
    assert_eq!(rewrite_url("https://a.example/", &rules), Some("https://b.example/".to_owned()));
    let broken = vec![rule("^https://", "")];
    assert_eq!(rewrite_url("https://a.example/", &broken), None);
    let other_scheme = vec![rule("^https:", "ftp:")];
    assert_eq!(rewrite_url("https://a.example/", &other_scheme), None);
    let to_mention = vec![rule("a\\.example", "matrix.to")];
    assert_eq!(rewrite_url("https://a.example/", &to_mention), None);
}

#[test]
fn bad_pattern_is_passed_over() {
    let rules = vec![rule("(unclosed", "x"), rule("example", "test")];
    assert_eq!(rewrite_url("https://a.example/", &rules), Some("https://a.test/".to_owned()));
}

#[test]
fn rule_that_changes_nothing_does_not_win() {
    let rules = vec![rule("example", "example"), rule("test", "other"), rule("a\\.", "b.")];
    assert_eq!(apply_rules("https://a.example/", &rules), Some("https://b.example/".to_owned()));
    assert_eq!(apply_rules("https://a.example/", &rules[..1].to_vec()), None);
}

#[test]
fn pick_changed_tells_a_change() {
    assert_eq!(pick_changed("a", Replaced::Changed("b".to_owned())), Some("b".to_owned()));
    assert_eq!(pick_changed("a", Replaced::Changed("a".to_owned())), None);
    assert_eq!(pick_changed("a", Replaced::Unchanged), None);
    assert_eq!(pick_changed("a", Replaced::BadPattern), None);
}
