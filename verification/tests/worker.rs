use indexmap::IndexSet;
use url_previewer::config::{Config, Span};
use url_previewer::render::{loading_notice, unavailable_notice, OpenGraph};
use url_previewer::rewrite::RewriteRule;
use url_previewer::worker::{take_candidates, JobStep, MessagePlan, PreviewJob, Worker};

fn config(rules: Vec<RewriteRule>) -> Config {
    Config::new(Config {
        data_dir: "data".to_owned(),
        crawler_accept_language: String::new(),
        crawler_proxy: String::new(),
        crawler_max_size: 0,
        crawler_timeout: Span { secs: 0, nanos: 0 },
        crawler_user_agent: String::new(),
        rewrite_url: rules,
        cache_entries: 100,
        cache_duration: Span { secs: 3600, nanos: 0 },
    })
}

fn set(urls: &[&str]) -> IndexSet<String> {
    urls.iter().map(|u| (*u).to_owned()).collect()
}

fn job(urls: &[&str], is_edit: bool) -> PreviewJob {
    PreviewJob {
        urls: urls.iter().map(|u| (*u).to_owned()).collect(),
        response_id: "$response".to_owned(),
        is_edit,
        event_link: "link".to_owned(),
    }
}

fn page(title: &str) -> OpenGraph {
    OpenGraph {
        description: String::new(),
        site_name: String::new(),
        title: title.to_owned(),
        url: String::new(),
    }
}

#[test]
fn message_without_candidates_is_ignored() {
    let worker = Worker::new(config(Vec::new()));
    assert!(matches!(worker.on_message(None, &set(&[]), "link"), MessagePlan::Ignore));
}

#[test]
fn new_message_gets_a_placeholder() {
    let worker = Worker::new(config(Vec::new()));
    match worker.on_message(None, &set(&["https://a.example/"]), "link") {
        MessagePlan::Placeholder(notice) => {
            assert_eq!(notice.text, loading_notice("link").text);
            assert_eq!(notice.html, loading_notice("link").html);
        }
        other => panic!("unexpected plan {other:?}"),
    }
}

#[test]
fn known_message_gets_an_edit() {
    let worker = Worker::new(config(Vec::new()));
    let urls = set(&["https://a.example/", "https://b.example/"]);
    match worker.on_message(Some("$response".to_owned()), &urls, "link") {
        MessagePlan::Edit(job) => {
            assert_eq!(job.urls, vec!["https://a.example/", "https://b.example/"]);
            assert_eq!(job.response_id, "$response");
            assert!(job.is_edit);
            assert_eq!(job.event_link, "link");
        }
        other => panic!("unexpected plan {other:?}"),
    }
    // An edit that took the links away still runs a job on the notice.
    match worker.on_message(Some("$response".to_owned()), &set(&[]), "link") {
        MessagePlan::Edit(job) => {
            assert!(job.urls.is_empty());
            assert!(job.is_edit);
        }
        other => panic!("unexpected plan {other:?}"),
    }
}

#[test]
fn placeholder_sent_gives_link_and_job() {
    let worker = Worker::new(config(Vec::new()));
    let urls = set(&["https://a.example/"]);
    let (record, job) = worker.placeholder_sent("!room", "$event", "$response", &urls, "link");
    assert_eq!(record.room_id, "!room");
    assert_eq!(record.event_id, "$event");
    assert_eq!(record.response_id, "$response");
    assert_eq!(job.urls, vec!["https://a.example/"]);
    assert_eq!(job.response_id, "$response");
    assert!(!job.is_edit);
    assert_eq!(job.event_link, "link");
}

#[test]
fn fifteen_candidates_are_capped_to_ten() {
    let all: Vec<String> = (0..15).map(|i| format!("https://h{i}.example/")).collect();
    let urls: IndexSet<String> = all.iter().cloned().collect();
    assert_eq!(take_candidates(&urls), all[..10].to_vec());
    let few: IndexSet<String> = all[..3].iter().cloned().collect();
    assert_eq!(take_candidates(&few), all[..3].to_vec());
    let ten: IndexSet<String> = all[..10].iter().cloned().collect();
    assert_eq!(take_candidates(&ten), all[..10].to_vec());
    assert!(take_candidates(&IndexSet::new()).is_empty());
}

#[test]
fn deletion_names_the_linked_notice_each_time() {
    let worker = Worker::new(config(Vec::new()));
    let stored = Some("$response".to_owned());
    assert_eq!(worker.on_deletion(stored.clone()), Some("$response".to_owned()));
    // The link stays in the store, so a second deletion finds it again.
    assert_eq!(worker.on_deletion(stored), Some("$response".to_owned()));
    assert_eq!(worker.on_deletion(None), None);
    assert_eq!(worker.on_deletion(None), None);
}

#[test]
fn job_fetches_candidates_in_order_until_one_works() {
    let worker = Worker::new(config(Vec::new()));
    let job = job(&["https://a.example/", "https://b.example/", "https://c.example/"], false);
    let first = worker.start(&job);
    match &first {
        JobStep::Fetch { index, url } => {
            assert_eq!(*index, 0);
            assert_eq!(url, "https://a.example/");
        }
        other => panic!("unexpected step {other:?}"),
    }
    match worker.on_fetched(&job, 0, "https://a.example/", None) {
        JobStep::Fetch { index, url } => {
            assert_eq!(index, 1);
            assert_eq!(url, "https://b.example/");
        }
        other => panic!("unexpected step {other:?}"),
    }
    match worker.on_fetched(&job, 1, "https://b.example/", Some(page("B"))) {
        JobStep::Finish(Some(notice)) => {
            assert_eq!(notice.text, "B");
            assert!(notice.html.contains("href=\"https://b.example/\">B</a>"));
        }
        other => panic!("unexpected step {other:?}"),
    }
}

#[test]
fn first_job_without_preview_says_unavailable() {
    let worker = Worker::new(config(Vec::new()));
    let job = job(&["https://a.example/"], false);
    match worker.on_fetched(&job, 0, "https://a.example/", None) {
        JobStep::Finish(Some(notice)) => {
            assert_eq!(notice.text, "(URL preview is unavailable.)");
            assert_eq!(notice.html, unavailable_notice("link").html);
        }
        other => panic!("unexpected step {other:?}"),
    }
    match worker.start(&self::job(&[], false)) {
        JobStep::Finish(Some(notice)) => assert_eq!(notice.text, "(URL preview is unavailable.)"),
        other => panic!("unexpected step {other:?}"),
    }
}

#[test]
fn edit_job_without_preview_leaves_the_notice() {
    let worker = Worker::new(config(Vec::new()));
    let job = job(&["https://a.example/"], true);
    assert!(matches!(
        worker.on_fetched(&job, 0, "https://a.example/", None),
        JobStep::Finish(None)
    ));
    assert!(matches!(worker.start(&self::job(&[], true)), JobStep::Finish(None)));
    assert!(matches!(
        worker.on_fetched(&job, 7, "https://a.example/", None),
        JobStep::Finish(None)
    ));
}

#[test]
fn job_fetches_the_rewritten_url() {
    let rules = vec![
        RewriteRule { pattern: "^https://drop\\.example/.*$".to_owned(), replacement: "gone".to_owned() },
        RewriteRule { pattern: "^https://old\\.example/".to_owned(), replacement: "https://new.example/".to_owned() },
    ];
    let worker = Worker::new(config(rules));
    let job = job(&["https://drop.example/x", "https://old.example/y"], false);
    match worker.start(&job) {
        JobStep::Fetch { index, url } => {
            assert_eq!(index, 1);
            assert_eq!(url, "https://new.example/y");
        }
        other => panic!("unexpected step {other:?}"),
    }
    match worker.on_fetched(&job, 1, "https://new.example/y", Some(page(""))) {
        JobStep::Finish(Some(notice)) => {
            assert_eq!(notice.text, "(No title)");
            assert!(notice.html.contains("href=\"https://new.example/y\">No title</a>"));
        }
        other => panic!("unexpected step {other:?}"),
    }
}
