//! What to do when a message comes, changes or goes.
//!
//! The worker decides; sending, fetching and storing are the caller's. A
//! message with candidates gets one notice: a placeholder first, which a
//! preview job then replaces. The link from the message to its notice is
//! stored once and never removed, so a message that comes again has its
//! notice edited, and none is sent twice.

use vstd::prelude::*;
use indexmap::IndexSet;
use crate::common::MAX_URL_COUNTS_PER_MESSAGE;
use crate::config::Config;
use crate::linkage::{
    after_message, linked, retracted, sends_placeholder, upserted, MessageKey,
};
use crate::render::{
    loading_notice, loading_spec, preview_notice, preview_spec, unavailable_notice,
    unavailable_spec, Notice, NoticeRecord, OpenGraph, OpenGraphRecord,
};
use crate::rewrite::{fetch_target, rewrite_url, rules_view};
use crate::url_set::{capped, set_get, set_items, set_len};
use crate::chars::{option_text, texts};

verus! {

/// The link from a message to the notice that answers it.
#[derive(Clone, Debug)]
pub struct LinkageRecord {
    pub room_id: String,
    pub event_id: String,
    pub response_id: String,
}

/// The work of making one preview.
#[derive(Debug)]
pub struct PreviewJob {
    /// The candidates, in the order in which they are tried.
    pub urls: Vec<String>,
    /// The notice that the preview replaces.
    pub response_id: String,
    /// Whether the notice held a preview before.
    pub is_edit: bool,
    /// The link back to the message.
    pub event_link: String,
}

/// The model of `PreviewJob`.
pub struct JobRecord {
    pub urls: Seq<Seq<char>>,
    pub response_id: Seq<char>,
    pub is_edit: bool,
    pub event_link: Seq<char>,
}

impl View for PreviewJob {
    type V = JobRecord;

    open spec fn view(&self) -> JobRecord {
        JobRecord {
            urls: texts(self.urls@),
            response_id: self.response_id@,
            is_edit: self.is_edit,
            event_link: self.event_link@,
        }
    }
}

/// What to do about a message.
#[derive(Debug)]
pub enum MessagePlan {
    /// Nothing: the message has no candidates and no notice.
    Ignore,
    /// The message has a notice already: run the job on it.
    Edit(PreviewJob),
    /// Send this placeholder, store the link to it, then run a job.
    Placeholder(Notice),
}

/// The next step of a job.
#[derive(Debug)]
pub enum JobStep {
    /// Fetch the metadata of `url`, which stands for the candidate at
    /// `index`, and come back with it.
    Fetch { index: usize, url: String },
    /// The job is over. Replace the notice by this one; leave the notice as
    /// it is where there is none.
    Finish(Option<Notice>),
}

/// The worker.
pub struct Worker {
    config: Config,
}

/// The notice that ends a job in which no candidate gave a preview: none
/// for an edit, which leaves what stands; else the notice that says so.
pub open spec fn fallback(job: JobRecord) -> Option<NoticeRecord> {
    if job.is_edit {
        None
    } else {
        Some(unavailable_spec(job.event_link))
    }
}

/// How a job ends that has come to the candidate at `from`, where `fetch`
/// tells what fetching a URL gives: the preview of the first candidate that
/// is fetched and gives metadata, else the fallback.
pub open spec fn outcome(
    job: JobRecord,
    rules: Seq<(Seq<char>, Seq<char>)>,
    fetch: spec_fn(Seq<char>) -> Option<OpenGraphRecord>,
    from: int,
) -> Option<NoticeRecord>
    decreases job.urls.len() - from,
{
    if from < 0 || from >= job.urls.len() {
        fallback(job)
    } else {
        match fetch_target(job.urls[from], rules) {
            Some(url) => match fetch(url) {
                Some(page) => Some(preview_spec(job.event_link, url, page)),
                None => outcome(job, rules, fetch, from + 1),
            },
            None => outcome(job, rules, fetch, from + 1),
        }
    }
}

/// The candidate at or after `from` that is fetched next, by its place;
/// the number of candidates where none is left.
pub open spec fn next_fetched(job: JobRecord, rules: Seq<(Seq<char>, Seq<char>)>, from: int) -> int
    decreases job.urls.len() - from,
{
    if from < 0 || from >= job.urls.len() {
        from
    } else if fetch_target(job.urls[from], rules) is Some {
        from
    } else {
        next_fetched(job, rules, from + 1)
    }
}

/// The model of an optional notice.
pub open spec fn option_notice(o: Option<Notice>) -> Option<NoticeRecord> {
    match o {
        Some(n) => Some(n@),
        None => None,
    }
}

/// Takes the candidates that a job tries out of a set.
pub fn take_candidates(urls: &IndexSet<String>) -> (taken: Vec<String>)
    ensures
        texts(taken@) == capped(set_items(*urls)),
{
    let n = set_len(urls);
    let limit = if n <= MAX_URL_COUNTS_PER_MESSAGE {
        n
    } else {
        MAX_URL_COUNTS_PER_MESSAGE
    };
    let mut taken: Vec<String> = Vec::new();
    let mut i: usize = 0;
    while i < limit
        invariant
            i <= limit <= set_items(*urls).len(),
            taken.len() == i,
            forall|j: int| 0 <= j < i ==> (#[trigger] taken@[j])@ == set_items(*urls)[j],
        decreases limit - i,
    {
        match set_get(urls, i) {
            Some(url) => {
                taken.push(url.clone());
            },
            None => {
                assert(false);
            },
        }
        i += 1;
    }
    proof {
        assert(texts(taken@) =~= capped(set_items(*urls)));
    }
    taken
}

impl Worker {
    /// The settings that the worker runs with.
    pub closed spec fn config(&self) -> Config {
        self.config
    }

    /// Makes a worker that runs with `config`.
    pub fn new(config: Config) -> (worker: Worker)
        ensures
            worker.config() == config,
    {
        Worker { config }
    }

    /// Decides what to do about a message that came or changed.
    ///
    /// `existing` is the notice that the store links the message to, `urls`
    /// the candidates of the message as it is now. A message with a notice
    /// gets a job that edits the notice, whatever its candidates. A message
    /// without one gets a placeholder if it has candidates, and nothing
    /// else.
    pub fn on_message(
        &self,
        existing: Option<String>,
        urls: &IndexSet<String>,
        event_link: &str,
    ) -> (plan: MessagePlan)
        ensures
            plan is Placeholder <==> sends_placeholder(
                option_text(existing),
                set_items(*urls).len(),
            ),
            match existing {
                Some(response_id) => plan matches MessagePlan::Edit(job) && job@ == (JobRecord {
                    urls: capped(set_items(*urls)),
                    response_id: response_id@,
                    is_edit: true,
                    event_link: event_link@,
                }),
                None => if !sends_placeholder(None, set_items(*urls).len()) {
                    plan is Ignore
                } else {
                    plan matches MessagePlan::Placeholder(notice) && notice@ == loading_spec(
                        event_link@,
                    )
                },
            },
    {
        match existing {
            Some(response_id) => MessagePlan::Edit(
                PreviewJob {
                    urls: take_candidates(urls),
                    response_id,
                    is_edit: true,
                    event_link: event_link.to_owned(),
                },
            ),
            None => {
                if set_len(urls) == 0 {
                    MessagePlan::Ignore
                } else {
                    MessagePlan::Placeholder(loading_notice(event_link))
                }
            },
        }
    }

    /// Makes the link to store and the job to run once the placeholder of a
    /// message has been sent and has the id `response_id`. Writing the link
    /// takes the store to where the model has it after the message.
    pub fn placeholder_sent(
        &self,
        room_id: &str,
        event_id: &str,
        response_id: &str,
        urls: &IndexSet<String>,
        event_link: &str,
    ) -> (next: (LinkageRecord, PreviewJob))
        ensures
            next.0.room_id@ == room_id@,
            next.0.event_id@ == event_id@,
            next.0.response_id@ == response_id@,
            next.1@ == (JobRecord {
                urls: capped(set_items(*urls)),
                response_id: response_id@,
                is_edit: false,
                event_link: event_link@,
            }),
            forall|store: Map<MessageKey, Seq<char>>|
                sends_placeholder(
                    linked(store, MessageKey { room_id: room_id@, event_id: event_id@ }),
                    set_items(*urls).len(),
                ) ==> #[trigger] after_message(
                    store,
                    MessageKey { room_id: room_id@, event_id: event_id@ },
                    set_items(*urls).len(),
                    response_id@,
                ) == upserted(
                    store,
                    MessageKey { room_id: next.0.room_id@, event_id: next.0.event_id@ },
                    next.0.response_id@,
                ),
    {
        (
            LinkageRecord {
                room_id: room_id.to_owned(),
                event_id: event_id.to_owned(),
                response_id: response_id.to_owned(),
            },
            PreviewJob {
                urls: take_candidates(urls),
                response_id: response_id.to_owned(),
                is_edit: false,
                event_link: event_link.to_owned(),
            },
        )
    }

    /// Decides what to do about a message that was deleted: the notice to
    /// retract, if the store links the message to one. Nothing is written
    /// to the store: the link stays.
    pub fn on_deletion(&self, existing: Option<String>) -> (retract: Option<String>)
        ensures
            retract == existing,
            forall|store: Map<MessageKey, Seq<char>>, message: MessageKey|
                linked(store, message) == option_text(existing) ==> option_text(retract)
                    == #[trigger] retracted(store, message),
    {
        existing
    }

    /// The step of a job that has come to the candidate at `from`: the next
    /// candidate that is to be fetched, or the end of the job.
    pub fn advance(&self, job: &PreviewJob, from: usize) -> (step: JobStep)
        ensures
            match step {
                JobStep::Fetch { index, url } => {
                    &&& from <= index < job@.urls.len()
                    &&& index == next_fetched(job@, self.config()@.rewrite_url, from as int)
                    &&& fetch_target(job@.urls[index as int], self.config()@.rewrite_url) == Some(
                        url@,
                    )
                },
                JobStep::Finish(notice) => {
                    &&& next_fetched(job@, self.config()@.rewrite_url, from as int)
                        >= job@.urls.len()
                    &&& option_notice(notice) == fallback(job@)
                },
            },
    {
        let ghost rules = rules_view(self.config.rewrite_url@);
        assert(job@.urls.len() == job.urls@.len());
        let mut i: usize = from;
        while i < job.urls.len()
            invariant
                from <= i,
                rules == rules_view(self.config.rewrite_url@),
                rules == self.config()@.rewrite_url,
                next_fetched(job@, rules, from as int) == next_fetched(job@, rules, i as int),
            decreases job.urls.len() - i,
        {
            assert(job@.urls[i as int] == job.urls@[i as int]@);
            match rewrite_url(job.urls[i].as_str(), &self.config.rewrite_url) {
                Some(url) => {
                    return JobStep::Fetch { index: i, url };
                },
                None => {},
            }
            i += 1;
        }
        if job.is_edit {
            JobStep::Finish(None)
        } else {
            JobStep::Finish(Some(unavailable_notice(job.event_link.as_str())))
        }
    }

    /// The first step of a job.
    pub fn start(&self, job: &PreviewJob) -> (step: JobStep)
        ensures
            match step {
                JobStep::Fetch { index, url } => {
                    &&& index < job@.urls.len()
                    &&& index == next_fetched(job@, self.config()@.rewrite_url, 0)
                    &&& fetch_target(job@.urls[index as int], self.config()@.rewrite_url) == Some(
                        url@,
                    )
                },
                JobStep::Finish(notice) => {
                    &&& next_fetched(job@, self.config()@.rewrite_url, 0) >= job@.urls.len()
                    &&& option_notice(notice) == fallback(job@)
                },
            },
    {
        self.advance(job, 0)
    }

    /// The step after the fetch for the candidate at `index` has come back:
    /// with metadata the job ends with the preview made of it, without the
    /// job goes on to the next candidate. `url` is the URL that was
    /// fetched.
    pub fn on_fetched(&self, job: &PreviewJob, index: usize, url: &str, page: Option<OpenGraph>) -> (step:
        JobStep)
        ensures
            match page {
                Some(found) => step matches JobStep::Finish(Some(notice)) && notice@
                    == preview_spec(job@.event_link, url@, found@),
                None => match step {
                    JobStep::Fetch { index: next, url: target } => {
                        &&& index < next < job@.urls.len()
                        &&& next == next_fetched(
                            job@,
                            self.config()@.rewrite_url,
                            index as int + 1,
                        )
                        &&& fetch_target(job@.urls[next as int], self.config()@.rewrite_url)
                            == Some(target@)
                    },
                    JobStep::Finish(notice) => {
                        &&& next_fetched(job@, self.config()@.rewrite_url, index as int + 1)
                            >= job@.urls.len()
                        &&& option_notice(notice) == fallback(job@)
                    },
                },
            },
    {
        match page {
            Some(found) => JobStep::Finish(
                Some(preview_notice(job.event_link.as_str(), url, &found)),
            ),
            None => {
                if index < job.urls.len() {
                    self.advance(job, index + 1)
                } else if job.is_edit {
                    JobStep::Finish(None)
                } else {
                    JobStep::Finish(Some(unavailable_notice(job.event_link.as_str())))
                }
            },
        }
    }
}

/// A job goes from one fetch to the next: it ends with the fallback where
/// no candidate is left to fetch, with the preview where the fetch gives
/// metadata, and as the rest of the job ends where it gives none.
pub proof fn law_outcome_goes_by_steps(
    job: JobRecord,
    rules: Seq<(Seq<char>, Seq<char>)>,
    fetch: spec_fn(Seq<char>) -> Option<OpenGraphRecord>,
    from: int,
)
    requires
        0 <= from,
    ensures
        ({
            let next = next_fetched(job, rules, from);
            if next >= job.urls.len() {
                outcome(job, rules, fetch, from) == fallback(job)
            } else {
                let url = fetch_target(job.urls[next], rules)->0;
                outcome(job, rules, fetch, from) == (match fetch(url) {
                    Some(page) => Some(preview_spec(job.event_link, url, page)),
                    None => outcome(job, rules, fetch, next + 1),
                })
            }
        }),
    decreases job.urls.len() - from,
{
    if from < job.urls.len() && fetch_target(job.urls[from], rules) is None {
        law_outcome_goes_by_steps(job, rules, fetch, from + 1);
    }
}

/// A job in which no fetch gives metadata ends with the fallback: an edit
/// leaves the notice as it stands, and a first job says that no preview is
/// to be had.
pub proof fn law_no_preview_gives_fallback(
    job: JobRecord,
    rules: Seq<(Seq<char>, Seq<char>)>,
    fetch: spec_fn(Seq<char>) -> Option<OpenGraphRecord>,
    from: int,
)
    requires
        forall|url: Seq<char>| #[trigger] fetch(url) is None,
    ensures
        outcome(job, rules, fetch, from) == fallback(job),
        job.is_edit ==> outcome(job, rules, fetch, from) is None,
        !job.is_edit ==> outcome(job, rules, fetch, from) == Some(
            unavailable_spec(job.event_link),
        ),
    decreases job.urls.len() - from,
{
    if 0 <= from < job.urls.len() {
        law_no_preview_gives_fallback(job, rules, fetch, from + 1);
    }
}

/// A job tries no more than `MAX_URL_COUNTS_PER_MESSAGE` candidates, and
/// those are the first of the message, in their order.
pub proof fn law_candidates_are_capped(urls: Seq<Seq<char>>)
    ensures
        capped(urls).len() <= MAX_URL_COUNTS_PER_MESSAGE,
        capped(urls).len() <= urls.len(),
        urls.len() >= MAX_URL_COUNTS_PER_MESSAGE ==> capped(urls).len()
            == MAX_URL_COUNTS_PER_MESSAGE,
        forall|i: int| 0 <= i < capped(urls).len() ==> capped(urls)[i] == urls[i],
{
}

} // verus!
