//! The links from messages to their notices, as the caller's store keeps
//! them.
//!
//! The store itself is the caller's: the worker is told what the store
//! holds for a message and says what to write. This module is the model of
//! that store. It says what the worker's answers make of it, and the
//! worker's contracts are stated over it: a link is written once, when the
//! placeholder of a message has been sent, and is never changed or removed
//! after.

use vstd::prelude::*;

verus! {

/// A message: the room it stands in and its id.
pub struct MessageKey {
    pub room_id: Seq<char>,
    pub event_id: Seq<char>,
}

/// The notice that the store links `message` to, if it links it.
pub open spec fn linked(store: Map<MessageKey, Seq<char>>, message: MessageKey) -> Option<
    Seq<char>,
> {
    if store.dom().contains(message) {
        Some(store[message])
    } else {
        None
    }
}

/// Whether a placeholder is sent for a message that the store links to
/// `existing` and that has `candidates` candidates.
pub open spec fn sends_placeholder(existing: Option<Seq<char>>, candidates: nat) -> bool {
    existing is None && candidates > 0
}

/// The store after a message with `candidates` candidates was handled,
/// where `sent` is the id that a placeholder gets if one is sent.
pub open spec fn after_message(
    store: Map<MessageKey, Seq<char>>,
    message: MessageKey,
    candidates: nat,
    sent: Seq<char>,
) -> Map<MessageKey, Seq<char>> {
    if sends_placeholder(linked(store, message), candidates) {
        upserted(store, message, sent)
    } else {
        store
    }
}

/// The store with the link from `message` to `response_id` written into
/// it.
pub open spec fn upserted(
    store: Map<MessageKey, Seq<char>>,
    message: MessageKey,
    response_id: Seq<char>,
) -> Map<MessageKey, Seq<char>> {
    store.insert(message, response_id)
}

/// The store after the deletion of a message was handled: the worker asks
/// for nothing to be written, so it is as before.
pub open spec fn after_deletion(
    store: Map<MessageKey, Seq<char>>,
    message: MessageKey,
) -> Map<MessageKey, Seq<char>> {
    store
}

/// The notice that is retracted when `message` is deleted.
pub open spec fn retracted(store: Map<MessageKey, Seq<char>>, message: MessageKey) -> Option<
    Seq<char>,
> {
    linked(store, message)
}

/// Deleting twice is deleting once: the deletion leaves the store as it
/// is, so a second deletion names the notice that the first one named, and
/// none where the first named none.
pub proof fn law_deletion_repeats(store: Map<MessageKey, Seq<char>>, message: MessageKey)
    ensures
        after_deletion(store, message) == store,
        retracted(after_deletion(store, message), message) == retracted(store, message),
{
}

/// A link stays: whatever message is handled or deleted after, a message
/// that was linked to a notice is linked to that notice still.
pub proof fn law_links_stay(
    store: Map<MessageKey, Seq<char>>,
    linked_message: MessageKey,
    message: MessageKey,
    candidates: nat,
    sent: Seq<char>,
)
    requires
        linked(store, linked_message) is Some,
    ensures
        linked(after_message(store, message, candidates, sent), linked_message) == linked(
            store,
            linked_message,
        ),
        linked(after_deletion(store, message), linked_message) == linked(store, linked_message),
{
}

/// One notice for one message: a message with candidates is linked after
/// it was handled, and when it comes again no placeholder is sent and the
/// store stays as it is.
pub proof fn law_one_notice_per_message(
    store: Map<MessageKey, Seq<char>>,
    message: MessageKey,
    candidates: nat,
    sent: Seq<char>,
    again: nat,
    sent_again: Seq<char>,
)
    requires
        candidates > 0,
    ensures
        linked(after_message(store, message, candidates, sent), message) is Some,
        !sends_placeholder(linked(after_message(store, message, candidates, sent), message), again),
        after_message(after_message(store, message, candidates, sent), message, again, sent_again)
            == after_message(store, message, candidates, sent),
{
}

/// A message without candidates and without a notice changes nothing.
pub proof fn law_no_candidates_no_link(
    store: Map<MessageKey, Seq<char>>,
    message: MessageKey,
    sent: Seq<char>,
)
    ensures
        after_message(store, message, 0, sent) == store,
{
}


/// A message that the store links to no notice.
pub open spec fn is_unseen(store: Map<MessageKey, Seq<char>>, message: MessageKey) -> bool {
    linked(store, message) is None
}

/// A message is linked after it was handled exactly if it was linked before
/// or a placeholder was sent for it.
pub proof fn law_linked_after_message(
    store: Map<MessageKey, Seq<char>>,
    message: MessageKey,
    candidates: nat,
    sent: Seq<char>,
)
    ensures
        is_unseen(after_message(store, message, candidates, sent), message) <==> is_unseen(
            store,
            message,
        ) && candidates == 0,
{
}

} // verus!
