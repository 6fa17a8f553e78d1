//! Event batches: the local queue is sent in batches every minute; accepted
//! events are marked as a success, the others of the batch as failed with one
//! more retry (and are sent again). Pending
//! explanations are resent one by one.
use vstd::prelude::*;
use crate::text::{ascii_upper_seq, chars_of, contains, contains_str, str_eq, to_ascii_upper};

verus! {

/// Batch interval (fixed).
pub const EVENT_BATCH_INTERVAL_SECONDS: u64 = 60;

/// Pending explanations resent per cycle.
pub const EXPLANATION_RETRY_BATCH: usize = 20;

/// Events taken per batch: the configured number, at least one.
pub fn batch_limit(max_events_per_batch: usize) -> (r: usize)
    ensures
        r == if max_events_per_batch >= 1 { max_events_per_batch } else { 1 },
{
    if max_events_per_batch >= 1 { max_events_per_batch } else { 1 }
}

/// Events that concern idle segments.
pub open spec fn spec_is_segment_event(t: Seq<char>) -> bool {
    t == "IDLE_STARTED"@ || t == "IDLE_ENDED"@ || t == "NO_PC_RECORD"@
}

pub fn is_segment_event(event_type: &str) -> (r: bool)
    ensures
        r == spec_is_segment_event(event_type@),
{
    str_eq(event_type, "IDLE_STARTED") || str_eq(event_type, "IDLE_ENDED") || str_eq(event_type, "NO_PC_RECORD")
}

/// Some event of the batch concerns idle segments.
pub fn has_segment_event(event_types: &Vec<String>) -> (r: bool)
    ensures
        r == exists|i: int| 0 <= i < event_types@.len() && spec_is_segment_event(#[trigger] event_types@[i]@),
{
    let mut i: usize = 0;
    while i < event_types.len()
        invariant
            i <= event_types@.len(),
            forall|k: int| 0 <= k < i ==> !spec_is_segment_event(#[trigger] event_types@[k]@),
        decreases event_types@.len() - i,
    {
        if is_segment_event(event_types[i].as_str()) {
            return true;
        }
        i = i + 1;
    }
    false
}

/// After a successful send, the explanation list is refreshed when the batch
/// carried segment events and the server accepted at least one event.
pub fn refresh_after_send(has_segment_event: bool, accepted_count: usize) -> (r: bool)
    ensures
        r == (has_segment_event && accepted_count > 0),
{
    has_segment_event && accepted_count > 0
}

/// A rejection that resending cannot fix: an unknown reason code, a bad input,
/// a foreign segment or a missing segment (HTTP 400 / 403 / 404).
pub open spec fn spec_is_permanent_rejection(err: Seq<char>) -> bool {
    let m = ascii_upper_seq(err);
    contains(m, "INVALID_EXPLANATION_TYPE"@) || contains(m, "HTTP 400"@) || contains(m, "HTTP 403"@)
        || contains(m, "HTTP 404"@)
}

pub fn is_permanent_rejection(err: &str) -> (r: bool)
    ensures
        r == spec_is_permanent_rejection(err@),
{
    let m = to_ascii_upper(&chars_of(err));
    contains_str(&m, "INVALID_EXPLANATION_TYPE") || contains_str(&m, "HTTP 400") || contains_str(&m, "HTTP 403")
        || contains_str(&m, "HTTP 404")
}

/// What becomes of a pending explanation after a resend.
#[derive(Debug, Clone, Copy, PartialEq, Eq, Structural)]
pub enum RetryOutcome {
    /// Accepted: the local row is deleted.
    Delete,
    /// Refused for good: the local row is dropped.
    Discard,
    /// Failed for now: marked failed, resent next cycle.
    MarkFailed,
}

/// `error` is `None` when the server accepted the explanation, else its error text.
pub fn retry_outcome(error: Option<&str>) -> (r: RetryOutcome)
    ensures
        error is None ==> r == RetryOutcome::Delete,
        error matches Some(e) ==> (r == if spec_is_permanent_rejection(e@) {
            RetryOutcome::Discard
        } else {
            RetryOutcome::MarkFailed
        }),
{
    match error {
        None => RetryOutcome::Delete,
        Some(e) => if is_permanent_rejection(e) {
            RetryOutcome::Discard
        } else {
            RetryOutcome::MarkFailed
        },
    }
}

// ───────────────────────────── marking a sent batch ─────────────────────────────

/// Sending state of a queued event.
#[derive(Debug, Clone, Copy, PartialEq, Eq, Structural)]
pub enum EventStatus {
    Pending,
    /// Accepted by the server.
    Success,
    /// Sent but not accepted; sent again in a later batch.
    Failed,
}

/// A queued event as the batch marking sees it.
#[derive(Debug)]
pub struct EventRecord {
    pub event_id: String,
    pub status: EventStatus,
    /// Failed sends so far.
    pub retry_count: u32,
}

impl Clone for EventRecord {
    fn clone(&self) -> (r: Self)
        ensures
            r == *self,
    {
        EventRecord { event_id: self.event_id.clone(), status: self.status, retry_count: self.retry_count }
    }
}

/// Some id of `ids` is `id`.
pub open spec fn has_id(ids: Seq<String>, id: Seq<char>) -> bool {
    exists|k: int| 0 <= k < ids.len() && #[trigger] ids[k]@ == id
}

/// `e1` is `e0` after a batch of `batch` ids was sent: an event outside the batch
/// is untouched; one the server accepted is a success; any other one of the batch
/// (all of them when the send failed, `accepted` is `None`) failed once more.
pub open spec fn marked_after_send(e0: EventRecord, e1: EventRecord, batch: Seq<String>, accepted: Option<Seq<String>>) -> bool {
    if !has_id(batch, e0.event_id@) {
        e1 == e0
    } else if accepted matches Some(a) && has_id(a, e0.event_id@) {
        e1 == (EventRecord { status: EventStatus::Success, ..e0 })
    } else {
        e1 == (EventRecord {
            status: EventStatus::Failed,
            retry_count: if e0.retry_count == u32::MAX { u32::MAX } else { (e0.retry_count + 1) as u32 },
            ..e0
        })
    }
}

fn contains_id(ids: &Vec<String>, id: &str) -> (r: bool)
    ensures
        r == has_id(ids@, id@),
{
    let mut k: usize = 0;
    while k < ids.len()
        invariant
            k <= ids@.len(),
            forall|j: int| 0 <= j < k ==> ids@[j]@ != id@,
        decreases ids@.len() - k,
    {
        if str_eq(ids[k].as_str(), id) {
            return true;
        }
        k = k + 1;
    }
    false
}

/// Marks the queue after a batch was sent: `batch_ids` are the ids sent,
/// `accepted_ids` the server's accepted ids (`None` when the send failed).
pub fn mark_after_send(events: &mut Vec<EventRecord>, batch_ids: &Vec<String>, accepted_ids: Option<&Vec<String>>)
    ensures
        final(events)@.len() == old(events)@.len(),
        forall|i: int|
            0 <= i < old(events)@.len() ==> marked_after_send(
                old(events)@[i],
                #[trigger] final(events)@[i],
                batch_ids@,
                match accepted_ids {
                    Some(a) => Some(a@),
                    None => None,
                },
            ),
{
    let ghost orig = events@;
    let ghost acc: Option<Seq<String>> = match accepted_ids {
        Some(a) => Some(a@),
        None => None,
    };
    let mut i: usize = 0;
    while i < events.len()
        invariant
            i <= events@.len(),
            events@.len() == orig.len(),
            acc == match accepted_ids {
                Some(a) => Some(a@),
                None => None,
            },
            forall|k: int| 0 <= k < i ==> marked_after_send(orig[k], #[trigger] events@[k], batch_ids@, acc),
            forall|k: int| i <= k < orig.len() ==> #[trigger] events@[k] == orig[k],
        decreases orig.len() - i,
    {
        let e = events[i].clone();
        if contains_id(batch_ids, e.event_id.as_str()) {
            let accepted = match accepted_ids {
                Some(a) => contains_id(a, e.event_id.as_str()),
                None => false,
            };
            let updated = if accepted {
                EventRecord { event_id: e.event_id, status: EventStatus::Success, retry_count: e.retry_count }
            } else {
                EventRecord {
                    event_id: e.event_id,
                    status: EventStatus::Failed,
                    retry_count: e.retry_count.saturating_add(1),
                }
            };
            events.set(i, updated);
        }
        i = i + 1;
    }
}

/// Ids of the events still to send (pending or failed), in queue order.
pub open spec fn unsent_ids(events: Seq<EventRecord>) -> Seq<Seq<char>>
    decreases events.len(),
{
    if events.len() == 0 {
        Seq::<Seq<char>>::empty()
    } else {
        let rest = unsent_ids(events.drop_last());
        if events.last().status == EventStatus::Success {
            rest
        } else {
            rest.push(events.last().event_id@)
        }
    }
}

/// The next batch: the ids of the first `limit` events still to send, in queue order.
pub fn select_batch(events: &Vec<EventRecord>, limit: usize) -> (r: Vec<String>)
    ensures
        r@.len() == if unsent_ids(events@).len() <= limit { unsent_ids(events@).len() } else { limit as nat },
        forall|k: int| 0 <= k < r@.len() ==> #[trigger] r@[k]@ == unsent_ids(events@)[k],
{
    let mut r: Vec<String> = Vec::new();
    let mut i: usize = 0;
    while i < events.len() && r.len() < limit
        invariant
            i <= events@.len(),
            r@.len() <= limit,
            r@.len() == unsent_ids(events@.take(i as int)).len(),
            forall|k: int| 0 <= k < r@.len() ==> #[trigger] r@[k]@ == unsent_ids(events@.take(i as int))[k],
        decreases events@.len() - i,
    {
        proof {
            assert(events@.take(i + 1).drop_last() == events@.take(i as int));
        }
        if events[i].status != EventStatus::Success {
            r.push(events[i].event_id.clone());
        }
        i = i + 1;
    }
    proof {
        lemma_unsent_prefix(events@, i as int);
        if i == events@.len() {
            assert(events@.take(i as int) == events@);
        }
    }
    r
}

/// The unsent ids of a prefix start the unsent ids of the whole queue.
proof fn lemma_unsent_prefix(events: Seq<EventRecord>, i: int)
    requires
        0 <= i <= events.len(),
    ensures
        unsent_ids(events.take(i)).len() <= unsent_ids(events).len(),
        forall|k: int| 0 <= k < unsent_ids(events.take(i)).len() ==> #[trigger] unsent_ids(events.take(i))[k] == unsent_ids(events)[k],
    decreases events.len() - i,
{
    if i < events.len() {
        lemma_unsent_prefix(events, i + 1);
        assert(events.take(i + 1).drop_last() == events.take(i));
    } else {
        assert(events.take(i) == events);
    }
}

} // verus!
