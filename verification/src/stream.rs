//! What a structured sink writes over a run of events.

use vstd::prelude::*;
use crate::event::MyProgressEvents;
use crate::progress::Progress;
use crate::record::{lemma_record_is_one_line, record, record_bytes};

verus! {

/// The byte that ends a record.
pub open spec fn newline() -> u8 {
    10
}

/// The counter after a run of events, applied in order.
pub open spec fn after_all(p: Progress, events: Seq<MyProgressEvents>) -> Progress
    decreases events.len(),
{
    if events.len() == 0 {
        p
    } else {
        after_all(p, events.drop_last()).after(events.last())
    }
}

/// What a sink that starts at `p` writes when every one of `events` is
/// reported with success: the record of the counter after each event.
pub open spec fn stream(p: Progress, events: Seq<MyProgressEvents>) -> Seq<u8>
    decreases events.len(),
{
    if events.len() == 0 {
        Seq::empty()
    } else {
        stream(p, events.drop_last()) + record_bytes(after_all(p, events))
    }
}

/// How many records `bytes` holds: one for each newline.
pub open spec fn records_in(bytes: Seq<u8>) -> nat
    decreases bytes.len(),
{
    if bytes.len() == 0 {
        0
    } else if bytes.last() == newline() {
        records_in(bytes.drop_last()) + 1
    } else {
        records_in(bytes.drop_last())
    }
}

/// The bytes of a record are one line: the last is a newline, none before it
/// is.
pub proof fn lemma_record_bytes_are_one_line(p: Progress)
    ensures
        record_bytes(p).len() == record(p).len(),
        record_bytes(p).len() >= 1,
        record_bytes(p).last() == newline(),
        forall|i: int| 0 <= i < record_bytes(p).len() - 1 ==> #[trigger] record_bytes(p)[i] != newline(),
{
    lemma_record_is_one_line(p);
    assert forall|i: int| 0 <= i < record_bytes(p).len() - 1 implies #[trigger] record_bytes(p)[i]
        != newline() by {
        let c = record(p)[i];
        assert(c != '\n');
        assert('\0' <= c <= '\u{7f}');
    }
}

/// Bytes without a newline hold no record.
proof fn lemma_no_newline_no_record(bytes: Seq<u8>)
    requires
        forall|i: int| 0 <= i < bytes.len() ==> #[trigger] bytes[i] != newline(),
    ensures
        records_in(bytes) == 0,
    decreases bytes.len(),
{
    if bytes.len() > 0 {
        lemma_no_newline_no_record(bytes.drop_last());
    }
}

/// Records are counted piece by piece.
pub proof fn lemma_records_in_concat(a: Seq<u8>, b: Seq<u8>)
    ensures
        records_in(a + b) == records_in(a) + records_in(b),
    decreases b.len(),
{
    if b.len() == 0 {
        assert(a + b =~= a);
    } else {
        assert((a + b).drop_last() =~= a + b.drop_last());
        lemma_records_in_concat(a, b.drop_last());
    }
}

/// One record holds exactly one record.
pub proof fn lemma_record_counts_once(p: Progress)
    ensures
        records_in(record_bytes(p)) == 1,
{
    lemma_record_bytes_are_one_line(p);
    lemma_no_newline_no_record(record_bytes(p).drop_last());
}

/// Whatever a medium held, one more record makes it hold exactly one record
/// more and leaves what it held in front: what one successful call of a sink
/// does to its medium, for every event, also one that leaves the counter
/// where it was.
pub proof fn lemma_call_adds_one_record(held: Seq<u8>, p: Progress)
    ensures
        records_in(held + record_bytes(p)) == records_in(held) + 1,
        held.is_prefix_of(held + record_bytes(p)),
{
    lemma_records_in_concat(held, record_bytes(p));
    lemma_record_counts_once(p);
}

/// One record is written per reported event: none merged, none dropped.
pub proof fn lemma_one_record_per_event(p: Progress, events: Seq<MyProgressEvents>)
    ensures
        records_in(stream(p, events)) == events.len(),
    decreases events.len(),
{
    if events.len() > 0 {
        lemma_one_record_per_event(p, events.drop_last());
        lemma_records_in_concat(stream(p, events.drop_last()), record_bytes(after_all(p, events)));
        lemma_record_counts_once(after_all(p, events));
    }
}

/// The stream of a run that is continued by one event is the stream so far,
/// then the record of the new state: what one call of a sink appends.
pub proof fn lemma_stream_grows_by_one_record(
    p: Progress,
    events: Seq<MyProgressEvents>,
    event: MyProgressEvents,
)
    ensures
        after_all(p, events.push(event)) == after_all(p, events).after(event),
        stream(p, events.push(event)) == stream(p, events) + record_bytes(
            after_all(p, events).after(event),
        ),
{
    assert(events.push(event).drop_last() =~= events);
}

} // verus!
