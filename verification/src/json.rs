//! The sink that writes one structured record per progress event.

use vstd::prelude::*;
use vstd::utf8::*;
use crate::event::{MyEvents, MyProgressEvents, ReportError};
use crate::medium::Medium;
use crate::progress::Progress;
use crate::record::{lemma_record_is_one_line, message, record, record_bytes};
use crate::sink::Reporter;
use crate::stream::{lemma_call_adds_one_record, records_in};

verus! {

/// A sink that serialises the whole counter after every progress event and
/// hands the record to its medium. Log lines are accepted and dropped.
pub struct JsonReporter<W: Medium> {
    writer: W,
    progress: Progress,
}

/// What a call reports, given what the medium said to the write and to the
/// flush: success only where both succeeded.
pub fn delivery(written: Result<(), ReportError>, flushed: Result<(), ReportError>) -> (r: Result<
    (),
    ReportError,
>)
    ensures
        r is Ok <==> written is Ok && flushed is Ok,
        r is Err ==> r == Err::<(), ReportError>(ReportError::SinkUnavailable),
{
    if written.is_ok() && flushed.is_ok() {
        Ok(())
    } else {
        Err(ReportError::SinkUnavailable)
    }
}

impl<W: Medium> JsonReporter<W> {
    /// The medium that this sink writes to.
    pub closed spec fn medium(&self) -> W {
        self.writer
    }

    /// A sink over `writer`, with the counter at zero of one hundred.
    pub fn new(writer: W) -> (s: Self)
        ensures
            s.visible() == Progress::start(100),
            s.medium() == writer,
    {
        JsonReporter { writer, progress: Progress::new(100) }
    }

    /// The medium, for reading what was written to it.
    pub fn writer(&self) -> (w: &W)
        ensures
            *w == self.medium(),
    {
        &self.writer
    }

    /// Gives the medium back and ends the sink.
    pub fn into_writer(self) -> (w: W)
        ensures
            w == self.medium(),
    {
        self.writer
    }
}

impl<W: Medium> Reporter for JsonReporter<W> {
    closed spec fn visible(&self) -> Progress {
        self.progress
    }

    open spec fn shows_lines(&self) -> bool {
        false
    }

    open spec fn ignores_increments(&self) -> bool {
        false
    }

    open spec fn ready_for(&self, event: MyProgressEvents) -> bool {
        self.visible().admits(event)
    }

    /// Moves the counter, then writes the record of the new state and
    /// flushes. The flush is attempted even where the write failed.
    ///
    /// On success a medium that keeps account holds what it held before and
    /// then the one new record, all of it flushed.
    fn send_progress(&mut self, event: MyProgressEvents) -> (r: Result<(), ReportError>)
        ensures
            final(self).visible() == old(self).visible().after(event),
            old(self).medium().accepted() is Some && r is Ok ==> final(self).medium().accepted()
                == Some(old(self).medium().accepted()->0 + record_bytes(final(self).visible())),
            old(self).medium().accepted() is Some && r is Ok ==> final(self).medium().flushed()
                == final(self).medium().accepted(),
            old(self).medium().accepted() is Some && r is Ok ==> records_in(
                final(self).medium().accepted()->0,
            ) == records_in(old(self).medium().accepted()->0) + 1
                && old(self).medium().accepted()->0.is_prefix_of(
                final(self).medium().accepted()->0,
            ),
            final(self).medium().accepted() is Some == old(self).medium().accepted() is Some,
            r is Err ==> r == Err::<(), ReportError>(ReportError::SinkUnavailable),
            old(self).medium().dependable() ==> r is Ok,
            final(self).medium().dependable() == old(self).medium().dependable(),
    {
        self.progress.apply(event);
        let line = message(&self.progress);
        let bytes = line.as_str().as_bytes();
        proof {
            lemma_record_is_one_line(self.progress);
            is_ascii_chars_encode_utf8(record(self.progress));
            assert(bytes@ =~= record_bytes(self.progress));
            if old(self).writer.accepted() is Some {
                lemma_call_adds_one_record(old(self).writer.accepted()->0, self.progress);
            }
        }
        let written = self.writer.write_all(bytes);
        let flushed = self.writer.flush();
        delivery(written, flushed)
    }

    /// Succeeds without touching the counter or the medium: this sink has
    /// nowhere to show a log line.
    fn send_event(&mut self, event: MyEvents) -> (r: Result<(), ReportError>)
        ensures
            r is Ok,
            *final(self) == *old(self),
    {
        Ok(())
    }

    fn progress(&self) -> (p: Progress) {
        self.progress
    }

    fn can_send(&self, event: MyProgressEvents) -> (b: bool) {
        self.progress.can_apply(event)
    }

    fn supports_events(&self) -> (b: bool) {
        false
    }
}

} // verus!
