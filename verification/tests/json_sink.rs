use reporter::json::delivery;
use reporter::{JsonReporter, Medium, MyEvents, MyProgressEvents, Progress, ReportError, Reporter};

/// A medium that can be told to refuse writes or flushes, and that counts
/// what it was asked to do.
struct Flaky {
    taken: Vec<u8>,
    refuse_write: bool,
    refuse_flush: bool,
    writes: usize,
    flushes: usize,
}

impl Flaky {
    fn new(refuse_write: bool, refuse_flush: bool) -> Flaky {
        Flaky { taken: Vec::new(), refuse_write, refuse_flush, writes: 0, flushes: 0 }
    }
}

impl Medium for Flaky {
    fn write_all(&mut self, bytes: &[u8]) -> Result<(), ReportError> {
        self.writes += 1;
        if self.refuse_write {
            Err(ReportError::SinkUnavailable)
        } else {
            self.taken.extend_from_slice(bytes);
            Ok(())
        }
    }

    fn flush(&mut self) -> Result<(), ReportError> {
        self.flushes += 1;
        if self.refuse_flush {
            Err(ReportError::SinkUnavailable)
        } else {
            Ok(())
        }
    }
}

fn text(sink: &JsonReporter<Vec<u8>>) -> String {
    String::from_utf8(sink.writer().clone()).unwrap()
}

#[test]
fn new_sink_starts_at_zero_of_one_hundred() {
    let sink = JsonReporter::new(Vec::new());
    assert_eq!(sink.progress(), Progress { current: 0, max: 100 });
    assert!(sink.writer().is_empty());
}

#[test]
fn three_increments_then_finish() {
    let mut sink = JsonReporter::new(Vec::new());
    for _ in 0..3 {
        assert_eq!(sink.send_progress(MyProgressEvents::Inc { value: 10 }), Ok(()));
    }
    assert_eq!(sink.progress().current, 30);
    assert_eq!(sink.send_progress(MyProgressEvents::Finish), Ok(()));
    assert_eq!(sink.progress(), Progress { current: 100, max: 100 });
    assert_eq!(
        text(&sink),
        "{ 'progress' : { 'current': 10, 'max': 100 } }\n\
         { 'progress' : { 'current': 20, 'max': 100 } }\n\
         { 'progress' : { 'current': 30, 'max': 100 } }\n\
         { 'progress' : { 'current': 100, 'max': 100 } }\n"
    );
}

#[test]
fn line_event_succeeds_and_writes_nothing() {
    let mut sink = JsonReporter::new(Vec::new());
    assert_eq!(sink.send_event(MyEvents::WriteLine(String::from("hello"))), Ok(()));
    assert_eq!(sink.writer().len(), 0);
    assert_eq!(sink.progress(), Progress { current: 0, max: 100 });
}

#[test]
fn line_event_does_not_reach_the_medium_at_all() {
    let mut sink = JsonReporter::new(Flaky::new(true, true));
    assert_eq!(sink.send_event(MyEvents::WriteLine(String::from("hello"))), Ok(()));
    assert_eq!(sink.writer().writes, 0);
    assert_eq!(sink.writer().flushes, 0);
}

#[test]
fn json_sink_does_not_show_lines() {
    let sink = JsonReporter::new(Vec::new());
    assert!(!sink.supports_events());
}

#[test]
fn one_record_per_call() {
    let mut sink = JsonReporter::new(Vec::new());
    let events = [
        MyProgressEvents::Inc { value: 1 },
        MyProgressEvents::Reset,
        MyProgressEvents::Inc { value: 250 },
        MyProgressEvents::Finish,
        MyProgressEvents::Finish,
        MyProgressEvents::Reset,
        MyProgressEvents::Inc { value: 0 },
    ];
    for (done, event) in events.iter().enumerate() {
        assert_eq!(sink.send_progress(*event), Ok(()));
        let newlines = sink.writer().iter().filter(|b| **b == b'\n').count();
        assert_eq!(newlines, done + 1);
        assert_eq!(*sink.writer().last().unwrap(), b'\n');
    }
}

#[test]
fn each_record_is_a_whole_line() {
    let mut sink = JsonReporter::new(Vec::new());
    sink.send_progress(MyProgressEvents::Inc { value: 7 }).unwrap();
    sink.send_progress(MyProgressEvents::Inc { value: 8 }).unwrap();
    let all = text(&sink);
    let lines: Vec<&str> = all.split_terminator('\n').collect();
    assert_eq!(
        lines,
        vec![
            "{ 'progress' : { 'current': 7, 'max': 100 } }",
            "{ 'progress' : { 'current': 15, 'max': 100 } }",
        ]
    );
}

#[test]
fn increments_are_not_clamped() {
    let mut sink = JsonReporter::new(Vec::new());
    sink.send_progress(MyProgressEvents::Inc { value: 130 }).unwrap();
    assert_eq!(sink.progress(), Progress { current: 130, max: 100 });
    assert_eq!(text(&sink), "{ 'progress' : { 'current': 130, 'max': 100 } }\n");
}

#[test]
fn finish_reaches_max_from_anywhere() {
    for start in [0u64, 1, 99, 100, 101, 5000] {
        let mut sink = JsonReporter::new(Vec::new());
        sink.send_progress(MyProgressEvents::Inc { value: start }).unwrap();
        sink.send_progress(MyProgressEvents::Finish).unwrap();
        assert_eq!(sink.progress(), Progress { current: 100, max: 100 });
    }
}

#[test]
fn reset_then_finish_ends_like_finish() {
    let mut one = JsonReporter::new(Vec::new());
    let mut two = JsonReporter::new(Vec::new());
    one.send_progress(MyProgressEvents::Inc { value: 42 }).unwrap();
    two.send_progress(MyProgressEvents::Inc { value: 42 }).unwrap();
    one.send_progress(MyProgressEvents::Reset).unwrap();
    one.send_progress(MyProgressEvents::Finish).unwrap();
    two.send_progress(MyProgressEvents::Finish).unwrap();
    assert_eq!(one.progress(), two.progress());
    // The end state agrees; the number of records does not.
    assert_eq!(one.writer().iter().filter(|b| **b == b'\n').count(), 3);
    assert_eq!(two.writer().iter().filter(|b| **b == b'\n').count(), 2);
}

#[test]
fn refused_write_is_sink_unavailable() {
    let mut sink = JsonReporter::new(Flaky::new(true, false));
    assert_eq!(
        sink.send_progress(MyProgressEvents::Inc { value: 10 }),
        Err(ReportError::SinkUnavailable)
    );
}

#[test]
fn refused_flush_is_sink_unavailable() {
    let mut sink = JsonReporter::new(Flaky::new(false, true));
    assert_eq!(
        sink.send_progress(MyProgressEvents::Inc { value: 10 }),
        Err(ReportError::SinkUnavailable)
    );
    assert_eq!(sink.writer().taken, b"{ 'progress' : { 'current': 10, 'max': 100 } }\n".to_vec());
}

#[test]
fn counter_moves_even_when_the_write_fails() {
    let mut sink = JsonReporter::new(Flaky::new(true, false));
    assert!(sink.send_progress(MyProgressEvents::Inc { value: 10 }).is_err());
    assert_eq!(sink.progress().current, 10);
    assert!(sink.send_progress(MyProgressEvents::Finish).is_err());
    assert_eq!(sink.progress().current, 100);
    assert!(sink.writer().taken.is_empty());
}

#[test]
fn each_call_writes_once_and_flushes_once() {
    let mut sink = JsonReporter::new(Flaky::new(false, false));
    sink.send_progress(MyProgressEvents::Inc { value: 10 }).unwrap();
    sink.send_progress(MyProgressEvents::Finish).unwrap();
    assert_eq!(sink.writer().writes, 2);
    assert_eq!(sink.writer().flushes, 2);
}

#[test]
fn flush_is_attempted_after_a_refused_write() {
    let mut sink = JsonReporter::new(Flaky::new(true, false));
    assert!(sink.send_progress(MyProgressEvents::Reset).is_err());
    assert_eq!(sink.writer().writes, 1);
    assert_eq!(sink.writer().flushes, 1);
}

#[test]
fn into_writer_gives_the_medium_back() {
    let mut sink = JsonReporter::new(Vec::new());
    sink.send_progress(MyProgressEvents::Reset).unwrap();
    let bytes = sink.into_writer();
    assert_eq!(bytes, b"{ 'progress' : { 'current': 0, 'max': 100 } }\n".to_vec());
}

#[test]
fn delivery_needs_both_to_succeed() {
    let bad: Result<(), ReportError> = Err(ReportError::SinkUnavailable);
    assert_eq!(delivery(Ok(()), Ok(())), Ok(()));
    assert_eq!(delivery(bad, Ok(())), Err(ReportError::SinkUnavailable));
    assert_eq!(delivery(Ok(()), bad), Err(ReportError::SinkUnavailable));
    assert_eq!(delivery(bad, bad), Err(ReportError::SinkUnavailable));
}

#[test]
fn buffer_medium_appends_and_never_fails() {
    let mut buf: Vec<u8> = vec![1, 2];
    assert_eq!(Medium::write_all(&mut buf, &[3, 4, 5]), Ok(()));
    assert_eq!(Medium::flush(&mut buf), Ok(()));
    assert_eq!(buf, vec![1, 2, 3, 4, 5]);
}
