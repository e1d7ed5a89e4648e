use tts_loop::channel::channel;
use tts_loop::request::Request;

fn start_job(text: &str) -> Request {
    Request::StartJob { text: text.to_string(), iterations: 1 }
}

#[test]
fn priority_classes() {
    assert!(!start_job("x").is_priority_action());
    assert!(Request::SetVoice { voice: "slt".to_string() }.is_priority_action());
    assert!(Request::EnableAudio { enable: true }.is_priority_action());
    assert!(Request::Cancel.is_priority_action());
    assert!(Request::Shutdown.is_priority_action());
    assert!(Request::Save { path: "out.wav".to_string() }.is_priority_action());
    assert!(Request::StartRecording.is_priority_action());
    assert!(Request::EndRecording.is_priority_action());
}

#[test]
fn empty_channel_returns_nothing() {
    let (_tx, rx) = channel();
    assert!(rx.try_recv().is_none());
}

#[test]
fn fifo_within_regular_queue() {
    let (tx, rx) = channel();
    tx.send(start_job("one"));
    tx.send(start_job("two"));
    match rx.try_recv() {
        Some(Request::StartJob { text, .. }) => assert_eq!(text, "one"),
        other => panic!("expected the first job, got {:?}", other.is_some()),
    }
    match rx.try_recv() {
        Some(Request::StartJob { text, .. }) => assert_eq!(text, "two"),
        _ => panic!("expected the second job"),
    }
    assert!(rx.try_recv().is_none());
}

#[test]
fn control_requests_overtake_queued_jobs() {
    let (tx, rx) = channel();
    tx.send(start_job("job"));
    tx.send(Request::SetVoice { voice: "slt".to_string() });
    match rx.try_recv() {
        Some(Request::SetVoice { voice }) => assert_eq!(voice, "slt"),
        _ => panic!("the control request must be served first"),
    }
    assert!(matches!(rx.try_recv(), Some(Request::StartJob { .. })));
}

#[test]
fn cancel_then_ten_jobs_drains_nothing() {
    let (tx, rx) = channel();
    tx.send(Request::Cancel);
    for i in 0..10 {
        tx.send(start_job(&format!("job {}", i)));
    }
    // The cancel is observed first, ahead of the whole job backlog.
    assert!(matches!(rx.try_recv(), Some(Request::Cancel)));
    // Nothing was queued ahead of the cancel, so nothing is discarded...
    assert!(!rx.execute_cancel());
    // ...and the jobs sent after the cancel survive.
    match rx.try_recv() {
        Some(Request::StartJob { text, .. }) => assert_eq!(text, "job 0"),
        _ => panic!("jobs sent after the cancel must survive the drain"),
    }
}

#[test]
fn jobs_pending_before_cancel_are_discarded() {
    let (tx, rx) = channel();
    tx.send(start_job("stale 1"));
    tx.send(start_job("stale 2"));
    tx.send(Request::Cancel);
    assert!(matches!(rx.try_recv(), Some(Request::Cancel)));
    // Two jobs were queued ahead of the cancel: the drain discards them and
    // reports it.
    assert!(rx.execute_cancel());
    assert!(rx.try_recv().is_none());
}

#[test]
fn undrained_cancel_marker_is_served_as_a_request() {
    let (tx, rx) = channel();
    tx.send(Request::Cancel);
    assert!(matches!(rx.try_recv(), Some(Request::Cancel)));
    // The boundary marker still sits in the regular queue until a drain
    // consumes it; served as a request it is a harmless repeated cancel.
    assert!(matches!(rx.try_recv(), Some(Request::Cancel)));
    assert!(rx.try_recv().is_none());
}

#[test]
fn sending_without_a_live_receiver_is_not_fatal() {
    let (tx, rx) = channel();
    drop(rx);
    tx.send(start_job("nobody is listening"));
}
