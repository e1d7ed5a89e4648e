use tts_loop::engine::{ControlAction, PhaseAction, TtsLooper};
use tts_loop::errors::Error;
use tts_loop::loop_state::Phase;
use tts_loop::recorder::Recorder;
use tts_loop::request::Request;

fn engine() -> TtsLooper {
    TtsLooper::new("slt".to_string())
}

fn start_job(text: &str, iterations: usize) -> Request {
    Request::StartJob { text: text.to_string(), iterations }
}

/// Run one full round trip with a fake synthesizer and recognizer, audio
/// disabled, and return the recognized text that was produced.
fn one_round(looper: &mut TtsLooper, segment: &[i16], recognized: &str) {
    assert!(matches!(looper.next_action(), PhaseAction::Synthesize));
    looper.complete_synthesize(segment);
    assert!(matches!(looper.next_action(), PhaseAction::SkipPlayback));
    looper.complete_playback();
    assert!(matches!(looper.next_action(), PhaseAction::Recognize));
    looper.complete_recognize(recognized.to_string());
}

#[test]
fn two_iterations_push_two_outputs_in_order() {
    let mut looper = engine();
    let r = looper.handle_request(start_job("hello", 2));
    assert!(matches!(r, Ok(ControlAction::Proceed)));
    assert_eq!(looper.work.phase, Phase::Synthesize);
    assert_eq!(looper.gui.job_starts.len(), 1);
    assert_eq!(looper.gui.job_starts[0].text, "hello");
    assert_eq!(looper.gui.job_starts[0].voice, "slt");
    assert_eq!(looper.gui.job_starts[0].iterations, 2);

    one_round(&mut looper, &[1, 2, 3], "first");
    assert_eq!(looper.work.phase, Phase::Synthesize);
    one_round(&mut looper, &[4, 5], "second");
    assert_eq!(looper.work.phase, Phase::Idle);

    assert_eq!(looper.gui.outputs, vec!["first".to_string(), "second".to_string()]);
    // The next round trip would have spoken the last recognized text.
    assert_eq!(looper.work.text, "second");
    // The full history is kept across iterations.
    assert_eq!(looper.work.wav, vec![1, 2, 3, 4, 5]);
    assert_eq!(looper.work.last_frame(), &[4, 5]);
}

#[test]
fn playback_runs_only_with_audio_enabled() {
    let mut looper = engine();
    looper.handle_request(Request::EnableAudio { enable: true }).unwrap();
    looper.handle_request(start_job("hi", 1)).unwrap();
    looper.complete_synthesize(&[7, 8, 9]);
    assert!(matches!(looper.next_action(), PhaseAction::Play));
    looper.handle_request(Request::EnableAudio { enable: false }).unwrap();
    assert!(matches!(looper.next_action(), PhaseAction::SkipPlayback));
}

#[test]
fn idle_engine_awaits_requests() {
    let looper = engine();
    assert!(matches!(looper.next_action(), PhaseAction::AwaitRequests));
}

#[test]
fn jobs_while_active_are_rejected_with_busy() {
    let mut looper = engine();
    looper.handle_request(start_job("keep me", 3)).unwrap();
    looper.complete_synthesize(&[1, 2]);

    for _ in 0..4 {
        let r = looper.handle_request(start_job("overwrite attempt", 1));
        match r {
            Err(Error::Busy { attempted_action, blocking_action }) => {
                assert_eq!(attempted_action, "tts loop");
                assert_eq!(blocking_action, "tts loop");
            },
            _ => panic!("a job request must be rejected while one is active"),
        }
    }
    // The active job was not overwritten.
    assert_eq!(looper.work.text, "keep me");
    assert_eq!(looper.work.remaining_iters, 3);
    assert_eq!(looper.work.wav, vec![1, 2]);
    assert_eq!(looper.work.phase, Phase::Playback);
    assert_eq!(looper.gui.job_starts.len(), 1);
}

#[test]
fn busy_error_message_names_the_blocking_activity() {
    let e = Error::Busy {
        attempted_action: "save".to_string(),
        blocking_action: "tts loop".to_string(),
    };
    assert_eq!(e.message(), "Cannot execute save while tts loop is running");
}

#[test]
fn cancel_stops_the_job_within_one_step() {
    let mut looper = engine();
    looper.handle_request(start_job("hello", 5)).unwrap();
    one_round(&mut looper, &[1, 2], "first");
    one_round(&mut looper, &[3], "second");
    // The third round trip is under way when the cancel arrives.
    looper.complete_synthesize(&[4, 4]);

    let r = looper.handle_request(Request::Cancel);
    assert!(matches!(r, Ok(ControlAction::DrainChannel)));
    assert_eq!(looper.work.phase, Phase::Idle);
    // At most the two finished round trips produced output.
    assert_eq!(looper.gui.outputs.len(), 2);
    // The history accumulated so far is kept for a later save.
    assert_eq!(looper.work.wav, vec![1, 2, 3, 4, 4]);

    // Queued work was discarded by the drain: a notice is surfaced.
    looper.note_cancel(true);
    assert_eq!(looper.gui.errors, vec!["Action canceled by user".to_string()]);
}

#[test]
fn cancel_while_idle_changes_nothing_visible() {
    let mut looper = engine();
    let r = looper.handle_request(Request::Cancel);
    assert!(matches!(r, Ok(ControlAction::DrainChannel)));
    assert_eq!(looper.work.phase, Phase::Idle);
    assert!(looper.gui.logs.is_empty());
    looper.note_cancel(false);
    assert!(looper.gui.errors.is_empty());
}

#[test]
fn set_voice_applies_immediately() {
    let mut looper = engine();
    looper.handle_request(Request::SetVoice { voice: "awb".to_string() }).unwrap();
    assert_eq!(looper.settings.voice, "awb");
    looper.handle_request(start_job("text", 1)).unwrap();
    assert_eq!(looper.gui.job_starts[0].voice, "awb");
}

#[test]
fn zero_iteration_job_still_makes_one_round_trip() {
    let mut looper = engine();
    looper.handle_request(start_job("once", 0)).unwrap();
    one_round(&mut looper, &[5], "echo");
    assert_eq!(looper.work.phase, Phase::Idle);
    assert_eq!(looper.gui.outputs, vec!["echo".to_string()]);
}

#[test]
fn step_error_aborts_the_job_and_surfaces_it() {
    let mut looper = engine();
    looper.handle_request(start_job("bad text", 2)).unwrap();
    // The synthesizer rejected the text: the driver aborts the job.
    looper.abort_job(&Error::SynthesisError);
    assert_eq!(looper.work.phase, Phase::Idle);
    assert_eq!(looper.gui.errors, vec!["Speech synthesis failed".to_string()]);
    // The engine keeps serving: a new job is accepted.
    assert!(looper.handle_request(start_job("good text", 1)).is_ok());
}

#[test]
fn recording_round_trip() {
    let mut looper = engine();
    let r = looper.handle_request(Request::StartRecording);
    assert!(matches!(r, Ok(ControlAction::OpenCapture)));
    assert!(matches!(looper.recording, Recorder::Ongoing));

    // A second start while ongoing is a no-op: no second capture stream.
    let r = looper.handle_request(Request::StartRecording);
    assert!(matches!(r, Ok(ControlAction::Proceed)));

    // Recognition on an ongoing recording is refused.
    assert!(matches!(looper.recording.recorded_samples(), Err(Error::CurrentlyRecording)));

    let r = looper.handle_request(Request::EndRecording);
    assert!(matches!(r, Ok(ControlAction::DrainCapture)));
    assert!(looper.end_recording(vec![10, 20, 30]));
    match looper.recording.recorded_samples() {
        Ok(buf) => assert_eq!(buf, &vec![10, 20, 30]),
        _ => panic!("the drained chunks must be kept"),
    }

    looper.push_recognized_input("spoken words".to_string());
    assert_eq!(looper.gui.inputs, vec!["spoken words".to_string()]);
}

#[test]
fn ending_with_no_chunks_yields_an_empty_buffer() {
    let mut looper = engine();
    looper.handle_request(Request::StartRecording).unwrap();
    // No capture callback ever fired: the drain hands over nothing.
    assert!(looper.end_recording(Vec::new()));
    match looper.recording.recorded_samples() {
        Ok(buf) => assert!(buf.is_empty()),
        _ => panic!("an empty recording is a value, not an error"),
    }
}

#[test]
fn ending_an_idle_recorder_is_a_no_op() {
    let mut looper = engine();
    assert!(!looper.end_recording(vec![1, 2, 3]));
    assert!(matches!(looper.recording, Recorder::Idle));
    assert!(matches!(looper.recording.recorded_samples(), Err(Error::NoData)));
}

#[test]
fn second_start_after_finish_opens_a_new_capture() {
    let mut looper = engine();
    looper.handle_request(Request::StartRecording).unwrap();
    looper.end_recording(vec![1]);
    let r = looper.handle_request(Request::StartRecording);
    assert!(matches!(r, Ok(ControlAction::OpenCapture)));
}

#[test]
fn failed_capture_is_surfaced_and_abandoned() {
    let mut looper = engine();
    looper.handle_request(Request::StartRecording).unwrap();
    looper.capture_failed();
    assert!(matches!(looper.recording, Recorder::Idle));
    assert_eq!(looper.gui.errors, vec!["Audio device error".to_string()]);
}

#[test]
fn recording_runs_concurrently_with_a_job() {
    let mut looper = engine();
    looper.handle_request(start_job("hello", 1)).unwrap();
    looper.handle_request(Request::StartRecording).unwrap();
    one_round(&mut looper, &[1], "done");
    assert!(matches!(looper.recording, Recorder::Ongoing));
    assert_eq!(looper.gui.outputs, vec!["done".to_string()]);
}

#[test]
fn shutdown_is_the_sole_terminating_action() {
    let mut looper = engine();
    let r = looper.handle_request(Request::Shutdown);
    assert!(matches!(r, Ok(ControlAction::Shutdown)));
}
