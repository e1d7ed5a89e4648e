//! The worker engine: it owns the job state, the recorder, the settings and
//! the output sink, serves one request at a time, and advances the active
//! job one phase step at a time.
//!
//! The engine never performs the blocking outside work itself — synthesis,
//! playback, recognition, capture and file writing belong to external
//! collaborators. Instead it decides: [`TtsLooper::next_action`] says which
//! call the driver must make next, and the `complete_*` methods apply the
//! call's result to the state. The driver polls the request channel before
//! every phase step, so a pending `Cancel` takes effect within one step.

use vstd::prelude::*;

use crate::errors::Error;
use crate::gui::{GuiHandle, LogLevel, log_markup, logs_appended, same_but_logs};
use crate::loop_state::{LoopState, Phase, WorkView};
use crate::recorder::Recorder;
use crate::request::Request;
use crate::wav::{encode_wav_mono16, wav_container};

verus! {

/// Sample rate, in Hz, shared by synthesis, playback, recognition and the
/// saved container.
pub const SAMPLE_RATE: u32 = 16000;

/// Mutable configuration, written by control requests and read while the
/// job advances.
pub struct Settings {
    pub voice: String,
    pub audio_enabled: bool,
}

/// The outside call the driver must make to advance the active job by one
/// phase step.
pub enum PhaseAction {
    /// Synthesize the job's current text with the configured voice and hand
    /// the samples to [`TtsLooper::complete_synthesize`].
    Synthesize,
    /// Play the most recent segment, blocking until it is done, then call
    /// [`TtsLooper::complete_playback`].
    Play,
    /// Audio is disabled: skip the device and call
    /// [`TtsLooper::complete_playback`] directly.
    SkipPlayback,
    /// Recognize the most recent segment and hand the text to
    /// [`TtsLooper::complete_recognize`].
    Recognize,
    /// No job is active: block on the request channel instead.
    AwaitRequests,
}

/// The outside work a handled request asks of the driver.
pub enum ControlAction {
    /// Nothing: go on serving requests and phase steps.
    Proceed,
    /// End the worker loop.
    Shutdown,
    /// Open a capture stream that buffers incoming chunks.
    OpenCapture,
    /// Close the capture stream, drain the chunks buffered so far without
    /// blocking for more, and hand them to [`TtsLooper::end_recording`].
    DrainCapture,
    /// Call `execute_cancel` on the channel and hand its report to
    /// [`TtsLooper::note_cancel`].
    DrainChannel,
    /// Write the serialized sample history to `path`.
    SaveWav { path: String, bytes: Vec<u8> },
}

/// The job state after one job request is offered to an engine whose job
/// state is `w`: a new job is accepted only while no job is active, and a
/// rejected request leaves the state untouched.
pub open spec fn start_job_outcome(w: WorkView, text: Seq<char>, iterations: int) -> (WorkView,
    bool) {
    if w.phase is Idle {
        (
            WorkView {
                phase: Phase::Synthesize,
                text,
                wav: Seq::empty(),
                last_frame_len: 0,
                remaining_iters: iterations,
            },
            true,
        )
    } else {
        (w, false)
    }
}

/// The job state after a whole sequence of job requests is offered in
/// order, and how many of them were accepted.
pub open spec fn start_jobs_outcome(w: WorkView, reqs: Seq<(Seq<char>, int)>) -> (WorkView, int)
    decreases reqs.len(),
{
    if reqs.len() == 0 {
        (w, 0)
    } else {
        let (w1, ok) = start_job_outcome(w, reqs[0].0, reqs[0].1);
        let (w2, n) = start_jobs_outcome(w1, reqs.drop_first());
        (w2, n + if ok { 1int } else { 0int })
    }
}

/// While a job is active, every further job request is rejected and none of
/// them changes the job state.
pub proof fn lemma_jobs_rejected_while_active(w: WorkView, reqs: Seq<(Seq<char>, int)>)
    requires
        !(w.phase is Idle),
    ensures
        start_jobs_outcome(w, reqs) == (w, 0int),
    decreases reqs.len(),
{
    if reqs.len() > 0 {
        lemma_jobs_rejected_while_active(w, reqs.drop_first());
    }
}

/// Of any number of job requests offered to an idle engine, exactly the
/// first is accepted: the accepted job is the first request's, and no later
/// request overwrites it.
pub proof fn lemma_first_job_wins(w: WorkView, reqs: Seq<(Seq<char>, int)>)
    requires
        w.phase is Idle,
        reqs.len() > 0,
    ensures
        start_jobs_outcome(w, reqs) == (start_job_outcome(w, reqs[0].0, reqs[0].1).0, 1int),
{
    let (w1, ok) = start_job_outcome(w, reqs[0].0, reqs[0].1);
    lemma_jobs_rejected_while_active(w1, reqs.drop_first());
}

/// The job state after a cancellation: the phase is forced to `Idle` and
/// the accumulated history is kept.
pub open spec fn cancel_outcome(w: WorkView) -> WorkView {
    WorkView { phase: Phase::Idle, ..w }
}

/// Cancellation latency does not depend on the backlog: however many job
/// requests are pending, and however many more arrive after the `Cancel`,
/// the `Cancel` is the first request the engine receives — the driver polls
/// the channel before every phase step — and handling it drives the phase
/// to `Idle`, whatever the job state was.
pub proof fn lemma_cancel_drives_idle(w: WorkView, pending: Seq<Request>, jobs: Seq<Request>)
    requires
        forall|i: int| 0 <= i < pending.len() ==> (#[trigger] pending[i]) is StartJob,
        forall|i: int| 0 <= i < jobs.len() ==> !(#[trigger] jobs[i]).is_priority_spec(),
    ensures
        ({
            let (p1, r1) = crate::channel::send_spec(Seq::empty(), pending, Request::Cancel);
            let (p2, r2) = crate::channel::send_all_spec(p1, r1, jobs);
            &&& p2.len() > 0 && p2[0] is Cancel
            &&& cancel_outcome(w).phase is Idle
        }),
{
    crate::channel::lemma_cancel_protocol(pending, jobs);
}

/// The worker engine.
pub struct TtsLooper {
    pub work: LoopState,
    pub recording: Recorder,
    pub settings: Settings,
    pub gui: GuiHandle,
}

impl TtsLooper {
    pub open spec fn wf(&self) -> bool {
        self.work.wf()
    }

    /// A fresh engine: idle, not recording, audio playback off, speaking
    /// with `voice`.
    pub fn new(voice: String) -> (r: TtsLooper)
        ensures
            r.wf(),
            r.work@.phase is Idle,
            r.work@.wav == Seq::<i16>::empty(),
            r.recording is Idle,
            r.settings.voice == voice,
            !r.settings.audio_enabled,
            r.gui.outputs@ == Seq::<String>::empty(),
            r.gui.inputs@ == Seq::<String>::empty(),
            r.gui.errors@ == Seq::<String>::empty(),
            r.gui.logs@ == Seq::<String>::empty(),
            r.gui.job_starts@.len() == 0,
    {
        TtsLooper {
            work: LoopState::new(),
            recording: Recorder::Idle,
            settings: Settings { voice, audio_enabled: false },
            gui: GuiHandle::new(),
        }
    }

    /// Serve one request. Control requests apply immediately; a job request
    /// is rejected with `Busy` while a job is active. The result names the
    /// outside work the request still needs.
    pub fn handle_request(&mut self, req: Request) -> (r: Result<ControlAction, Error>)
        requires
            old(self).wf(),
        ensures
            final(self).wf(),
            // A job request: accepted exactly while idle, never overwriting
            // an active job.
            req matches Request::StartJob { text, iterations } ==> {
                &&& (final(self).work@, r is Ok) == start_job_outcome(
                    old(self).work@,
                    text@,
                    iterations as int,
                )
                &&& final(self).recording == old(self).recording
                &&& final(self).settings == old(self).settings
                &&& (old(self).work@.phase is Idle ==> {
                    &&& r matches Ok(a) && a is Proceed
                    &&& final(self).gui.job_starts@.len() == old(self).gui.job_starts@.len() + 1
                    &&& final(self).gui.job_starts@.last().text@ == text@
                    &&& final(self).gui.job_starts@.last().voice@ == old(self).settings.voice@
                    &&& final(self).gui.job_starts@.last().iterations == iterations
                    &&& final(self).gui.job_starts@.subrange(
                        0,
                        old(self).gui.job_starts@.len() as int,
                    ) == old(self).gui.job_starts@
                    &&& final(self).gui.outputs == old(self).gui.outputs
                    &&& final(self).gui.inputs == old(self).gui.inputs
                    &&& final(self).gui.errors == old(self).gui.errors
                    &&& final(self).gui.logs == old(self).gui.logs
                })
                &&& (!(old(self).work@.phase is Idle) ==> {
                    &&& r matches Err(e) && e matches Error::Busy {
                        attempted_action,
                        blocking_action,
                    } && attempted_action@ == "tts loop"@ && blocking_action@ == "tts loop"@
                    &&& final(self).gui == old(self).gui
                })
            },
            // Cancel: the active job stops at once, keeping its history; the
            // driver must then drain the regular queue.
            req is Cancel ==> {
                &&& r matches Ok(a) && a is DrainChannel
                &&& final(self).work@ == cancel_outcome(old(self).work@)
                &&& final(self).recording == old(self).recording
                &&& final(self).settings == old(self).settings
                &&& same_but_logs(&old(self).gui, &final(self).gui)
                &&& (!(old(self).work@.phase is Idle) ==> logs_appended(
                    &old(self).gui,
                    &final(self).gui,
                    LogLevel::Warn,
                    "Canceled executing job"@,
                ))
                &&& (old(self).work@.phase is Idle ==> final(self).gui.logs == old(self).gui.logs)
            },
            req matches Request::SetVoice { voice } ==> {
                &&& r matches Ok(a) && a is Proceed
                &&& final(self).settings.voice == voice
                &&& final(self).settings.audio_enabled == old(self).settings.audio_enabled
                &&& final(self).work == old(self).work
                &&& final(self).recording == old(self).recording
                &&& same_but_logs(&old(self).gui, &final(self).gui)
                &&& logs_appended(
                    &old(self).gui,
                    &final(self).gui,
                    LogLevel::Info,
                    "Voice changed: "@ + voice@,
                )
            },
            req matches Request::EnableAudio { enable } ==> {
                &&& r matches Ok(a) && a is Proceed
                &&& final(self).settings.audio_enabled == enable
                &&& final(self).settings.voice == old(self).settings.voice
                &&& final(self).work == old(self).work
                &&& final(self).recording == old(self).recording
                &&& same_but_logs(&old(self).gui, &final(self).gui)
                &&& logs_appended(
                    &old(self).gui,
                    &final(self).gui,
                    LogLevel::Info,
                    if enable {
                        "Audio playback enabled"@
                    } else {
                        "Audio playback disabled"@
                    },
                )
            },
            // Starting a recording is idempotent: a capture stream is opened
            // only when none is running.
            req is StartRecording ==> {
                &&& final(self).recording is Ongoing
                &&& r matches Ok(a) && ((a is OpenCapture) == !(old(self).recording is Ongoing))
                    && (a is OpenCapture || a is Proceed)
                &&& final(self).work == old(self).work
                &&& final(self).settings == old(self).settings
                &&& same_but_logs(&old(self).gui, &final(self).gui)
                &&& logs_appended(
                    &old(self).gui,
                    &final(self).gui,
                    LogLevel::Info,
                    "Recording started"@,
                )
            },
            // Ending a recording needs the chunks buffered outside: the
            // driver drains them and calls `end_recording`.
            req is EndRecording ==> {
                &&& r matches Ok(a) && a is DrainCapture
                &&& final(self).work == old(self).work
                &&& final(self).recording == old(self).recording
                &&& final(self).settings == old(self).settings
                &&& final(self).gui == old(self).gui
            },
            // Save: only an idle engine serializes its history.
            req matches Request::Save { path } ==> {
                &&& final(self).work == old(self).work
                &&& final(self).recording == old(self).recording
                &&& final(self).settings == old(self).settings
                &&& final(self).gui == old(self).gui
                &&& (!(old(self).work@.phase is Idle) ==> (r matches Err(e) && e matches
                    Error::Busy { attempted_action, blocking_action } && attempted_action@
                    == "save"@ && blocking_action@ == "tts loop"@))
                &&& (old(self).work@.phase is Idle && 36 + 2 * old(self).work@.wav.len()
                    <= u32::MAX ==> (r matches Ok(a) && a matches ControlAction::SaveWav {
                    path: p,
                    bytes,
                } && p == path && bytes@ == wav_container(old(self).work@.wav, SAMPLE_RATE as int)))
                &&& (old(self).work@.phase is Idle && 36 + 2 * old(self).work@.wav.len()
                    > u32::MAX ==> (r matches Err(e) && e is PersistenceError))
            },
            req is Shutdown ==> {
                &&& r matches Ok(a) && a is Shutdown
                &&& final(self).work == old(self).work
                &&& final(self).recording == old(self).recording
                &&& final(self).settings == old(self).settings
                &&& final(self).gui == old(self).gui
            },
    {
        match req {
            Request::Cancel => {
                if !self.work.is_finished() {
                    self.work.set_finished();
                    self.gui.log("Canceled executing job", LogLevel::Warn);
                }
                Ok(ControlAction::DrainChannel)
            },
            Request::SetVoice { voice } => {
                let mut line = String::from_str("Voice changed: ");
                line.append(voice.as_str());
                self.settings.voice = voice;
                self.gui.log(line.as_str(), LogLevel::Info);
                Ok(ControlAction::Proceed)
            },
            Request::EnableAudio { enable } => {
                self.settings.audio_enabled = enable;
                if enable {
                    self.gui.log("Audio playback enabled", LogLevel::Info);
                } else {
                    self.gui.log("Audio playback disabled", LogLevel::Info);
                }
                Ok(ControlAction::Proceed)
            },
            Request::StartRecording => {
                let started = self.recording.start_recording();
                self.gui.log("Recording started", LogLevel::Info);
                if started {
                    Ok(ControlAction::OpenCapture)
                } else {
                    Ok(ControlAction::Proceed)
                }
            },
            Request::EndRecording => Ok(ControlAction::DrainCapture),
            Request::Save { path } => {
                let bytes = self.save_full_wav()?;
                Ok(ControlAction::SaveWav { path, bytes })
            },
            Request::StartJob { text, iterations } => {
                if !self.work.is_finished() {
                    return Err(
                        Error::Busy {
                            attempted_action: String::from_str("tts loop"),
                            blocking_action: String::from_str("tts loop"),
                        },
                    );
                }
                let echo_text = text.clone();
                let echo_voice = self.settings.voice.clone();
                self.gui.push_loop_start(echo_text, echo_voice, iterations);
                self.work = LoopState::start_job(text, iterations);
                Ok(ControlAction::Proceed)
            },
            Request::Shutdown => Ok(ControlAction::Shutdown),
        }
    }

    /// The outside call that advances the job by one phase step, given the
    /// current phase and settings.
    pub fn next_action(&self) -> (a: PhaseAction)
        ensures
            self.work@.phase is Synthesize ==> a is Synthesize,
            self.work@.phase is Playback && self.settings.audio_enabled ==> a is Play,
            self.work@.phase is Playback && !self.settings.audio_enabled ==> a is SkipPlayback,
            self.work@.phase is Recognize ==> a is Recognize,
            self.work@.phase is Idle ==> a is AwaitRequests,
    {
        match self.work.phase {
            Phase::Synthesize => PhaseAction::Synthesize,
            Phase::Playback => {
                if self.settings.audio_enabled {
                    PhaseAction::Play
                } else {
                    PhaseAction::SkipPlayback
                }
            },
            Phase::Recognize => PhaseAction::Recognize,
            Phase::Idle => PhaseAction::AwaitRequests,
        }
    }

    /// Record one synthesized segment: it is appended to the sample history
    /// and becomes the frame that playback and recognition work on.
    pub fn complete_synthesize(&mut self, samples: &[i16])
        requires
            old(self).wf(),
            old(self).work@.phase is Synthesize,
            old(self).work@.wav.len() + samples@.len() <= usize::MAX,
        ensures
            final(self).wf(),
            final(self).work@.phase is Playback,
            final(self).work@.wav == old(self).work@.wav + samples@,
            final(self).work@.last_frame_len == samples@.len(),
            final(self).work@.text == old(self).work@.text,
            final(self).work@.remaining_iters == old(self).work@.remaining_iters,
            final(self).recording == old(self).recording,
            final(self).settings == old(self).settings,
            final(self).gui == old(self).gui,
    {
        self.work.append_segment(samples);
        self.work.phase = Phase::Playback;
    }

    /// Playback of the most recent segment is done (or was skipped):
    /// recognition is next.
    pub fn complete_playback(&mut self)
        requires
            old(self).work@.phase is Playback,
        ensures
            final(self).work@ == (WorkView { phase: Phase::Recognize, ..old(self).work@ }),
            old(self).wf() ==> final(self).wf(),
            final(self).recording == old(self).recording,
            final(self).settings == old(self).settings,
            final(self).gui == old(self).gui,
    {
        self.work.phase = Phase::Recognize;
    }

    /// Record one recognized text: it is pushed to the sink, and it becomes
    /// the input of the next round trip unless this one was the last, in
    /// which case the job is done and the phase returns to `Idle`.
    pub fn complete_recognize(&mut self, text: String)
        requires
            old(self).wf(),
            old(self).work@.phase is Recognize,
        ensures
            final(self).wf(),
            final(self).work@.text == text@,
            final(self).work@.wav == old(self).work@.wav,
            final(self).work@.last_frame_len == old(self).work@.last_frame_len,
            final(self).work@.remaining_iters == if old(self).work@.remaining_iters > 0 {
                old(self).work@.remaining_iters - 1
            } else {
                0
            },
            final(self).work@.phase == if final(self).work@.remaining_iters == 0 {
                Phase::Idle
            } else {
                Phase::Synthesize
            },
            final(self).gui.outputs@.len() == old(self).gui.outputs@.len() + 1,
            final(self).gui.outputs@.last()@ == text@,
            final(self).gui.outputs@.subrange(0, old(self).gui.outputs@.len() as int) == old(
                self,
            ).gui.outputs@,
            final(self).gui.inputs == old(self).gui.inputs,
            final(self).gui.errors == old(self).gui.errors,
            final(self).gui.job_starts == old(self).gui.job_starts,
            final(self).work@.phase is Idle ==> logs_appended(
                &old(self).gui,
                &final(self).gui,
                LogLevel::Info,
                "Tts loop complete"@,
            ),
            final(self).work@.phase is Synthesize ==> final(self).gui.logs == old(self).gui.logs,
            final(self).recording == old(self).recording,
            final(self).settings == old(self).settings,
    {
        let next_text = text.clone();
        self.gui.push_output(text);
        self.work.text = next_text;

        self.work.remaining_iters = if self.work.remaining_iters > 0 {
            self.work.remaining_iters - 1
        } else {
            0
        };
        if self.work.remaining_iters == 0 {
            self.gui.log("Tts loop complete", LogLevel::Info);
            self.work.phase = Phase::Idle;
        } else {
            self.work.phase = Phase::Synthesize;
        }
        proof {
            assert(self.gui.outputs@.subrange(0, old(self).gui.outputs@.len() as int) =~= old(
                self,
            ).gui.outputs@);
        }
    }

    /// A phase step failed: the job is aborted (its history is kept) and
    /// the error is surfaced to the sink as an error message plus a log
    /// entry. The engine itself goes on serving requests.
    pub fn abort_job(&mut self, e: &Error)
        requires
            old(self).wf(),
        ensures
            final(self).wf(),
            final(self).work@ == cancel_outcome(old(self).work@),
            final(self).recording == old(self).recording,
            final(self).settings == old(self).settings,
            final(self).gui.errors@.len() == old(self).gui.errors@.len() + 1,
            final(self).gui.errors@.last()@ == e.message_spec(),
            final(self).gui.errors@.subrange(0, old(self).gui.errors@.len() as int) == old(
                self,
            ).gui.errors@,
            logs_appended(&old(self).gui, &final(self).gui, LogLevel::Error, e.message_spec()),
            final(self).gui.outputs == old(self).gui.outputs,
            final(self).gui.inputs == old(self).gui.inputs,
            final(self).gui.job_starts == old(self).gui.job_starts,
    {
        self.work.set_finished();
        let message = e.message();
        self.gui.log(message.as_str(), LogLevel::Error);
        self.gui.push_error(message);
        proof {
            assert(self.gui.errors@.subrange(0, old(self).gui.errors@.len() as int) =~= old(
                self,
            ).gui.errors@);
        }
    }

    /// Record what draining the regular queue after a cancellation found:
    /// when queued jobs were discarded, a cancellation notice is surfaced.
    pub fn note_cancel(&mut self, discarded: bool)
        ensures
            final(self).work == old(self).work,
            final(self).recording == old(self).recording,
            final(self).settings == old(self).settings,
            discarded ==> {
                &&& final(self).gui.errors@.len() == old(self).gui.errors@.len() + 1
                &&& final(self).gui.errors@.last()@ == "Action canceled by user"@
                &&& final(self).gui.errors@.subrange(0, old(self).gui.errors@.len() as int) == old(
                    self,
                ).gui.errors@
                &&& final(self).gui.outputs == old(self).gui.outputs
                &&& final(self).gui.inputs == old(self).gui.inputs
                &&& final(self).gui.logs == old(self).gui.logs
                &&& final(self).gui.job_starts == old(self).gui.job_starts
            },
            !discarded ==> final(self).gui == old(self).gui,
    {
        if discarded {
            let e = Error::Canceled;
            self.gui.push_error(e.message());
            proof {
                assert(self.gui.errors@.subrange(0, old(self).gui.errors@.len() as int) =~= old(
                    self,
                ).gui.errors@);
            }
        }
    }

    /// End the recording with the chunks that arrived in time. When a
    /// recording was actually ongoing, the samples are kept for
    /// recognition and the result asks the driver to recognize them.
    pub fn end_recording(&mut self, arrived: Vec<i16>) -> (stopped: bool)
        ensures
            stopped == (old(self).recording is Ongoing),
            stopped ==> {
                &&& final(self).recording matches Recorder::Finished { buf } && buf@ == arrived@
                &&& same_but_logs(&old(self).gui, &final(self).gui)
                &&& logs_appended(
                    &old(self).gui,
                    &final(self).gui,
                    LogLevel::Info,
                    "Recording stopped"@,
                )
            },
            !stopped ==> final(self).recording == old(self).recording && final(self).gui == old(
                self,
            ).gui,
            final(self).work == old(self).work,
            final(self).settings == old(self).settings,
    {
        let stopped = self.recording.stop_recording(arrived);
        if stopped {
            self.gui.log("Recording stopped", LogLevel::Info);
        }
        stopped
    }

    /// Surface the text recognized from a finished recording: it is logged
    /// and pushed towards the frontend's input box.
    pub fn push_recognized_input(&mut self, text: String)
        ensures
            final(self).work == old(self).work,
            final(self).recording == old(self).recording,
            final(self).settings == old(self).settings,
            final(self).gui.inputs@.len() == old(self).gui.inputs@.len() + 1,
            final(self).gui.inputs@.last()@ == text@,
            final(self).gui.inputs@.subrange(0, old(self).gui.inputs@.len() as int) == old(
                self,
            ).gui.inputs@,
            logs_appended(
                &old(self).gui,
                &final(self).gui,
                LogLevel::Info,
                "Recorded text: "@ + text@,
            ),
            final(self).gui.outputs == old(self).gui.outputs,
            final(self).gui.errors == old(self).gui.errors,
            final(self).gui.job_starts == old(self).gui.job_starts,
    {
        let mut line = String::from_str("Recorded text: ");
        line.append(text.as_str());
        self.gui.log(line.as_str(), LogLevel::Info);
        self.gui.push_input_text(text);
        proof {
            assert(self.gui.inputs@.subrange(0, old(self).gui.inputs@.len() as int) =~= old(
                self,
            ).gui.inputs@);
        }
    }

    /// The capture stream could not be opened: the recording is abandoned
    /// and the failure is surfaced.
    pub fn capture_failed(&mut self)
        requires
            old(self).wf(),
        ensures
            final(self).wf(),
            final(self).recording is Idle,
            final(self).work == old(self).work,
            final(self).settings == old(self).settings,
            final(self).gui.errors@.len() == old(self).gui.errors@.len() + 1,
            final(self).gui.errors@.last()@ == "Audio device error"@,
            logs_appended(&old(self).gui, &final(self).gui, LogLevel::Error, "Audio device error"@),
    {
        self.recording = Recorder::Idle;
        let e = Error::AudioError;
        let message = e.message();
        self.gui.log(message.as_str(), LogLevel::Error);
        self.gui.push_error(message);
    }

    /// Serialize the full sample history of the last completed job as a
    /// mono 16-bit PCM container at the pipeline sample rate. Fails with
    /// `Busy` while a job is active, and with `PersistenceError` on a
    /// history too large for the container.
    pub fn save_full_wav(&self) -> (r: Result<Vec<u8>, Error>)
        requires
            self.wf(),
        ensures
            !(self.work@.phase is Idle) ==> (r matches Err(e) && e matches Error::Busy {
                attempted_action,
                blocking_action,
            } && attempted_action@ == "save"@ && blocking_action@ == "tts loop"@),
            self.work@.phase is Idle && 36 + 2 * self.work@.wav.len() <= u32::MAX ==> (r matches Ok(
                bytes,
            ) && bytes@ == wav_container(self.work@.wav, SAMPLE_RATE as int)),
            self.work@.phase is Idle && 36 + 2 * self.work@.wav.len() > u32::MAX ==> (r matches Err(
                e,
            ) && e is PersistenceError),
    {
        if !self.work.is_finished() {
            return Err(
                Error::Busy {
                    attempted_action: String::from_str("save"),
                    blocking_action: String::from_str("tts loop"),
                },
            );
        }
        if self.work.wav.len() > ((u32::MAX - 36) / 2) as usize {
            return Err(Error::PersistenceError);
        }
        Ok(encode_wav_mono16(&self.work.wav, SAMPLE_RATE))
    }
}

} // verus!
