//! Audio-capture state machine, independent of the job pipeline.
//!
//! While a recording is ongoing, captured chunks arrive asynchronously on an
//! audio-subsystem thread and are buffered outside the engine; ending the
//! recording hands the engine whatever has arrived by that time, without
//! blocking for more.

use vstd::prelude::*;

verus! {

/// The capture state. `Ongoing` means a capture stream is open and chunks
/// are being buffered; `Finished` holds the samples drained when the
/// recording ended.
pub enum Recorder {
    Idle,
    Ongoing,
    Finished { buf: Vec<i16> },
}

impl Recorder {
    /// Start capturing. Idempotent: a recording that is already ongoing is
    /// left alone, so no duplicate capture stream is ever requested. The
    /// result says whether a capture stream must be opened.
    pub fn start_recording(&mut self) -> (started: bool)
        ensures
            *final(self) is Ongoing,
            started == !(*old(self) is Ongoing),
    {
        match self {
            Recorder::Ongoing => false,
            Recorder::Idle | Recorder::Finished { .. } => {
                *self = Recorder::Ongoing;
                true
            },
        }
    }

    /// Stop capturing, keeping exactly the chunks that arrived in time:
    /// `arrived` is what the capture buffer held when the recording ended,
    /// possibly nothing. Ending a recording that is not ongoing is a no-op.
    /// The result says whether a recording was actually ended.
    pub fn stop_recording(&mut self, arrived: Vec<i16>) -> (stopped: bool)
        ensures
            *old(self) is Ongoing ==> {
                &&& *final(self) matches Recorder::Finished { buf } && buf@ == arrived@
                &&& stopped
            },
            !(*old(self) is Ongoing) ==> *final(self) == *old(self) && !stopped,
    {
        match self {
            Recorder::Idle | Recorder::Finished { .. } => false,
            Recorder::Ongoing => {
                *self = Recorder::Finished { buf: arrived };
                true
            },
        }
    }

    /// The samples of the finished recording, for recognition. Fails while
    /// a recording is still ongoing, and when nothing was ever recorded.
    pub fn recorded_samples(&self) -> (r: Result<&Vec<i16>, crate::errors::Error>)
        ensures
            self is Ongoing ==> (r matches Err(e) && e is CurrentlyRecording),
            self is Idle ==> (r matches Err(e) && e is NoData),
            self matches Recorder::Finished { buf } ==> (r matches Ok(b) && b@ == buf@),
    {
        match self {
            Recorder::Ongoing => Err(crate::errors::Error::CurrentlyRecording),
            Recorder::Idle => Err(crate::errors::Error::NoData),
            Recorder::Finished { buf } => Ok(buf),
        }
    }
}

} // verus!
