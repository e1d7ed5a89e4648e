//! Control and job requests sent from the frontend to the engine.

use vstd::prelude::*;

verus! {

/// One request from the frontend. Each value is consumed exactly once by the
/// engine. `StartJob` begins a synthesize/playback/recognize round trip over
/// `text`, repeated `iterations` times; all other variants are control
/// commands that the channel services ahead of queued jobs.
pub enum Request {
    StartJob { text: String, iterations: usize },
    SetVoice { voice: String },
    EnableAudio { enable: bool },
    Cancel,
    Shutdown,
    Save { path: String },
    StartRecording,
    EndRecording,
}

impl Request {
    /// Priority requests are served before queued jobs and cannot be
    /// discarded by a cancellation.
    pub open spec fn is_priority_spec(&self) -> bool {
        !(*self is StartJob)
    }

    /// Runtime test matching [`Request::is_priority_spec`].
    pub fn is_priority_action(&self) -> (r: bool)
        ensures
            r == self.is_priority_spec(),
    {
        match *self {
            Request::StartJob { .. } => false,
            Request::SetVoice { .. }
            | Request::EnableAudio { .. }
            | Request::Cancel
            | Request::Shutdown
            | Request::Save { .. }
            | Request::StartRecording
            | Request::EndRecording => true,
        }
    }
}

} // verus!
