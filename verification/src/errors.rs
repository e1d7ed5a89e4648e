//! Error taxonomy of the engine.

use vstd::prelude::*;

verus! {

/// Everything that can go wrong while the engine serves requests. Step
/// errors abort only the current job; none of them terminates the engine.
#[derive(Debug, Clone, PartialEq, Eq)]
pub enum Error {
    /// The synthesis engine rejected the text or the voice.
    SynthesisError,
    /// The recognition engine failed on a sample buffer.
    RecognitionError,
    /// The audio device rejected the stream or the format.
    AudioError,
    /// The user canceled the activity; not a fault.
    Canceled,
    /// The request conflicts with an activity that is still running.
    Busy { attempted_action: String, blocking_action: String },
    /// Recognition was requested while a recording is still ongoing.
    CurrentlyRecording,
    /// No recorded data is available.
    NoData,
    /// The sample history could not be serialized.
    PersistenceError,
}

impl Error {
    /// The user-visible message for this error.
    pub open spec fn message_spec(&self) -> Seq<char> {
        match self {
            Error::SynthesisError => "Speech synthesis failed"@,
            Error::RecognitionError => "Speech recognition failed"@,
            Error::AudioError => "Audio device error"@,
            Error::Canceled => "Action canceled by user"@,
            Error::Busy { attempted_action, blocking_action } => "Cannot execute "@
                + attempted_action@ + " while "@ + blocking_action@ + " is running"@,
            Error::CurrentlyRecording => "Recording in progress"@,
            Error::NoData => "Data not available"@,
            Error::PersistenceError => "Failed to write wav data"@,
        }
    }

    /// Render the user-visible message.
    pub fn message(&self) -> (r: String)
        ensures
            r@ == self.message_spec(),
    {
        match self {
            Error::SynthesisError => String::from_str("Speech synthesis failed"),
            Error::RecognitionError => String::from_str("Speech recognition failed"),
            Error::AudioError => String::from_str("Audio device error"),
            Error::Canceled => String::from_str("Action canceled by user"),
            Error::Busy { attempted_action, blocking_action } => {
                let mut r = String::from_str("Cannot execute ");
                r.append(attempted_action.as_str());
                r.append(" while ");
                r.append(blocking_action.as_str());
                r.append(" is running");
                r
            },
            Error::CurrentlyRecording => String::from_str("Recording in progress"),
            Error::NoData => String::from_str("Data not available"),
            Error::PersistenceError => String::from_str("Failed to write wav data"),
        }
    }
}

} // verus!
