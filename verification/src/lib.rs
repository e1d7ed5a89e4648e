//! A cooperative job-execution engine for a speech round-trip pipeline:
//! text is synthesized to samples, optionally played back, and recognized
//! back to text, while the worker stays responsive to control commands
//! (cancel, voice changes, recording, saving) sent from a frontend.

pub mod channel;
pub mod engine;
pub mod errors;
pub mod gui;
pub mod loop_state;
pub mod recorder;
pub mod request;
pub mod wav;

pub use channel::Receiver;
pub use channel::Sender;
pub use channel::channel;
pub use engine::SAMPLE_RATE;
pub use engine::TtsLooper;
pub use errors::Error;
pub use gui::GuiHandle;
pub use request::Request;
