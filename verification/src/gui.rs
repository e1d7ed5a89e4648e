//! The frontend-facing output sink.
//!
//! The engine never renders a window itself: it pushes recognized text,
//! job-start echoes, error messages, and level-tagged log lines into a
//! [`GuiHandle`], and the surrounding program forwards them to whatever
//! frontend is attached. Keeping the sink as plain data lets every push be
//! specified exactly and lets the pushed history be inspected afterwards.

use vstd::prelude::*;

use crate::gui::rich_text::{Color, Format, html_escaped};

pub mod rich_text;

verus! {

/// Severity of one log line.
#[derive(Clone, Copy, Debug, PartialEq, Eq, Structural)]
pub enum LogLevel {
    Trace,
    Debug,
    Info,
    Warn,
    Error,
}

impl LogLevel {
    /// The color a log line of this level is tagged with.
    pub open spec fn color_spec(self) -> Color {
        match self {
            LogLevel::Trace => Color::Green,
            LogLevel::Debug => Color::Green,
            LogLevel::Info => Color::Blue,
            LogLevel::Warn => Color::Orange,
            LogLevel::Error => Color::Red,
        }
    }
}

/// The markup of one log line: the message, escaped, in bold, inside a span
/// colored by the level.
pub open spec fn log_markup(level: LogLevel, msg: Seq<char>) -> Seq<char> {
    "<span style=\"color:"@ + level.color_spec().name_spec() + "\">"@
        + ("<b>"@ + html_escaped(msg) + "</b>"@) + "</span>"@
}

/// Both sinks agree on everything except possibly the log lines.
pub open spec fn same_but_logs(a: &GuiHandle, b: &GuiHandle) -> bool {
    &&& a.outputs == b.outputs
    &&& a.inputs == b.inputs
    &&& a.errors == b.errors
    &&& a.job_starts == b.job_starts
}

/// `b` is `a` with exactly one log line of the given level and message
/// appended.
pub open spec fn logs_appended(a: &GuiHandle, b: &GuiHandle, level: LogLevel, msg: Seq<char>) -> bool {
    &&& b.logs@.len() == a.logs@.len() + 1
    &&& b.logs@[a.logs@.len() as int]@ == log_markup(level, msg)
    &&& b.logs@.subrange(0, a.logs@.len() as int) == a.logs@
}

/// The echo of one started job.
pub struct JobStart {
    pub text: String,
    pub voice: String,
    pub iterations: usize,
}

/// Everything the engine has pushed towards the frontend, in push order per
/// category.
pub struct GuiHandle {
    /// Recognized text produced by job round trips.
    pub outputs: Vec<String>,
    /// Recognized text produced from finished recordings, destined for the
    /// frontend's input box.
    pub inputs: Vec<String>,
    /// User-visible error messages.
    pub errors: Vec<String>,
    /// Rendered log lines (see [`log_markup`]).
    pub logs: Vec<String>,
    /// Job-start echoes.
    pub job_starts: Vec<JobStart>,
}

impl GuiHandle {
    /// An empty sink: nothing pushed yet.
    pub fn new() -> (r: GuiHandle)
        ensures
            r.outputs@ == Seq::<String>::empty(),
            r.inputs@ == Seq::<String>::empty(),
            r.errors@ == Seq::<String>::empty(),
            r.logs@ == Seq::<String>::empty(),
            r.job_starts@ == Seq::<JobStart>::empty(),
    {
        GuiHandle {
            outputs: Vec::new(),
            inputs: Vec::new(),
            errors: Vec::new(),
            logs: Vec::new(),
            job_starts: Vec::new(),
        }
    }

    /// Push one recognized string produced by a job.
    pub fn push_output(&mut self, text: String)
        ensures
            final(self).outputs@ == old(self).outputs@.push(text),
            final(self).inputs == old(self).inputs,
            final(self).errors == old(self).errors,
            final(self).logs == old(self).logs,
            final(self).job_starts == old(self).job_starts,
    {
        self.outputs.push(text);
    }

    /// Push one recognized string produced from a finished recording.
    pub fn push_input_text(&mut self, text: String)
        ensures
            final(self).inputs@ == old(self).inputs@.push(text),
            final(self).outputs == old(self).outputs,
            final(self).errors == old(self).errors,
            final(self).logs == old(self).logs,
            final(self).job_starts == old(self).job_starts,
    {
        self.inputs.push(text);
    }

    /// Push one user-visible error message.
    pub fn push_error(&mut self, text: String)
        ensures
            final(self).errors@ == old(self).errors@.push(text),
            final(self).outputs == old(self).outputs,
            final(self).inputs == old(self).inputs,
            final(self).logs == old(self).logs,
            final(self).job_starts == old(self).job_starts,
    {
        self.errors.push(text);
    }

    /// Echo one started job.
    pub fn push_loop_start(&mut self, text: String, voice: String, iterations: usize)
        ensures
            final(self).job_starts@.len() == old(self).job_starts@.len() + 1,
            final(self).job_starts@[old(self).job_starts@.len() as int].text == text,
            final(self).job_starts@[old(self).job_starts@.len() as int].voice == voice,
            final(self).job_starts@[old(self).job_starts@.len() as int].iterations == iterations,
            final(self).job_starts@.subrange(0, old(self).job_starts@.len() as int) == old(
                self,
            ).job_starts@,
            final(self).outputs == old(self).outputs,
            final(self).inputs == old(self).inputs,
            final(self).errors == old(self).errors,
            final(self).logs == old(self).logs,
    {
        self.job_starts.push(JobStart { text, voice, iterations });
        proof {
            assert(self.job_starts@.subrange(0, old(self).job_starts@.len() as int) =~= old(
                self,
            ).job_starts@);
        }
    }

    /// Push one log line, rendered as rich text tagged by level.
    pub fn log(&mut self, text: &str, level: LogLevel)
        ensures
            logs_appended(old(self), final(self), level, text@),
            same_but_logs(old(self), final(self)),
    {
        let encoded = Format::bold(Format::text(text));
        let color = match level {
            LogLevel::Trace => Color::Green,
            LogLevel::Debug => Color::Green,
            LogLevel::Info => Color::Blue,
            LogLevel::Warn => Color::Orange,
            LogLevel::Error => Color::Red,
        };
        let encoded = Format::color(color, encoded);
        let line = (*encoded).into_string();
        self.logs.push(line);
        proof {
            assert(self.logs@.subrange(0, old(self).logs@.len() as int) =~= old(self).logs@);
        }
    }
}

} // verus!
