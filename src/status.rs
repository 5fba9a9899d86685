//! Status lines streamed by the worker while it creates a container, and the
//! log events they become.

use crate::log::{level_tag, LogType};
use crate::text::same_text;
use vstd::prelude::*;

verus! {

/// The line that a worker stream ends with.
pub const STREAM_DONE: &'static str = "__DONE__";

/// A decoded status update: `{image, status, progress?, error}`.
#[derive(Clone, Debug)]
pub struct ImageStatus {
    pub image: String,
    pub status: String,
    pub progress: Option<String>,
    pub error: String,
}

/// The known values of a status update's `status` field.
#[derive(Clone, Copy, Debug, PartialEq, Eq, Structural)]
pub enum PullStatus {
    Pulling,
    Downloading,
    Completed,
    Exists,
    Failed,
    Running,
    Created,
    Unrecognized,
}

pub open spec fn pull_status(s: Seq<char>) -> PullStatus {
    if s == "pulling"@ {
        PullStatus::Pulling
    } else if s == "downloading"@ {
        PullStatus::Downloading
    } else if s == "completed"@ {
        PullStatus::Completed
    } else if s == "exists"@ {
        PullStatus::Exists
    } else if s == "error"@ {
        PullStatus::Failed
    } else if s == "running"@ {
        PullStatus::Running
    } else if s == "created"@ {
        PullStatus::Created
    } else {
        PullStatus::Unrecognized
    }
}

/// Classifies a `status` field.
pub fn classify(s: &str) -> (r: PullStatus)
    ensures
        r == pull_status(s@),
{
    if same_text(s, "pulling") {
        PullStatus::Pulling
    } else if same_text(s, "downloading") {
        PullStatus::Downloading
    } else if same_text(s, "completed") {
        PullStatus::Completed
    } else if same_text(s, "exists") {
        PullStatus::Exists
    } else if same_text(s, "error") {
        PullStatus::Failed
    } else if same_text(s, "running") {
        PullStatus::Running
    } else if same_text(s, "created") {
        PullStatus::Created
    } else {
        PullStatus::Unrecognized
    }
}

/// One line of a worker stream, with its decoding as a status update when it
/// is one.
#[derive(Clone, Debug)]
pub struct StreamLine {
    pub text: String,
    pub status: Option<ImageStatus>,
}

/// The log event for a status update that arrived as `line`.
pub open spec fn status_event(st: ImageStatus, line: Seq<char>) -> (LogType, Seq<char>) {
    match pull_status(st.status@) {
        PullStatus::Pulling => (LogType::Info, "Pulling image: "@ + st.image@),
        PullStatus::Downloading => (
            LogType::Info,
            match st.progress {
                Some(p) => p@,
                None => "Downloading..."@,
            },
        ),
        PullStatus::Completed => (LogType::Info, "Pull complete: "@ + st.image@),
        PullStatus::Exists => (LogType::Info, "Image exists: "@ + st.image@),
        PullStatus::Failed => (LogType::Error, "Pull failed: "@ + st.error@),
        PullStatus::Running => (LogType::Info, "Container "@ + st.status@),
        PullStatus::Created => (LogType::Info, "Container "@ + st.status@),
        PullStatus::Unrecognized => (LogType::Info, line),
    }
}

/// The log event for one stream line: a status update as its kind says, any
/// other line verbatim.
pub open spec fn line_event(l: StreamLine) -> (LogType, Seq<char>) {
    match l.status {
        Some(st) => status_event(st, l.text@),
        None => (LogType::Info, l.text@),
    }
}

/// The event as the log holds it.
pub open spec fn logged_event(l: StreamLine) -> (Seq<char>, Seq<char>) {
    (level_tag(line_event(l).0), line_event(l).1)
}

pub open spec fn is_done(l: StreamLine) -> bool {
    l.text@ == STREAM_DONE@
}

/// Whether the lines hold the end of the stream.
pub open spec fn stream_ends(lines: Seq<StreamLine>) -> bool {
    exists|i: int| 0 <= i < lines.len() && is_done(#[trigger] lines[i])
}

/// The log events of the lines before the end of the stream.
pub open spec fn stream_events(lines: Seq<StreamLine>) -> Seq<(Seq<char>, Seq<char>)>
    decreases lines.len(),
{
    if lines.len() == 0 || is_done(lines[0]) {
        Seq::empty()
    } else {
        seq![logged_event(lines[0])] + stream_events(lines.drop_first())
    }
}

/// The log event for one stream line.
pub fn line_message(l: &StreamLine) -> (r: (LogType, String))
    ensures
        r.0 == line_event(*l).0,
        r.1@ == line_event(*l).1,
{
    match &l.status {
        None => (LogType::Info, l.text.clone()),
        Some(st) => {
            let kind = classify(st.status.as_str());
            match kind {
                PullStatus::Pulling => (LogType::Info, String::from_str("Pulling image: ").concat(st.image.as_str())),
                PullStatus::Downloading => match &st.progress {
                    Some(p) => (LogType::Info, p.clone()),
                    None => (LogType::Info, String::from_str("Downloading...")),
                },
                PullStatus::Completed => (LogType::Info, String::from_str("Pull complete: ").concat(st.image.as_str())),
                PullStatus::Exists => (LogType::Info, String::from_str("Image exists: ").concat(st.image.as_str())),
                PullStatus::Failed => (LogType::Error, String::from_str("Pull failed: ").concat(st.error.as_str())),
                PullStatus::Running | PullStatus::Created => (
                    LogType::Info,
                    String::from_str("Container ").concat(st.status.as_str()),
                ),
                PullStatus::Unrecognized => (LogType::Info, l.text.clone()),
            }
        },
    }
}

/// Whether a line ends the stream.
pub fn ends_stream(l: &StreamLine) -> (r: bool)
    ensures
        r == is_done(*l),
{
    same_text(l.text.as_str(), STREAM_DONE)
}

} // verus!
