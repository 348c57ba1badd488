//! What passes between the upload state machine and whoever drives it.
//!
//! The driver owns the request body, the multipart decoder and the open
//! file. It performs one [`Action`] at a time and reports what came of it as
//! an [`Event`]; the state machine decides what is done next.
use vstd::prelude::*;
use crate::reply::{Reply, ReplyView};

verus! {

/// What the driver reports to the state machine.
#[derive(Clone, Debug, PartialEq, Eq)]
pub enum Event {
    /// A request arrived: the body length its header declares, if any, and
    /// the `boundary` parameter of its content type, if any.
    Request { declared_length: Option<u64>, boundary: Option<String> },
    /// The decoder read the headers of the next part; `filename` is the
    /// filename they carry, if any.
    PartStart { filename: Option<String> },
    /// The decoder produced the next piece of the current part's content.
    Chunk { data: Vec<u8> },
    /// The content of the current part ended at a delimiter.
    PartEnd,
    /// The closing delimiter was read: no further part follows.
    BodyEnd,
    /// The decoder gave up: the framing is malformed, or the body ended
    /// before a delimiter was found.
    DecodeFailed,
    /// The file operation that was asked for succeeded.
    IoDone,
    /// The file operation that was asked for failed.
    IoFailed,
}

/// What the state machine asks the driver to do next.
#[derive(Clone, Debug, PartialEq, Eq)]
pub enum Action {
    /// Set up the decoder over the request body with this boundary token and
    /// pull the first part. Answered like [`Action::NextPart`].
    StartDecoding { boundary: String },
    /// Pull the next part. Answered by `PartStart`, `BodyEnd` or
    /// `DecodeFailed`.
    NextPart,
    /// Create the file `name`, or truncate it if it exists. The name is the
    /// part's filename exactly as the client sent it. Answered by `IoDone`
    /// or `IoFailed`.
    CreateFile { name: String },
    /// Pull the next piece of the current part. Answered by `Chunk`,
    /// `PartEnd` or `DecodeFailed`.
    NextChunk,
    /// Append `data` to the open file. Answered by `IoDone` or `IoFailed`.
    WriteChunk { data: Vec<u8> },
    /// Flush and close the open file. Answered by `IoDone` or `IoFailed`.
    CloseFile,
    /// Send `reply` and stop; a file that is still open is abandoned as it
    /// is.
    Respond { reply: Reply },
}

/// An [`Event`] as a mathematical value.
pub enum EventView {
    Request { declared_length: Option<u64>, boundary: Option<Seq<char>> },
    PartStart { filename: Option<Seq<char>> },
    Chunk { data: Seq<u8> },
    PartEnd,
    BodyEnd,
    DecodeFailed,
    IoDone,
    IoFailed,
}

/// An [`Action`] as a mathematical value.
pub enum ActionView {
    StartDecoding { boundary: Seq<char> },
    NextPart,
    CreateFile { name: Seq<char> },
    NextChunk,
    WriteChunk { data: Seq<u8> },
    CloseFile,
    Respond { reply: ReplyView },
}

/// The characters of an optional string.
pub open spec fn text_of(s: Option<String>) -> Option<Seq<char>> {
    match s {
        Some(t) => Some(t@),
        None => None,
    }
}

/// Whether an optional string is there and not empty.
pub open spec fn present(s: Option<Seq<char>>) -> bool {
    s is Some && s->0.len() > 0
}

impl View for Event {
    type V = EventView;

    open spec fn view(&self) -> EventView {
        match *self {
            Event::Request { declared_length, boundary } => EventView::Request {
                declared_length,
                boundary: text_of(boundary),
            },
            Event::PartStart { filename } => EventView::PartStart { filename: text_of(filename) },
            Event::Chunk { data } => EventView::Chunk { data: data@ },
            Event::PartEnd => EventView::PartEnd,
            Event::BodyEnd => EventView::BodyEnd,
            Event::DecodeFailed => EventView::DecodeFailed,
            Event::IoDone => EventView::IoDone,
            Event::IoFailed => EventView::IoFailed,
        }
    }
}

impl View for Action {
    type V = ActionView;

    open spec fn view(&self) -> ActionView {
        match *self {
            Action::StartDecoding { boundary } => ActionView::StartDecoding { boundary: boundary@ },
            Action::NextPart => ActionView::NextPart,
            Action::CreateFile { name } => ActionView::CreateFile { name: name@ },
            Action::NextChunk => ActionView::NextChunk,
            Action::WriteChunk { data } => ActionView::WriteChunk { data: data@ },
            Action::CloseFile => ActionView::CloseFile,
            Action::Respond { reply } => ActionView::Respond { reply: reply@ },
        }
    }
}

impl ActionView {
    /// Whether performing this action touches a file.
    pub open spec fn touches_disk(self) -> bool {
        self is CreateFile || self is WriteChunk || self is CloseFile
    }
}

} // verus!
