//! The per-request upload state machine.
//!
//! One [`Upload`] lives as long as one request. It starts out awaiting the
//! request, and every [`Event`] moves it one step: through the size limiter
//! and the boundary check, then part by part through the body, until it has
//! answered. Parts are handled strictly one after the other.
//!
//! Two policies are fixed here. The first failure of any kind ends the whole
//! request: files stored before it stay, the file being written is left as
//! it is, and the reply reports the failure, never a partial success. And a
//! part's filename is handed on to the driver character for character: the
//! state machine neither rejects nor rewrites a name, so confining names to
//! the working directory is the driver's business.
use vstd::prelude::*;
use crate::content_type::{boundary_of, header_boundary, require_boundary};
use crate::error::{UploadError, STATUS_INTERNAL_ERROR, STATUS_OK};
use crate::limit::{admission, check_length};
use crate::protocol::{present, text_of, Action, ActionView, Event, EventView};
use crate::reply::{failure_reply, success_reply, Reply, UploadResult};

verus! {

/// Where a request stands.
#[derive(Clone, Copy, Debug, PartialEq, Eq, Structural)]
pub enum Phase {
    /// Nothing is known of the request yet.
    AwaitingBody,
    /// The decoder was asked for the next part.
    AwaitingHeaders,
    /// The file for the current part is being created.
    OpeningFile,
    /// The decoder was asked for the next piece of the current part.
    StreamingContent,
    /// A piece of the current part is being written.
    WritingChunk,
    /// The current part ended and its file is being closed.
    PartDone,
    /// The whole body was processed and the confirmation was given.
    Completed,
    /// The request was refused or aborted, for the reason given.
    Failed(UploadError),
}

/// An [`Upload`] as a mathematical value.
pub struct UploadView {
    /// The configured ceiling on the declared body length; zero for none.
    pub ceiling: u64,
    /// Where the request stands.
    pub phase: Phase,
    /// The names of the files stored so far, oldest first.
    pub saved: Seq<Seq<char>>,
    /// The name of the file that the current part goes to, if it goes to
    /// one.
    pub current: Option<Seq<char>>,
}

impl UploadView {
    /// The state of a request of which nothing is known yet.
    pub open spec fn fresh(ceiling: u64) -> UploadView {
        UploadView {
            ceiling,
            phase: Phase::AwaitingBody,
            saved: Seq::empty(),
            current: None,
        }
    }

    /// Whether the request has been answered.
    pub open spec fn is_terminal(self) -> bool {
        self.phase is Completed || self.phase is Failed
    }

    /// The states that a request can be in: a file name is held exactly while
    /// a file is open or being opened, and nothing is stored before the
    /// request is admitted.
    pub open spec fn wf(self) -> bool {
        match self.phase {
            Phase::AwaitingBody => self.current is None && self.saved.len() == 0,
            Phase::AwaitingHeaders => self.current is None,
            Phase::OpeningFile => present(self.current),
            Phase::StreamingContent => self.current is None || present(self.current),
            Phase::WritingChunk => present(self.current),
            Phase::PartDone => present(self.current),
            Phase::Completed => self.current is None,
            Phase::Failed(_) => self.current is None,
        }
    }
}

/// The request fails with `e`: whatever was in progress is abandoned and the
/// error is reported.
pub open spec fn halt(m: UploadView, e: UploadError) -> (UploadView, ActionView) {
    (
        UploadView { phase: Phase::Failed(e), current: None, ..m },
        ActionView::Respond { reply: failure_reply(e) },
    )
}

/// The request moves on to `phase` and asks for `action`.
pub open spec fn go(m: UploadView, phase: Phase, action: ActionView) -> (UploadView, ActionView) {
    (UploadView { phase, ..m }, action)
}

/// The transition function: the state that follows `m` when the driver
/// reports `ev`, and what the driver is asked to do next.
pub open spec fn next(m: UploadView, ev: EventView) -> (UploadView, ActionView) {
    match m.phase {
        Phase::AwaitingBody => match ev {
            EventView::Request { declared_length, boundary } => match admission(
                declared_length,
                m.ceiling,
            ) {
                Err(e) => halt(m, e),
                Ok(_) => if present(boundary) {
                    go(
                        m,
                        Phase::AwaitingHeaders,
                        ActionView::StartDecoding { boundary: boundary->0 },
                    )
                } else {
                    halt(m, UploadError::MissingBoundary)
                },
            },
            _ => halt(m, UploadError::OutOfOrder),
        },
        Phase::AwaitingHeaders => match ev {
            EventView::PartStart { filename } => if present(filename) {
                (
                    UploadView { phase: Phase::OpeningFile, current: filename, ..m },
                    ActionView::CreateFile { name: filename->0 },
                )
            } else {
                go(m, Phase::StreamingContent, ActionView::NextChunk)
            },
            EventView::BodyEnd => go(
                m,
                Phase::Completed,
                ActionView::Respond { reply: success_reply(m.saved) },
            ),
            EventView::DecodeFailed => halt(m, UploadError::Decode),
            _ => halt(m, UploadError::OutOfOrder),
        },
        Phase::OpeningFile => match ev {
            EventView::IoDone => go(m, Phase::StreamingContent, ActionView::NextChunk),
            EventView::IoFailed => halt(m, UploadError::Io),
            _ => halt(m, UploadError::OutOfOrder),
        },
        Phase::StreamingContent => match ev {
            EventView::Chunk { data } => if m.current is Some {
                go(m, Phase::WritingChunk, ActionView::WriteChunk { data })
            } else {
                go(m, Phase::StreamingContent, ActionView::NextChunk)
            },
            EventView::PartEnd => if m.current is Some {
                go(m, Phase::PartDone, ActionView::CloseFile)
            } else {
                go(m, Phase::AwaitingHeaders, ActionView::NextPart)
            },
            EventView::DecodeFailed => halt(m, UploadError::Decode),
            _ => halt(m, UploadError::OutOfOrder),
        },
        Phase::WritingChunk => match ev {
            EventView::IoDone => go(m, Phase::StreamingContent, ActionView::NextChunk),
            EventView::IoFailed => halt(m, UploadError::Io),
            _ => halt(m, UploadError::OutOfOrder),
        },
        Phase::PartDone => match ev {
            EventView::IoDone => (
                UploadView {
                    phase: Phase::AwaitingHeaders,
                    saved: m.saved.push(m.current->0),
                    current: None,
                    ..m
                },
                ActionView::NextPart,
            ),
            EventView::IoFailed => halt(m, UploadError::Io),
            _ => halt(m, UploadError::OutOfOrder),
        },
        Phase::Completed => (m, ActionView::Respond { reply: success_reply(m.saved) }),
        Phase::Failed(e) => (m, ActionView::Respond { reply: failure_reply(e) }),
    }
}

/// Every step leads from a state that a request can be in to another such
/// state.
pub proof fn next_keeps_well_formed(m: UploadView, ev: EventView)
    requires
        m.wf(),
    ensures
        next(m, ev).0.wf(),
        next(m, ev).0.ceiling == m.ceiling,
{
}

/// An answered request stays answered: whatever is reported afterwards, the
/// state does not change and the same reply is given again.
pub proof fn answered_requests_stay_answered(m: UploadView, ev: EventView)
    requires
        m.is_terminal(),
    ensures
        next(m, ev).0 == m,
        next(m, ev).1 is Respond,
        m.phase is Failed ==> next(m, ev).1 == (ActionView::Respond {
            reply: failure_reply(m.phase->Failed_0),
        }),
{
}

/// A reply is given exactly when the request reaches a final state, and it
/// reports success exactly when that state is `Completed`; a failed request
/// is answered with the status of its error.
pub proof fn replies_tell_the_outcome(m: UploadView, ev: EventView)
    ensures
        next(m, ev).1 is Respond <==> next(m, ev).0.is_terminal(),
        next(m, ev).1 matches ActionView::Respond { reply } ==> (reply.status == STATUS_OK
            <==> next(m, ev).0.phase is Completed),
        next(m, ev).0.phase matches Phase::Failed(e) ==> next(m, ev).1 == (ActionView::Respond {
            reply: failure_reply(e),
        }),
{
}

/// No file is touched on behalf of a request that has not been admitted or
/// that has been answered: the decision on the request itself never asks
/// for a file operation, and neither does any step after the reply.
pub proof fn files_are_touched_only_while_parsing(m: UploadView, ev: EventView)
    requires
        m.phase is AwaitingBody || m.is_terminal(),
    ensures
        !next(m, ev).1.touches_disk(),
{
}

/// The list of stored files only ever grows, and it grows by one name
/// exactly when the file of a part has been closed successfully.
pub proof fn names_are_recorded_on_close(m: UploadView, ev: EventView)
    ensures
        next(m, ev).0.saved == if m.phase is PartDone && ev is IoDone {
            m.saved.push(m.current->0)
        } else {
            m.saved
        },
{
}

/// A decode failure reported while the body is being parsed fails the
/// request with a server error and records nothing.
pub proof fn decode_failure_is_fatal(m: UploadView)
    requires
        m.phase is AwaitingHeaders || m.phase is StreamingContent,
    ensures
        next(m, EventView::DecodeFailed).0.phase == Phase::Failed(UploadError::Decode),
        next(m, EventView::DecodeFailed).0.saved == m.saved,
        next(m, EventView::DecodeFailed).1 == (ActionView::Respond {
            reply: failure_reply(UploadError::Decode),
        }),
        failure_reply(UploadError::Decode).status == STATUS_INTERNAL_ERROR,
{
}

/// A failed file operation fails the request with a server error and
/// records nothing.
pub proof fn io_failure_is_fatal(m: UploadView)
    requires
        m.phase is OpeningFile || m.phase is WritingChunk || m.phase is PartDone,
    ensures
        next(m, EventView::IoFailed).0.phase == Phase::Failed(UploadError::Io),
        next(m, EventView::IoFailed).0.saved == m.saved,
        next(m, EventView::IoFailed).1 == (ActionView::Respond {
            reply: failure_reply(UploadError::Io),
        }),
{
}

/// The state of one upload request.
pub struct Upload {
    ceiling: u64,
    phase: Phase,
    saved: UploadResult,
    current: Option<String>,
}

impl View for Upload {
    type V = UploadView;

    closed spec fn view(&self) -> UploadView {
        UploadView {
            ceiling: self.ceiling,
            phase: self.phase,
            saved: self.saved@,
            current: text_of(self.current),
        }
    }
}

impl Upload {
    #[verifier::type_invariant]
    spec fn inv(&self) -> bool {
        self@.wf()
    }

    /// The state machine for a request that has just arrived, under the
    /// ceiling `ceiling` on declared body lengths (zero for none).
    pub fn new(ceiling: u64) -> (upload: Upload)
        ensures
            upload@ == UploadView::fresh(ceiling),
    {
        Upload { ceiling, phase: Phase::AwaitingBody, saved: UploadResult::new(), current: None }
    }

    /// Where the request stands.
    pub fn phase(&self) -> (phase: Phase)
        ensures
            phase == self@.phase,
    {
        self.phase
    }

    /// The configured ceiling.
    pub fn ceiling(&self) -> (ceiling: u64)
        ensures
            ceiling == self@.ceiling,
    {
        self.ceiling
    }

    /// Whether the request has been answered.
    pub fn is_terminal(&self) -> (done: bool)
        ensures
            done == self@.is_terminal(),
    {
        match self.phase {
            Phase::Completed => true,
            Phase::Failed(_) => true,
            _ => false,
        }
    }

    /// The files stored so far.
    pub fn result(&self) -> (result: &UploadResult)
        ensures
            result@ == self@.saved,
    {
        &self.saved
    }

    /// Fails the request with `e`.
    fn fail(self, e: UploadError) -> (out: (Upload, Action))
        ensures
            (out.0@, out.1@) == halt(self@, e),
    {
        let Upload { ceiling, phase: _, saved, current: _ } = self;
        (
            Upload { ceiling, phase: Phase::Failed(e), saved, current: None },
            Action::Respond { reply: Reply::failure(e) },
        )
    }

    /// Moves on to a phase in which no file is open.
    fn idle(self, phase: Phase, action: Action) -> (out: (Upload, Action))
        requires
            phase is AwaitingHeaders || phase is Completed || (phase is StreamingContent
                && self@.current is None),
        ensures
            out.0@ == (UploadView { phase, current: None, ..self@ }),
            out.1 == action,
    {
        let Upload { ceiling, phase: _, saved, current: _ } = self;
        (Upload { ceiling, phase, saved, current: None }, action)
    }

    /// Moves on to another phase of the part whose file is open.
    fn hold(self, phase: Phase, action: Action) -> (out: (Upload, Action))
        requires
            present(self@.current),
            phase is StreamingContent || phase is WritingChunk || phase is PartDone,
        ensures
            out.0@ == (UploadView { phase, ..self@ }),
            out.1 == action,
    {
        let Upload { ceiling, phase: _, saved, current } = self;
        (Upload { ceiling, phase, saved, current }, action)
    }

    /// Admits a request: reads the boundary token out of its content-type
    /// header, if it has one, and takes the first step with it and with the
    /// body length that the request declares.
    pub fn begin(self, declared_length: Option<u64>, content_type: Option<&str>) -> (out: (
        Upload,
        Action,
    ))
        ensures
            (out.0@, out.1@) == next(
                self@,
                EventView::Request {
                    declared_length,
                    boundary: header_boundary(
                        match content_type {
                            Some(value) => Some(value@),
                            None => None,
                        },
                    ),
                },
            ),
            out.0@.wf(),
    {
        let boundary = boundary_of(content_type);
        self.step(Event::Request { declared_length, boundary })
    }

    /// Takes one step: consumes what the driver reports and says what it is
    /// to do next.
    pub fn step(self, event: Event) -> (out: (Upload, Action))
        ensures
            (out.0@, out.1@) == next(self@, event@),
            out.0@.wf(),
    {
        proof {
            use_type_invariant(&self);
        }
        let (upload, action) = match self.phase {
            Phase::AwaitingBody => match event {
                Event::Request { declared_length, boundary } => match check_length(
                    declared_length,
                    self.ceiling,
                ) {
                    Err(e) => self.fail(e),
                    Ok(_) => match require_boundary(boundary) {
                        Ok(token) => self.idle(
                            Phase::AwaitingHeaders,
                            Action::StartDecoding { boundary: token },
                        ),
                        Err(e) => self.fail(e),
                    },
                },
                _ => self.fail(UploadError::OutOfOrder),
            },
            Phase::AwaitingHeaders => match event {
                Event::PartStart { filename } => match filename {
                    Some(name) => if !name.as_str().is_empty() {
                        let Upload { ceiling, phase: _, saved, current: _ } = self;
                        let target = name.clone();
                        (
                            Upload {
                                ceiling,
                                phase: Phase::OpeningFile,
                                saved,
                                current: Some(name),
                            },
                            Action::CreateFile { name: target },
                        )
                    } else {
                        self.idle(Phase::StreamingContent, Action::NextChunk)
                    },
                    None => self.idle(Phase::StreamingContent, Action::NextChunk),
                },
                Event::BodyEnd => {
                    let reply = Reply::success(&self.saved);
                    self.idle(Phase::Completed, Action::Respond { reply })
                },
                Event::DecodeFailed => self.fail(UploadError::Decode),
                _ => self.fail(UploadError::OutOfOrder),
            },
            Phase::OpeningFile => match event {
                Event::IoDone => self.hold(Phase::StreamingContent, Action::NextChunk),
                Event::IoFailed => self.fail(UploadError::Io),
                _ => self.fail(UploadError::OutOfOrder),
            },
            Phase::StreamingContent => match event {
                Event::Chunk { data } => if self.current.is_some() {
                    self.hold(Phase::WritingChunk, Action::WriteChunk { data })
                } else {
                    self.idle(Phase::StreamingContent, Action::NextChunk)
                },
                Event::PartEnd => if self.current.is_some() {
                    self.hold(Phase::PartDone, Action::CloseFile)
                } else {
                    self.idle(Phase::AwaitingHeaders, Action::NextPart)
                },
                Event::DecodeFailed => self.fail(UploadError::Decode),
                _ => self.fail(UploadError::OutOfOrder),
            },
            Phase::WritingChunk => match event {
                Event::IoDone => self.hold(Phase::StreamingContent, Action::NextChunk),
                Event::IoFailed => self.fail(UploadError::Io),
                _ => self.fail(UploadError::OutOfOrder),
            },
            Phase::PartDone => match event {
                Event::IoDone => {
                    let Upload { ceiling, phase: _, saved, current } = self;
                    let mut saved = saved;
                    match current {
                        Some(name) => {
                            saved.record(name);
                        },
                        None => {},
                    }
                    (
                        Upload { ceiling, phase: Phase::AwaitingHeaders, saved, current: None },
                        Action::NextPart,
                    )
                },
                Event::IoFailed => self.fail(UploadError::Io),
                _ => self.fail(UploadError::OutOfOrder),
            },
            Phase::Completed => {
                let reply = Reply::success(&self.saved);
                (self, Action::Respond { reply })
            },
            Phase::Failed(e) => (self, Action::Respond { reply: Reply::failure(e) }),
        };
        proof {
            use_type_invariant(&upload);
        }
        (upload, action)
    }
}

} // verus!
