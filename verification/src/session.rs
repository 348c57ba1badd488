//! A whole request, played out against a model of the decoder and the disk.
//!
//! The state machine never sees the body or the directory; it sees events.
//! This module says what those events are for an honest driver: one that
//! decodes the body it was given and writes to the file it was told to.
use vstd::prelude::*;
use crate::machine::{next, UploadView};
use crate::protocol::{present, ActionView, EventView};
use crate::reply::ReplyView;

verus! {

/// One part of a multipart body as the decoder delivers it: the filename in
/// its headers, if any, and its content in the pieces in which it arrives.
pub struct Part {
    pub filename: Option<Seq<char>>,
    pub chunks: Seq<Seq<u8>>,
}

/// The pieces `chunks` joined in order.
pub open spec fn joined(chunks: Seq<Seq<u8>>) -> Seq<u8>
    decreases chunks.len(),
{
    if chunks.len() == 0 {
        Seq::empty()
    } else {
        joined(chunks.drop_last()) + chunks.last()
    }
}

impl Part {
    /// Whether the part is a file: whether it names one.
    pub open spec fn is_file(self) -> bool {
        present(self.filename)
    }

    /// The bytes of the part.
    pub open spec fn content(self) -> Seq<u8> {
        joined(self.chunks)
    }
}

/// The working directory: what each file holds, and which file is open for
/// writing.
pub struct Disk {
    pub files: Map<Seq<char>, Seq<u8>>,
    pub open: Option<Seq<char>>,
}

/// Everything outside the state machine during one request.
pub struct World {
    /// The boundary token that the body is framed with.
    pub boundary: Seq<char>,
    /// The parts that the decoder has not finished delivering, next first.
    pub parts: Seq<Part>,
    /// Whether the body breaks off where the content listed in `parts` ends,
    /// with no delimiter after it.
    pub truncated: bool,
    /// Whether the headers of `parts[0]` have been delivered.
    pub within: bool,
    /// How many pieces of `parts[0]` have been delivered.
    pub offset: nat,
    /// The working directory.
    pub disk: Disk,
}

impl World {
    /// The world at the arrival of a request whose body holds `parts`.
    pub open spec fn at_arrival(
        boundary: Seq<char>,
        parts: Seq<Part>,
        truncated: bool,
        files: Map<Seq<char>, Seq<u8>>,
    ) -> World {
        World {
            boundary,
            parts,
            truncated,
            within: false,
            offset: 0,
            disk: Disk { files, open: None },
        }
    }

    /// What the decoder answers when asked for the next part.
    pub open spec fn pull_part(self) -> (World, EventView) {
        if self.within {
            (self, EventView::DecodeFailed)
        } else if self.parts.len() == 0 {
            if self.truncated {
                (self, EventView::DecodeFailed)
            } else {
                (self, EventView::BodyEnd)
            }
        } else {
            (
                World { within: true, offset: 0, ..self },
                EventView::PartStart { filename: self.parts[0].filename },
            )
        }
    }

    /// What the decoder answers when asked for the next piece of the current
    /// part.
    pub open spec fn pull_chunk(self) -> (World, EventView) {
        if !self.within || self.parts.len() == 0 {
            (self, EventView::DecodeFailed)
        } else if self.offset < self.parts[0].chunks.len() {
            (
                World { offset: self.offset + 1, ..self },
                EventView::Chunk { data: self.parts[0].chunks[self.offset as int] },
            )
        } else if self.truncated && self.parts.len() == 1 {
            (self, EventView::DecodeFailed)
        } else {
            (
                World { parts: self.parts.skip(1), within: false, offset: 0, ..self },
                EventView::PartEnd,
            )
        }
    }

    /// What the driver reports after performing `action`. A reply ends the
    /// exchange, so nothing meaningful is reported after one.
    pub open spec fn respond(self, action: ActionView) -> (World, EventView)
        recommends
            !(action is Respond),
    {
        match action {
            ActionView::StartDecoding { boundary } => if boundary == self.boundary {
                self.pull_part()
            } else {
                (self, EventView::DecodeFailed)
            },
            ActionView::NextPart => self.pull_part(),
            ActionView::NextChunk => self.pull_chunk(),
            ActionView::CreateFile { name } => (
                World {
                    disk: Disk { files: self.disk.files.insert(name, Seq::empty()), open: Some(name) },
                    ..self
                },
                EventView::IoDone,
            ),
            ActionView::WriteChunk { data } => match self.disk.open {
                Some(name) => (
                    World {
                        disk: Disk {
                            files: self.disk.files.insert(name, self.disk.files[name] + data),
                            ..self.disk
                        },
                        ..self
                    },
                    EventView::IoDone,
                ),
                None => (self, EventView::IoFailed),
            },
            ActionView::CloseFile => match self.disk.open {
                Some(_) => (
                    World { disk: Disk { open: None, ..self.disk }, ..self },
                    EventView::IoDone,
                ),
                None => (self, EventView::IoFailed),
            },
            ActionView::Respond { reply } => (self, EventView::IoDone),
        }
    }
}

/// How a request ended: the state machine, the world, and the reply if one
/// was given.
pub struct Outcome {
    pub upload: UploadView,
    pub world: World,
    pub reply: Option<ReplyView>,
}

/// Runs the state machine against the world, starting with the request for
/// `action`, until it replies or `fuel` steps were taken.
pub open spec fn play(upload: UploadView, action: ActionView, world: World, fuel: nat) -> Outcome
    decreases fuel,
{
    match action {
        ActionView::Respond { reply } => Outcome { upload, world, reply: Some(reply) },
        _ => if fuel == 0 {
            Outcome { upload, world, reply: None }
        } else {
            let (after, event) = world.respond(action);
            let (moved, asked) = next(upload, event);
            play(moved, asked, after, (fuel - 1) as nat)
        },
    }
}

/// Serves one request from its arrival: admits it, then plays it out.
pub open spec fn serve(
    ceiling: u64,
    declared_length: Option<u64>,
    boundary: Option<Seq<char>>,
    world: World,
    fuel: nat,
) -> Outcome {
    let (upload, action) = next(
        UploadView::fresh(ceiling),
        EventView::Request { declared_length, boundary },
    );
    play(upload, action, world, fuel)
}

} // verus!
