//! What the service guarantees about the reply to a request and about the
//! files it leaves behind, proved of the state machine played against an
//! honest driver.
use vstd::prelude::*;
use crate::directory::{
    distinct_file_names, distinct_files_are_counted, distinct_files_hold_their_parts,
    file_names, file_parts_are_all_recorded, name_of, put, stored,
};
use crate::error::{UploadError, STATUS_INTERNAL_ERROR, STATUS_OK};
use crate::limit::admission;
use crate::machine::{next, Phase, UploadView};
use crate::protocol::{present, ActionView, EventView};
use crate::reply::{failure_reply, success_reply, success_text};
use crate::session::{joined, play, serve, Disk, Part, World};

verus! {

/// How many steps the state machine takes over `part`.
pub open spec fn effort_of(part: Part) -> nat {
    if part.is_file() {
        2 * part.chunks.len() + 4
    } else {
        part.chunks.len() + 2
    }
}

/// How many steps the state machine takes over `parts`.
pub open spec fn effort(parts: Seq<Part>) -> nat
    decreases parts.len(),
{
    if parts.len() == 0 {
        0
    } else {
        effort_of(parts[0]) + effort(parts.skip(1))
    }
}

/// Whether `action` asks the decoder of `world` for its next part.
spec fn pulls_part(action: ActionView, world: World) -> bool {
    action is NextPart || (action matches ActionView::StartDecoding { boundary } && boundary
        == world.boundary)
}

/// The parts of a body that are followed by a delimiter: all of them, or all
/// but the last where the body breaks off.
pub open spec fn whole_parts(parts: Seq<Part>, truncated: bool) -> Seq<Part> {
    if truncated && parts.len() > 0 {
        parts.drop_last()
    } else {
        parts
    }
}

/// The world once the decoder has delivered the headers of the next part
/// and the part's file, if it is one, has been created.
spec fn part_opened(w: World) -> World {
    let part = w.parts[0];
    World {
        within: true,
        offset: 0,
        disk: if part.is_file() {
            Disk {
                files: w.disk.files.insert(part.filename->0, Seq::empty()),
                open: part.filename,
            }
        } else {
            w.disk
        },
        ..w
    }
}

/// The world once every piece of the current part has been delivered.
spec fn part_streamed(w: World) -> World {
    let part = w.parts[0];
    World {
        within: true,
        offset: part.chunks.len(),
        disk: if part.is_file() {
            Disk { files: put(w.disk.files, part), open: part.filename }
        } else {
            w.disk
        },
        ..w
    }
}

/// Streaming the remaining pieces of a file part appends each of them to the
/// open file.
proof fn play_file_chunks(m: UploadView, w: World, fuel: nat)
    requires
        m.phase == Phase::StreamingContent,
        present(m.current),
        w.within,
        w.parts.len() > 0,
        w.offset <= w.parts[0].chunks.len(),
        w.disk.open == m.current,
        w.disk.files.dom().contains(m.current->0),
        w.disk.files[m.current->0] == joined(w.parts[0].chunks.take(w.offset as int)),
        fuel >= 2 * (w.parts[0].chunks.len() - w.offset),
    ensures
        play(m, ActionView::NextChunk, w, fuel) == play(
            m,
            ActionView::NextChunk,
            World {
                offset: w.parts[0].chunks.len(),
                disk: Disk {
                    files: w.disk.files.insert(m.current->0, w.parts[0].content()),
                    ..w.disk
                },
                ..w
            },
            (fuel - 2 * (w.parts[0].chunks.len() - w.offset)) as nat,
        ),
    decreases w.parts[0].chunks.len() - w.offset,
{
    let chunks = w.parts[0].chunks;
    let name = m.current->0;
    if w.offset == chunks.len() {
        assert(chunks.take(w.offset as int) =~= chunks);
        assert(w.disk.files.insert(name, joined(chunks)) =~= w.disk.files);
    } else {
        let data = chunks[w.offset as int];
        let w1 = World { offset: w.offset + 1, ..w };
        let m1 = UploadView { phase: Phase::WritingChunk, ..m };
        assert(w.respond(ActionView::NextChunk) == (w1, EventView::Chunk { data }));
        assert(next(m, EventView::Chunk { data }) == (m1, ActionView::WriteChunk { data }));
        assert(play(m, ActionView::NextChunk, w, fuel) == play(
            m1,
            ActionView::WriteChunk { data },
            w1,
            (fuel - 1) as nat,
        ));
        let w2 = World {
            disk: Disk { files: w.disk.files.insert(name, w.disk.files[name] + data), ..w.disk },
            ..w1
        };
        assert(w1.respond(ActionView::WriteChunk { data }) == (w2, EventView::IoDone));
        assert(next(m1, EventView::IoDone) == (m, ActionView::NextChunk));
        assert(play(m1, ActionView::WriteChunk { data }, w1, (fuel - 1) as nat) == play(
            m,
            ActionView::NextChunk,
            w2,
            (fuel - 2) as nat,
        ));
        assert(chunks.take(w.offset as int + 1).drop_last() =~= chunks.take(w.offset as int));
        assert(chunks.take(w.offset as int + 1).last() == data);
        play_file_chunks(m, w2, (fuel - 2) as nat);
        assert(w2.disk.files.insert(name, joined(chunks)) =~= w.disk.files.insert(
            name,
            joined(chunks),
        ));
    }
}

/// Streaming the remaining pieces of a part that is no file discards them.
proof fn play_skipped_chunks(m: UploadView, w: World, fuel: nat)
    requires
        m.phase == Phase::StreamingContent,
        m.current is None,
        w.within,
        w.parts.len() > 0,
        w.offset <= w.parts[0].chunks.len(),
        fuel >= w.parts[0].chunks.len() - w.offset,
    ensures
        play(m, ActionView::NextChunk, w, fuel) == play(
            m,
            ActionView::NextChunk,
            World { offset: w.parts[0].chunks.len(), ..w },
            (fuel - (w.parts[0].chunks.len() - w.offset)) as nat,
        ),
    decreases w.parts[0].chunks.len() - w.offset,
{
    let chunks = w.parts[0].chunks;
    if w.offset < chunks.len() {
        let data = chunks[w.offset as int];
        let w1 = World { offset: w.offset + 1, ..w };
        assert(w.respond(ActionView::NextChunk) == (w1, EventView::Chunk { data }));
        assert(next(m, EventView::Chunk { data }) == (m, ActionView::NextChunk));
        assert(play(m, ActionView::NextChunk, w, fuel) == play(
            m,
            ActionView::NextChunk,
            w1,
            (fuel - 1) as nat,
        ));
        play_skipped_chunks(m, w1, (fuel - 1) as nat);
    }
}

/// From the request for a part up to the point where all of its pieces have
/// been delivered and, for a file part, written.
proof fn play_part_content(m: UploadView, a: ActionView, w: World, fuel: nat)
    requires
        m.phase == Phase::AwaitingHeaders,
        m.current is None,
        pulls_part(a, w),
        !w.within,
        w.parts.len() > 0,
        fuel >= effort_of(w.parts[0]),
    ensures
        play(m, a, w, fuel) == play(
            UploadView {
                phase: Phase::StreamingContent,
                current: if w.parts[0].is_file() {
                    w.parts[0].filename
                } else {
                    None
                },
                ..m
            },
            ActionView::NextChunk,
            part_streamed(w),
            (fuel - (effort_of(w.parts[0]) - if w.parts[0].is_file() {
                2nat
            } else {
                1nat
            })) as nat,
        ),
{
    let part = w.parts[0];
    let w1 = World { within: true, offset: 0, ..w };
    let started = EventView::PartStart { filename: part.filename };
    assert(w.respond(a) == (w1, started));
    assert(part.chunks.take(0) =~= Seq::<Seq<u8>>::empty());
    if part.is_file() {
        let name = part.filename->0;
        let m1 = UploadView { phase: Phase::OpeningFile, current: part.filename, ..m };
        let create = ActionView::CreateFile { name };
        assert(next(m, started) == (m1, create));
        assert(play(m, a, w, fuel) == play(m1, create, w1, (fuel - 1) as nat));
        let w2 = part_opened(w);
        let m2 = UploadView { phase: Phase::StreamingContent, ..m1 };
        assert(w1.respond(create) == (w2, EventView::IoDone));
        assert(next(m1, EventView::IoDone) == (m2, ActionView::NextChunk));
        assert(play(m1, create, w1, (fuel - 1) as nat) == play(
            m2,
            ActionView::NextChunk,
            w2,
            (fuel - 2) as nat,
        ));
        play_file_chunks(m2, w2, (fuel - 2) as nat);
        assert(w2.disk.files.insert(name, part.content()) =~= put(w.disk.files, part));
    } else {
        let m1 = UploadView { phase: Phase::StreamingContent, ..m };
        assert(next(m, started) == (m1, ActionView::NextChunk));
        assert(play(m, a, w, fuel) == play(m1, ActionView::NextChunk, w1, (fuel - 1) as nat));
        play_skipped_chunks(m1, w1, (fuel - 1) as nat);
    }
}

/// A part that is followed by a delimiter is handled in full: a file part is
/// stored under its name and recorded, any other part is drained, and the
/// next part is asked for.
proof fn play_part(m: UploadView, a: ActionView, w: World, fuel: nat)
    requires
        m.phase == Phase::AwaitingHeaders,
        m.current is None,
        pulls_part(a, w),
        !w.within,
        w.parts.len() > 0,
        !(w.truncated && w.parts.len() == 1),
        fuel >= effort_of(w.parts[0]),
    ensures
        play(m, a, w, fuel) == play(
            UploadView { saved: m.saved + name_of(w.parts[0]), ..m },
            ActionView::NextPart,
            World {
                parts: w.parts.skip(1),
                within: false,
                offset: 0,
                disk: Disk {
                    files: put(w.disk.files, w.parts[0]),
                    open: if w.parts[0].is_file() {
                        None
                    } else {
                        w.disk.open
                    },
                },
                ..w
            },
            (fuel - effort_of(w.parts[0])) as nat,
        ),
{
    let part = w.parts[0];
    play_part_content(m, a, w, fuel);
    let w3 = part_streamed(w);
    let w4 = World { parts: w.parts.skip(1), within: false, offset: 0, ..w3 };
    assert(w3.respond(ActionView::NextChunk) == (w4, EventView::PartEnd));
    if part.is_file() {
        let name = part.filename->0;
        let m3 = UploadView { phase: Phase::StreamingContent, current: part.filename, ..m };
        let m4 = UploadView { phase: Phase::PartDone, ..m3 };
        let left = (fuel - (effort_of(part) - 2)) as nat;
        assert(next(m3, EventView::PartEnd) == (m4, ActionView::CloseFile));
        assert(play(m3, ActionView::NextChunk, w3, left) == play(
            m4,
            ActionView::CloseFile,
            w4,
            (left - 1) as nat,
        ));
        let w5 = World { disk: Disk { open: None, ..w4.disk }, ..w4 };
        let m5 = UploadView { saved: m.saved.push(name), ..m };
        assert(w4.respond(ActionView::CloseFile) == (w5, EventView::IoDone));
        assert(next(m4, EventView::IoDone) == (m5, ActionView::NextPart));
        assert(play(m4, ActionView::CloseFile, w4, (left - 1) as nat) == play(
            m5,
            ActionView::NextPart,
            w5,
            (left - 2) as nat,
        ));
        assert(m.saved.push(name) =~= m.saved + name_of(part));
    } else {
        let m3 = UploadView { phase: Phase::StreamingContent, ..m };
        let left = (fuel - (effort_of(part) - 1)) as nat;
        assert(next(m3, EventView::PartEnd) == (m, ActionView::NextPart));
        assert(play(m3, ActionView::NextChunk, w3, left) == play(
            m,
            ActionView::NextPart,
            w4,
            (left - 1) as nat,
        ));
        assert(m.saved =~= m.saved + name_of(part));
    }
}

/// A part after whose content the body breaks off ends the request in
/// failure; what arrived of a file part is on disk, and the part is not
/// recorded.
proof fn play_torn_part(m: UploadView, a: ActionView, w: World, fuel: nat)
    requires
        m.phase == Phase::AwaitingHeaders,
        m.current is None,
        pulls_part(a, w),
        !w.within,
        w.parts.len() == 1,
        w.truncated,
        fuel >= effort_of(w.parts[0]),
    ensures
        play(m, a, w, fuel).reply == Some(failure_reply(UploadError::Decode)),
        play(m, a, w, fuel).upload == (UploadView {
            phase: Phase::Failed(UploadError::Decode),
            ..m
        }),
        play(m, a, w, fuel).world.disk.files == put(w.disk.files, w.parts[0]),
{
    let part = w.parts[0];
    play_part_content(m, a, w, fuel);
    let w3 = part_streamed(w);
    let m3 = UploadView {
        phase: Phase::StreamingContent,
        current: if part.is_file() {
            part.filename
        } else {
            None
        },
        ..m
    };
    let left = (fuel - (effort_of(part) - if part.is_file() {
        2nat
    } else {
        1nat
    })) as nat;
    let m4 = UploadView { phase: Phase::Failed(UploadError::Decode), ..m };
    let respond = ActionView::Respond { reply: failure_reply(UploadError::Decode) };
    assert(w3.respond(ActionView::NextChunk) == (w3, EventView::DecodeFailed));
    assert(next(m3, EventView::DecodeFailed) == (m4, respond));
    assert(play(m3, ActionView::NextChunk, w3, left) == play(m4, respond, w3, (left - 1) as nat));
}

/// From the request for a part to the reply.
proof fn play_body(m: UploadView, a: ActionView, w: World, fuel: nat)
    requires
        m.phase == Phase::AwaitingHeaders,
        m.current is None,
        pulls_part(a, w),
        !w.within,
        fuel >= effort(w.parts) + 1,
    ensures
        play(m, a, w, fuel).world.disk.files == stored(w.disk.files, w.parts),
        play(m, a, w, fuel).upload.saved == m.saved + file_names(
            whole_parts(w.parts, w.truncated),
        ),
        play(m, a, w, fuel).upload.ceiling == m.ceiling,
        play(m, a, w, fuel).upload.current is None,
        !w.truncated ==> play(m, a, w, fuel).upload.phase == Phase::Completed && play(
            m,
            a,
            w,
            fuel,
        ).reply == Some(success_reply(m.saved + file_names(w.parts))),
        w.truncated ==> play(m, a, w, fuel).upload.phase == Phase::Failed(UploadError::Decode)
            && play(m, a, w, fuel).reply == Some(failure_reply(UploadError::Decode)),
    decreases w.parts.len(),
{
    if w.parts.len() == 0 {
        assert(m.saved + file_names(w.parts) =~= m.saved);
        if w.truncated {
            let halted = UploadView { phase: Phase::Failed(UploadError::Decode), ..m };
            let respond = ActionView::Respond { reply: failure_reply(UploadError::Decode) };
            assert(w.respond(a) == (w, EventView::DecodeFailed));
            assert(next(m, EventView::DecodeFailed) == (halted, respond));
            assert(play(m, a, w, fuel) == play(halted, respond, w, (fuel - 1) as nat));
        } else {
            let done = UploadView { phase: Phase::Completed, ..m };
            let respond = ActionView::Respond { reply: success_reply(m.saved) };
            assert(w.respond(a) == (w, EventView::BodyEnd));
            assert(next(m, EventView::BodyEnd) == (done, respond));
            assert(play(m, a, w, fuel) == play(done, respond, w, (fuel - 1) as nat));
        }
    } else if w.truncated && w.parts.len() == 1 {
        play_torn_part(m, a, w, fuel);
        assert(w.parts.skip(1).len() == 0);
        assert(stored(w.disk.files, w.parts) == stored(
            put(w.disk.files, w.parts[0]),
            w.parts.skip(1),
        ));
        assert(m.saved + file_names(w.parts.drop_last()) =~= m.saved);
    } else {
        let part = w.parts[0];
        let m1 = UploadView { saved: m.saved + name_of(part), ..m };
        let w1 = World {
            parts: w.parts.skip(1),
            within: false,
            offset: 0,
            disk: Disk {
                files: put(w.disk.files, part),
                open: if part.is_file() {
                    None
                } else {
                    w.disk.open
                },
            },
            ..w
        };
        play_part(m, a, w, fuel);
        play_body(m1, ActionView::NextPart, w1, (fuel - effort_of(part)) as nat);
        assert(m1.saved + file_names(w.parts.skip(1)) =~= m.saved + file_names(w.parts));
        if w.truncated {
            let whole = w.parts.drop_last();
            assert(whole.skip(1) =~= w.parts.skip(1).drop_last());
            assert(whole[0] == part);
            assert(m1.saved + file_names(w.parts.skip(1).drop_last()) =~= m.saved + file_names(
                whole,
            ));
        }
    }
}

/// A request that declares more than a positive ceiling is answered with
/// "payload too large" before anything else happens: the body is not
/// decoded and the directory is as it was.
pub proof fn oversize_request_is_refused_untouched(
    ceiling: u64,
    declared_length: u64,
    boundary: Option<Seq<char>>,
    world: World,
    fuel: nat,
)
    requires
        ceiling > 0,
        declared_length > ceiling,
    ensures
        serve(ceiling, Some(declared_length), boundary, world, fuel).reply == Some(
            failure_reply(UploadError::TooLarge),
        ),
        serve(ceiling, Some(declared_length), boundary, world, fuel).world == world,
        serve(ceiling, Some(declared_length), boundary, world, fuel).upload.phase == Phase::Failed(
            UploadError::TooLarge,
        ),
{
}

/// A request whose content type carries no boundary token is refused before
/// the decoder is set up, and the directory is as it was.
pub proof fn request_without_boundary_is_refused(
    ceiling: u64,
    declared_length: Option<u64>,
    boundary: Option<Seq<char>>,
    world: World,
    fuel: nat,
)
    requires
        admission(declared_length, ceiling) is Ok,
        !present(boundary),
    ensures
        serve(ceiling, declared_length, boundary, world, fuel).reply == Some(
            failure_reply(UploadError::MissingBoundary),
        ),
        serve(ceiling, declared_length, boundary, world, fuel).world == world,
{
}

/// With the ceiling at zero no declared length is refused for its size.
pub proof fn no_ceiling_admits_every_length(
    declared_length: Option<u64>,
    boundary: Seq<char>,
)
    requires
        boundary.len() > 0,
    ensures
        next(
            UploadView::fresh(0),
            EventView::Request { declared_length, boundary: Some(boundary) },
        ).1 == (ActionView::StartDecoding { boundary }),
{
}

/// A request that the limiter admits and that names the boundary its body is framed
/// with, and whose body is complete, is answered with success. The reply
/// counts the file parts and names the first; every file part has been
/// stored under its filename with its content, in the order of arrival, and
/// nothing else in the directory has changed.
pub proof fn complete_upload_stores_every_file(
    ceiling: u64,
    declared_length: Option<u64>,
    boundary: Seq<char>,
    parts: Seq<Part>,
    files: Map<Seq<char>, Seq<u8>>,
    fuel: nat,
)
    requires
        admission(declared_length, ceiling) is Ok,
        boundary.len() > 0,
        fuel >= effort(parts) + 1,
    ensures
        ({
            let world = World::at_arrival(boundary, parts, false, files);
            let end = serve(ceiling, declared_length, Some(boundary), world, fuel);
            &&& end.reply == Some(success_reply(file_names(parts)))
            &&& end.reply->0.status == STATUS_OK
            &&& end.upload.phase == Phase::Completed
            &&& end.upload.saved == file_names(parts)
            &&& end.world.disk.files == stored(files, parts)
        }),
{
    let world = World::at_arrival(boundary, parts, false, files);
    let admitted = UploadView { phase: Phase::AwaitingHeaders, ..UploadView::fresh(ceiling) };
    let start = ActionView::StartDecoding { boundary };
    assert(next(
        UploadView::fresh(ceiling),
        EventView::Request { declared_length, boundary: Some(boundary) },
    ) == (admitted, start));
    play_body(admitted, start, world, fuel);
    assert(admitted.saved + file_names(parts) =~= file_names(parts));
}

/// An admitted request whose body is complete and consists of file parts
/// with distinct filenames, uploaded into an empty directory: the reply
/// reports success and counts the parts, exactly as many files exist
/// afterwards as there were parts, and each holds the bytes of its part.
pub proof fn distinct_files_are_all_stored(
    ceiling: u64,
    declared_length: Option<u64>,
    boundary: Seq<char>,
    parts: Seq<Part>,
    fuel: nat,
)
    requires
        admission(declared_length, ceiling) is Ok,
        boundary.len() > 0,
        forall|i: int| 0 <= i < parts.len() ==> (#[trigger] parts[i]).is_file(),
        distinct_file_names(parts),
        fuel >= effort(parts) + 1,
    ensures
        ({
            let world = World::at_arrival(boundary, parts, false, Map::empty());
            let end = serve(ceiling, declared_length, Some(boundary), world, fuel);
            &&& end.reply matches Some(reply)
            &&& reply.status == STATUS_OK
            &&& reply.body == success_text(end.upload.saved)
            &&& end.upload.saved.len() == parts.len()
            &&& end.world.disk.files.dom().finite()
            &&& end.world.disk.files.dom().len() == parts.len()
            &&& forall|i: int|
                0 <= i < parts.len() ==> end.world.disk.files.dom().contains(
                    #[trigger] parts[i].filename->0,
                ) && end.world.disk.files[parts[i].filename->0] == parts[i].content()
        }),
{
    complete_upload_stores_every_file(
        ceiling,
        declared_length,
        boundary,
        parts,
        Map::empty(),
        fuel,
    );
    file_parts_are_all_recorded(parts);
    distinct_files_are_counted(parts);
    assert forall|i: int| 0 <= i < parts.len() implies stored(Map::empty(), parts).dom().contains(
        #[trigger] parts[i].filename->0,
    ) && stored(Map::empty(), parts)[parts[i].filename->0] == parts[i].content() by {
        distinct_files_hold_their_parts(Map::empty(), parts, i);
    }
}

/// A request whose body breaks off inside a part is answered with a server
/// error, never with success. The parts before the torn one are recorded
/// and stored; the torn part is not recorded, and what arrived of it is
/// left on disk as it is.
pub proof fn truncated_upload_fails(
    ceiling: u64,
    declared_length: Option<u64>,
    boundary: Seq<char>,
    parts: Seq<Part>,
    files: Map<Seq<char>, Seq<u8>>,
    fuel: nat,
)
    requires
        admission(declared_length, ceiling) is Ok,
        boundary.len() > 0,
        fuel >= effort(parts) + 1,
    ensures
        ({
            let world = World::at_arrival(boundary, parts, true, files);
            let end = serve(ceiling, declared_length, Some(boundary), world, fuel);
            &&& end.reply == Some(failure_reply(UploadError::Decode))
            &&& end.reply->0.status == STATUS_INTERNAL_ERROR
            &&& end.upload.phase == Phase::Failed(UploadError::Decode)
            &&& end.upload.saved == file_names(whole_parts(parts, true))
            &&& end.world.disk.files == stored(files, parts)
        }),
{
    let world = World::at_arrival(boundary, parts, true, files);
    let admitted = UploadView { phase: Phase::AwaitingHeaders, ..UploadView::fresh(ceiling) };
    let start = ActionView::StartDecoding { boundary };
    assert(next(
        UploadView::fresh(ceiling),
        EventView::Request { declared_length, boundary: Some(boundary) },
    ) == (admitted, start));
    play_body(admitted, start, world, fuel);
    assert(admitted.saved + file_names(whole_parts(parts, true)) =~= file_names(
        whole_parts(parts, true),
    ));
}

} // verus!
