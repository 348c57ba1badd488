use std::collections::BTreeMap;

use bytes::Bytes;
use futures::executor::block_on;
use futures::stream::{iter, Iter, TryStreamExt};
use mpart_async::server::{MultipartField, MultipartStream};
use upload_service::machine::{Phase, Upload};
use upload_service::protocol::{Action, Event};
use upload_service::reply::Reply;
use upload_service::error::UploadError;

type Body = Iter<std::vec::IntoIter<Result<Bytes, std::io::Error>>>;

/// What a request left behind.
struct Served {
    reply: Reply,
    upload: Upload,
    files: BTreeMap<String, Vec<u8>>,
    actions: usize,
}

/// Drives one request the way the server does, with the real decoder over an
/// in-memory body and a map in place of the directory.
fn serve(
    ceiling: u64,
    declared_length: Option<u64>,
    content_type: Option<&str>,
    body: Vec<Vec<u8>>,
    files: BTreeMap<String, Vec<u8>>,
) -> Served {
    let mut files = files;
    let mut body = Some(body);
    let mut stream: Option<MultipartStream<Body, std::io::Error>> = None;
    let mut field: Option<MultipartField<Body, std::io::Error>> = None;
    let mut open: Option<String> = None;
    let mut actions = 0;
    let (mut upload, mut action) = Upload::new(ceiling).begin(declared_length, content_type);
    loop {
        actions += 1;
        let pull_part = matches!(action, Action::StartDecoding { .. } | Action::NextPart);
        let event = match action {
            Action::Respond { reply } => {
                return Served { reply, upload, files, actions };
            }
            Action::StartDecoding { boundary } => {
                let chunks: Vec<Result<Bytes, std::io::Error>> =
                    body.take().unwrap().into_iter().map(|c| Ok(Bytes::from(c))).collect();
                stream = Some(MultipartStream::new(boundary, iter(chunks)));
                Event::IoDone
            }
            Action::NextPart => Event::IoDone,
            Action::NextChunk => match block_on(field.as_mut().unwrap().try_next()) {
                Ok(Some(data)) => Event::Chunk { data: data.to_vec() },
                Ok(None) => Event::PartEnd,
                Err(_) => Event::DecodeFailed,
            },
            Action::CreateFile { name } => {
                files.insert(name.clone(), Vec::new());
                open = Some(name);
                Event::IoDone
            }
            Action::WriteChunk { data } => {
                files.get_mut(open.as_ref().unwrap()).unwrap().extend_from_slice(&data);
                Event::IoDone
            }
            Action::CloseFile => {
                open = None;
                Event::IoDone
            }
        };
        let event = if pull_part {
            match block_on(stream.as_mut().unwrap().try_next()) {
                Ok(Some(next)) => {
                    let filename = next.filename().ok().map(|name| name.into_owned());
                    field = Some(next);
                    Event::PartStart { filename }
                }
                Ok(None) => Event::BodyEnd,
                Err(_) => Event::DecodeFailed,
            }
        } else {
            event
        };
        let (next, asked) = upload.step(event);
        upload = next;
        action = asked;
    }
}

fn whole(body: &[u8]) -> Vec<Vec<u8>> {
    vec![body.to_vec()]
}

fn in_pieces(body: &[u8], size: usize) -> Vec<Vec<u8>> {
    body.chunks(size).map(|c| c.to_vec()).collect()
}

const HELLO: &[u8] = b"--XyZ\r\n\
Content-Disposition: form-data; name=\"file\"; filename=\"hello.txt\"\r\n\
Content-Type: text/plain\r\n\
\r\n\
hi\r\n\
--XyZ--\r\n";

const MIXED: &[u8] = b"--AaB03x\r\n\
Content-Disposition: form-data; name=\"first\"; filename=\"one.txt\"\r\n\
\r\n\
Lorem Ipsum\n\r\n\
--AaB03x\r\n\
Content-Disposition: form-data; name=\"note\"\r\n\
\r\n\
just a value\r\n\
--AaB03x\r\n\
Content-Disposition: form-data; name=\"second\"; filename=\"two.bin\"\r\n\
Content-Type: application/octet-stream\r\n\
\r\n\
\x00\x01\x02\r\n--Aa\xff\r\n\
--AaB03x--\r\n";

#[test]
fn hello_is_uploaded_under_a_ceiling_of_1024() {
    let served = serve(
        1024,
        Some(HELLO.len() as u64),
        Some("multipart/form-data; boundary=XyZ"),
        whole(HELLO),
        BTreeMap::new(),
    );
    assert_eq!(served.reply, Reply { status: 200, body: String::from("Saved 1 file(s); first: hello.txt") });
    assert_eq!(served.upload.phase(), Phase::Completed);
    assert_eq!(served.upload.result().count(), 1);
    assert_eq!(served.files.len(), 1);
    assert_eq!(served.files["hello.txt"], b"hi".to_vec());
    assert_eq!(served.files["hello.txt"].len(), 2);
}

#[test]
fn every_file_part_is_stored_byte_for_byte() {
    let served = serve(
        0,
        None,
        Some("multipart/form-data; boundary=AaB03x"),
        whole(MIXED),
        BTreeMap::new(),
    );
    assert_eq!(served.reply, Reply { status: 200, body: String::from("Saved 2 file(s); first: one.txt") });
    assert_eq!(
        served.upload.result().saved_names(),
        &vec![String::from("one.txt"), String::from("two.bin")]
    );
    assert_eq!(served.files.len(), 2);
    assert_eq!(served.files["one.txt"], b"Lorem Ipsum\n".to_vec());
    assert_eq!(served.files["two.bin"], b"\x00\x01\x02\r\n--Aa\xff".to_vec());
}

#[test]
fn the_outcome_does_not_depend_on_how_the_body_is_cut() {
    let reference = serve(
        0,
        None,
        Some("multipart/form-data; boundary=AaB03x"),
        whole(MIXED),
        BTreeMap::new(),
    );
    for size in [1, 2, 3, 5, 7, 16, 64] {
        let served = serve(
            0,
            None,
            Some("multipart/form-data; boundary=AaB03x"),
            in_pieces(MIXED, size),
            BTreeMap::new(),
        );
        assert_eq!(served.reply, reference.reply, "pieces of {}", size);
        assert_eq!(served.files, reference.files, "pieces of {}", size);
    }
}

#[test]
fn other_files_are_left_alone_and_same_names_are_replaced() {
    let mut before = BTreeMap::new();
    before.insert(String::from("keep.txt"), b"old".to_vec());
    before.insert(String::from("hello.txt"), b"a much longer old content".to_vec());
    let served = serve(
        0,
        Some(HELLO.len() as u64),
        Some("multipart/form-data; boundary=XyZ"),
        whole(HELLO),
        before,
    );
    assert_eq!(served.reply.status, 200);
    assert_eq!(served.files.len(), 2);
    assert_eq!(served.files["keep.txt"], b"old".to_vec());
    assert_eq!(served.files["hello.txt"], b"hi".to_vec());
}

#[test]
fn truncated_body_fails_and_reports_no_success() {
    let cut = &MIXED[..MIXED.len() - 30];
    let served = serve(
        0,
        None,
        Some("multipart/form-data; boundary=AaB03x"),
        in_pieces(cut, 9),
        BTreeMap::new(),
    );
    assert_eq!(served.reply, Reply { status: 500, body: String::from("Malformed multipart body") });
    assert_eq!(served.upload.phase(), Phase::Failed(UploadError::Decode));
    assert_eq!(served.upload.result().saved_names(), &vec![String::from("one.txt")]);
    assert_eq!(served.files["one.txt"], b"Lorem Ipsum\n".to_vec());
}

#[test]
fn body_truncated_inside_the_first_part_saves_nothing() {
    let cut = &HELLO[..HELLO.len() - 10];
    let served = serve(
        1024,
        Some(HELLO.len() as u64),
        Some("multipart/form-data; boundary=XyZ"),
        whole(cut),
        BTreeMap::new(),
    );
    assert_eq!(served.reply.status, 500);
    assert!(!served.reply.is_success());
    assert_eq!(served.upload.result().count(), 0);
}

#[test]
fn wrong_boundary_is_a_decode_failure() {
    let served = serve(
        0,
        None,
        Some("multipart/form-data; boundary=other"),
        whole(HELLO),
        BTreeMap::new(),
    );
    assert_eq!(served.reply, Reply { status: 500, body: String::from("Malformed multipart body") });
    assert!(served.files.is_empty());
}

#[test]
fn oversize_request_touches_neither_body_nor_directory() {
    let served = serve(
        16,
        Some(HELLO.len() as u64),
        Some("multipart/form-data; boundary=XyZ"),
        whole(HELLO),
        BTreeMap::new(),
    );
    assert_eq!(served.reply, Reply { status: 413, body: String::from("Payload too large") });
    assert_eq!(served.actions, 1);
    assert!(served.files.is_empty());
}

#[test]
fn request_without_boundary_is_not_decoded() {
    let served =
        serve(1024, Some(HELLO.len() as u64), Some("multipart/form-data"), whole(HELLO), BTreeMap::new());
    assert_eq!(served.reply, Reply { status: 400, body: String::from("Missing multipart boundary") });
    assert_eq!(served.actions, 1);
    assert!(served.files.is_empty());
}

#[test]
fn two_gigabytes_declared_pass_without_a_ceiling() {
    let two_gb: u64 = 2 * 1024 * 1024 * 1024;
    let served = serve(
        0,
        Some(two_gb),
        Some("multipart/form-data; boundary=XyZ"),
        whole(HELLO),
        BTreeMap::new(),
    );
    assert_eq!(served.reply.status, 200);
    assert_eq!(served.files["hello.txt"], b"hi".to_vec());
}
