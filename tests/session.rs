use std::collections::HashMap;

use fileshare_webserver::session::{status_of, Action, Event, Failure, Phase, UploadSession};

struct Part {
    has_disposition: bool,
    filename: Option<String>,
    chunks: Vec<Vec<u8>>,
}

fn part(name: &str, chunks: Vec<&[u8]>) -> Part {
    Part {
        has_disposition: true,
        filename: Some(name.to_string()),
        chunks: chunks.into_iter().map(|c| c.to_vec()).collect(),
    }
}

/// Runs a request against an in-memory directory. The write with index
/// `fail_write` (counted over the whole request) fails like a full disk.
fn run(parts: Vec<Part>, files: &mut HashMap<String, Vec<u8>>, fail_write: Option<usize>) -> (u16, Phase) {
    let mut session = UploadSession::new();
    let mut parts = parts.into_iter();
    let mut chunks: std::vec::IntoIter<Vec<u8>> = Vec::new().into_iter();
    let mut current = String::new();
    let mut writes = 0usize;
    let mut action = Action::PullPart;
    loop {
        let event = match action {
            Action::PullPart => match parts.next() {
                Some(p) => {
                    chunks = p.chunks.into_iter();
                    Event::PartArrived { has_disposition: p.has_disposition, filename: p.filename }
                }
                None => Event::NoMoreParts,
            },
            Action::Create(name) => {
                files.insert(name.clone(), Vec::new());
                current = name;
                Event::CreateDone { ok: true }
            }
            Action::PullChunk => match chunks.next() {
                Some(c) => Event::ChunkArrived(c),
                None => Event::PartEnded,
            },
            Action::Write(bytes) => {
                let ok = fail_write != Some(writes);
                writes += 1;
                if ok {
                    files.get_mut(&current).unwrap().extend_from_slice(&bytes);
                }
                Event::WriteDone { ok }
            }
            Action::Respond(code) => return (code, session.phase()),
        };
        assert!(session.accepts(&event));
        action = session.step(event);
    }
}

#[test]
fn upload_with_space_in_name_is_stored() {
    let mut files = HashMap::new();
    let (code, phase) = run(vec![part("a b.txt", vec![b"hello"])], &mut files, None);
    assert_eq!(code, 200);
    assert_eq!(phase, Phase::Complete);
    assert_eq!(files.get("a b.txt").unwrap(), b"hello");
}

#[test]
fn missing_disposition_is_rejected_without_file() {
    let mut files = HashMap::new();
    let p = Part { has_disposition: false, filename: Some("x.txt".to_string()), chunks: vec![b"data".to_vec()] };
    let (code, phase) = run(vec![p], &mut files, None);
    assert_eq!(code, 400);
    assert_eq!(phase, Phase::Failed(Failure::MalformedRequest));
    assert!(files.is_empty());
}

#[test]
fn failed_second_write_leaves_first_chunk() {
    let mut files = HashMap::new();
    let (code, phase) = run(vec![part("big.bin", vec![b"one", b"two", b"three"])], &mut files, Some(1));
    assert_eq!(code, 500);
    assert_eq!(phase, Phase::Failed(Failure::Io));
    assert_eq!(files.get("big.bin").unwrap(), b"one");
}

#[test]
fn round_trip_keeps_bytes() {
    let contents: Vec<Vec<u8>> = vec![
        Vec::new(),
        b"--boundary\r\nContent-Disposition: form-data\r\n\r\n--boundary--".to_vec(),
        (0..=255u8).collect(),
    ];
    for b in contents {
        let mut files = HashMap::new();
        let (code, _) = run(vec![part("report.pdf", vec![&b])], &mut files, None);
        assert_eq!(code, 200);
        assert_eq!(files.get("report.pdf").unwrap(), &b);
    }
}

#[test]
fn second_upload_overwrites_first() {
    let mut files = HashMap::new();
    run(vec![part("same.txt", vec![b"first version"])], &mut files, None);
    run(vec![part("same.txt", vec![b"second"])], &mut files, None);
    assert_eq!(files.get("same.txt").unwrap(), b"second");
    assert_eq!(files.len(), 1);
}

#[test]
fn overwrite_within_one_request() {
    let mut files = HashMap::new();
    let (code, _) = run(vec![part("same.txt", vec![b"aaaa"]), part("same.txt", vec![b"bb"])], &mut files, None);
    assert_eq!(code, 200);
    assert_eq!(files.get("same.txt").unwrap(), b"bb");
}

#[test]
fn one_byte_chunks_assemble_like_one_chunk() {
    let data = b"chunked delivery of a file".to_vec();
    let mut whole = HashMap::new();
    run(vec![part("f.txt", vec![&data])], &mut whole, None);
    let mut bytes = HashMap::new();
    let singles: Vec<&[u8]> = data.chunks(1).collect();
    run(vec![part("f.txt", singles)], &mut bytes, None);
    assert_eq!(whole, bytes);
    assert_eq!(bytes.get("f.txt").unwrap(), &data);
}

#[test]
fn several_parts_are_stored_in_order() {
    let mut files = HashMap::new();
    let parts = vec![part("a.txt", vec![b"A"]), part("b.txt", vec![b"B", b"B"])];
    let (code, _) = run(parts, &mut files, None);
    assert_eq!(code, 200);
    assert_eq!(files.get("a.txt").unwrap(), b"A");
    assert_eq!(files.get("b.txt").unwrap(), b"BB");
}

#[test]
fn anonymous_part_gets_generated_name() {
    let mut files = HashMap::new();
    let p = Part { has_disposition: true, filename: None, chunks: vec![b"x".to_vec()] };
    let (code, _) = run(vec![p], &mut files, None);
    assert_eq!(code, 200);
    let (name, content) = files.iter().next().unwrap();
    assert_eq!(name.len(), 36);
    assert_eq!(content, b"x");
}

#[test]
fn empty_request_completes() {
    let mut files = HashMap::new();
    assert_eq!(run(Vec::new(), &mut files, None), (200, Phase::Complete));
    assert!(files.is_empty());
}

#[test]
fn create_failure_is_server_error() {
    let mut s = UploadSession::new();
    let a = s.step(Event::PartArrived { has_disposition: true, filename: Some("x".to_string()) });
    assert!(matches!(a, Action::Create(ref n) if n == "x"));
    assert!(!s.accepts(&Event::NoMoreParts));
    assert!(matches!(s.step(Event::CreateDone { ok: false }), Action::Respond(500)));
    assert_eq!(s.phase(), Phase::Failed(Failure::Io));
    assert!(s.is_finished());
}

#[test]
fn decode_error_is_bad_request() {
    let mut s = UploadSession::new();
    s.step(Event::PartArrived { has_disposition: true, filename: Some("x".to_string()) });
    s.step(Event::CreateDone { ok: true });
    assert!(matches!(s.step(Event::ChunkArrived(b"ab".to_vec())), Action::Write(ref b) if b == b"ab"));
    assert!(matches!(s.step(Event::WriteDone { ok: true }), Action::PullChunk));
    assert!(matches!(s.step(Event::DecodeFailed), Action::Respond(400)));
    assert_eq!(s.phase(), Phase::Failed(Failure::Decode));
    assert!(!s.accepts(&Event::NoMoreParts));
}

#[test]
fn failure_statuses() {
    assert_eq!(status_of(Failure::MalformedRequest), 400);
    assert_eq!(status_of(Failure::Io), 500);
    assert_eq!(status_of(Failure::Decode), 400);
}
