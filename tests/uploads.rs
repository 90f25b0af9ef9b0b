use std::collections::HashMap;

use dropbox_gateway::config::Config;
use dropbox_gateway::outcome::{Outcome, Status};
use dropbox_gateway::upload::{append_chunk, Upload, UploadAction, UploadEvent};

/// Runs an upload in which every outside operation succeeds, against an
/// in-memory set of files. Returns the final outcome and the directories made.
fn drive(
    files: &mut HashMap<String, Vec<u8>>,
    path: &str,
    parts: &[(&str, &[u8])],
) -> (Outcome, Vec<String>) {
    let config = Config::standard();
    let (mut upload, mut action) = Upload::start(&config, path);
    let mut next = 0;
    let mut dirs = Vec::new();
    loop {
        let event = match action {
            UploadAction::CreateDir(d) => {
                dirs.push(d);
                UploadEvent::DirReady
            }
            UploadAction::NextPart => {
                if next < parts.len() {
                    UploadEvent::Part(parts[next].0.to_string())
                } else {
                    UploadEvent::Finished
                }
            }
            UploadAction::ReadData => {
                let data = parts[next].1.to_vec();
                next += 1;
                UploadEvent::Data(data)
            }
            UploadAction::WriteFile(f, d) => {
                files.insert(f, d);
                UploadEvent::Written
            }
            UploadAction::Respond(o) => {
                assert!(upload.is_done());
                return (o, dirs);
            }
        };
        action = upload.step(event);
    }
}

fn respond(action: UploadAction) -> Outcome {
    match action {
        UploadAction::Respond(o) => o,
        _ => panic!("expected an answer"),
    }
}

/// An upload that has created its directory and is waiting for a part.
fn waiting() -> Upload {
    let (mut u, a) = Upload::start(&Config::standard(), "/proj");
    assert!(matches!(a, UploadAction::CreateDir(_)));
    assert!(matches!(u.step(UploadEvent::DirReady), UploadAction::NextPart));
    u
}

#[test]
fn two_parts_make_two_files() {
    let mut files = HashMap::new();
    let a: &[u8] = b"alpha";
    let b: &[u8] = &[0u8, 255, 7];
    let (o, dirs) = drive(&mut files, "/proj", &[("a.txt", a), ("b.txt", b)]);
    assert_eq!(o.status, Status::Success);
    assert_eq!(o.code(), 200);
    assert_eq!(o.message, "ok\n");
    assert_eq!(dirs, vec!["/data//proj".to_string()]);
    assert_eq!(files.len(), 2);
    assert_eq!(files["/data//proj/a.txt"], a.to_vec());
    assert_eq!(files["/data//proj/b.txt"], b.to_vec());
}

#[test]
fn reupload_overwrites() {
    let mut files = HashMap::new();
    let first: &[u8] = b"first";
    let second: &[u8] = b"second version";
    drive(&mut files, "/proj", &[("a.txt", first)]);
    let (o, _) = drive(&mut files, "/proj/", &[("a.txt", second)]);
    assert_eq!(o.status, Status::Success);
    assert_eq!(files.len(), 1);
    assert_eq!(files["/data//proj/a.txt"], second.to_vec());
}

#[test]
fn empty_body_writes_nothing() {
    let mut files = HashMap::new();
    let (o, dirs) = drive(&mut files, "/empty", &[]);
    assert_eq!(o.status, Status::Success);
    assert_eq!(dirs.len(), 1);
    assert!(files.is_empty());
}

#[test]
fn two_uploads_to_one_new_directory_both_succeed() {
    let mut files = HashMap::new();
    let (o1, d1) = drive(&mut files, "/new", &[("x", b"1")]);
    let (o2, d2) = drive(&mut files, "/new", &[("y", b"2")]);
    assert_eq!(o1.status, Status::Success);
    assert_eq!(o2.status, Status::Success);
    assert_eq!(d1, d2);
    assert_eq!(files.len(), 2);
}

#[test]
fn path_outside_root_is_refused() {
    let (u, a) = Upload::start(&Config::standard(), "/a/../../etc");
    assert!(u.is_done());
    let o = respond(a);
    assert_eq!(o.status, Status::BadRequest);
    assert_eq!(o.message, "invalid path\n");
}

#[test]
fn part_name_outside_dir_is_refused() {
    let mut u = waiting();
    let o = respond(u.step(UploadEvent::Part("../escape".to_string())));
    assert_eq!(o.status, Status::BadRequest);
    assert_eq!(o.message, "invalid part name\n");
    assert!(u.is_done());
}

#[test]
fn folder_failure_is_internal() {
    let (mut u, _) = Upload::start(&Config::standard(), "/proj");
    let o = respond(u.step(UploadEvent::DirFailed("Permission denied".to_string())));
    assert_eq!(o.status, Status::InternalError);
    assert_eq!(o.code(), 500);
    assert_eq!(o.message, "Failed to create a folder: Permission denied\n");
}

#[test]
fn part_failure_is_internal() {
    let mut u = waiting();
    let o = respond(u.step(UploadEvent::PartFailed("bad boundary".to_string())));
    assert_eq!(o.status, Status::InternalError);
    assert_eq!(o.message, "Failed to read a part: bad boundary\n");
}

#[test]
fn malformed_part_is_bad_request() {
    let mut files = HashMap::new();
    let (mut u, mut a) = Upload::start(&Config::standard(), "/proj");
    assert!(matches!(a, UploadAction::CreateDir(_)));
    a = u.step(UploadEvent::DirReady);
    assert!(matches!(a, UploadAction::NextPart));
    u.step(UploadEvent::Part("a.txt".to_string()));
    match u.step(UploadEvent::Data(b"kept".to_vec())) {
        UploadAction::WriteFile(f, d) => {
            files.insert(f, d);
        }
        _ => panic!("expected a write"),
    }
    assert!(matches!(u.step(UploadEvent::Written), UploadAction::NextPart));
    let o = respond(u.step(UploadEvent::PartMalformed("incomplete headers".to_string())));
    assert_eq!(o.status, Status::BadRequest);
    assert_eq!(o.code(), 400);
    assert_eq!(o.message, "Malformed part: incomplete headers\n");
    assert!(u.is_done());
    assert_eq!(files.len(), 1);
    assert_eq!(files["/data//proj/a.txt"], b"kept".to_vec());
}

#[test]
fn upload_to_path_with_slash_starts_alike() {
    for p in ["/proj", "/a/b", ""] {
        let (_, a) = Upload::start(&Config::standard(), p);
        let (_, b) = Upload::start(&Config::standard(), &format!("{}/", p));
        match (a, b) {
            (UploadAction::CreateDir(x), UploadAction::CreateDir(y)) => assert_eq!(x, y),
            _ => panic!("expected directories"),
        }
    }
}

#[test]
fn data_failure_is_internal() {
    let mut u = waiting();
    assert!(matches!(u.step(UploadEvent::Part("a.txt".to_string())), UploadAction::ReadData));
    let o = respond(u.step(UploadEvent::DataFailed("connection closed".to_string())));
    assert_eq!(o.status, Status::InternalError);
    assert_eq!(o.message, "Failed to read data from a part: connection closed\n");
}

#[test]
fn write_failure_stops_the_upload() {
    let mut u = waiting();
    u.step(UploadEvent::Part("a.txt".to_string()));
    match u.step(UploadEvent::Data(vec![1, 2, 3])) {
        UploadAction::WriteFile(f, d) => {
            assert_eq!(f, "/data//proj/a.txt");
            assert_eq!(d, vec![1, 2, 3]);
        }
        _ => panic!("expected a write"),
    }
    let o = respond(u.step(UploadEvent::WriteFailed("No space left".to_string())));
    assert_eq!(o.status, Status::InternalError);
    assert_eq!(o.message, "Failed to write file: No space left\n");
    assert!(u.is_done());
}

#[test]
fn out_of_order_event_ends_the_upload() {
    let mut u = waiting();
    let o = respond(u.step(UploadEvent::Written));
    assert_eq!(o.status, Status::InternalError);
    assert_eq!(o.message, "unexpected upload event\n");
    let again = respond(u.step(UploadEvent::Finished));
    assert_eq!(again.status, Status::InternalError);
}

#[test]
fn chunks_fold_into_one_buffer() {
    let mut acc = Vec::new();
    append_chunk(&mut acc, b"ab");
    append_chunk(&mut acc, b"");
    append_chunk(&mut acc, b"cde");
    assert_eq!(acc, b"abcde".to_vec());
}

#[test]
fn uploads_of_different_names_commute() {
    let mut one = HashMap::new();
    let mut two = HashMap::new();
    drive(&mut one, "/new", &[("x", b"1")]);
    drive(&mut one, "/new", &[("y", b"2")]);
    drive(&mut two, "/new", &[("y", b"2")]);
    drive(&mut two, "/new", &[("x", b"1")]);
    assert_eq!(one, two);
    assert_eq!(one["/data//new/x"], b"1".to_vec());
}
