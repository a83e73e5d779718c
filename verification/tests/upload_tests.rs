use chronolens::assembler::PART_SIZE;
use chronolens::bus::Subject;
use chronolens::logs::LogLevel;
use chronolens::status::Status;
use chronolens::upload::{
    is_allowed_content_type, parse_upload_headers, HeaderError, UploadAction, UploadPhase,
    UploadRequest, UploadSession,
};

fn request(content_type: &str) -> UploadRequest {
    UploadRequest {
        user_id: "alice".to_string(),
        content_digest: Some("sha-1=:qvTGHdzF6KLavt4PO0gs2a6pQ00=:".to_string()),
        content_type: Some(content_type.to_string()),
        timestamp: Some("1700000000000".to_string()),
        file_name: Some("red.png".to_string()),
    }
}

fn admitted() -> UploadSession {
    let (mut s, a) = UploadSession::begin(request("image/png"));
    assert_eq!(a, UploadAction::CheckDuplicate);
    assert_eq!(s.on_duplicate_checked(Some(false)), UploadAction::Initiate);
    assert_eq!(s.on_initiated(Some("upload-1".to_string())), UploadAction::ReadBody);
    s
}

#[test]
fn recognised_content_types() {
    assert!(is_allowed_content_type("image/png"));
    assert!(is_allowed_content_type("image/jpeg"));
    assert!(is_allowed_content_type("image/heic"));
    assert!(is_allowed_content_type("image/heif"));
    assert!(!is_allowed_content_type("application/pdf"));
    assert!(!is_allowed_content_type("image/gif"));
    assert!(!is_allowed_content_type("IMAGE/PNG"));
    assert!(!is_allowed_content_type(""));
}

#[test]
fn headers_are_parsed() {
    let h = parse_upload_headers(
        &Some("sha-1=:YQ==:".to_string()),
        &Some("image/jpeg".to_string()),
        &Some("-5".to_string()),
    );
    match h {
        Ok(h) => {
            assert_eq!(h.digest, "YQ==");
            assert_eq!(h.content_type, "image/jpeg");
            assert_eq!(h.created_at, -5);
        }
        Err(_) => panic!("headers are valid"),
    }
}

#[test]
fn first_bad_header_is_reported() {
    let digest = Some("sha-1=:YQ==:".to_string());
    let ct = Some("image/png".to_string());
    let ts = Some("1".to_string());
    assert!(matches!(parse_upload_headers(&None, &None, &None), Err(HeaderError::Digest(_))));
    assert!(matches!(parse_upload_headers(&digest, &None, &None), Err(HeaderError::ContentType)));
    assert!(matches!(parse_upload_headers(&digest, &ct, &None), Err(HeaderError::Timestamp)));
    assert!(matches!(
        parse_upload_headers(&digest, &ct, &Some("soon".to_string())),
        Err(HeaderError::Timestamp)
    ));
    assert!(parse_upload_headers(&digest, &ct, &ts).is_ok());
}

#[test]
fn happy_upload_goes_through_every_step() {
    let (mut s, a) = UploadSession::begin(request("image/png"));
    assert_eq!(a, UploadAction::CheckDuplicate);
    assert_eq!(s.phase, UploadPhase::CheckingDuplicate);
    assert_eq!(s.user_id, "alice");
    assert_eq!(s.digest, "qvTGHdzF6KLavt4PO0gs2a6pQ00=");
    assert_eq!(s.created_at, 1700000000000);

    assert_eq!(s.on_duplicate_checked(Some(false)), UploadAction::Initiate);
    assert_eq!(s.media_id.len(), 36);
    assert_eq!(s.file_name, "red.png");

    assert_eq!(s.on_initiated(Some("upload-1".to_string())), UploadAction::ReadBody);
    assert_eq!(s.upload_id, "upload-1");

    assert_eq!(s.on_chunk(vec![1, 2, 3]), UploadAction::ReadBody);
    assert_eq!(s.on_chunk(vec![4, 5]), UploadAction::ReadBody);
    assert_eq!(s.on_body_end(), UploadAction::StorePart);
    assert_eq!(s.outgoing, vec![1, 2, 3, 4, 5]);
    assert_eq!(s.part_number(), 1);
    assert_eq!(s.file_size, 5);

    assert_eq!(s.on_part_stored(Some("etag-1".to_string())), UploadAction::Complete);
    assert_eq!(s.etags, vec!["etag-1".to_string()]);
    assert_eq!(s.on_completed(true), UploadAction::Insert);
    assert_eq!(s.on_inserted(true), UploadAction::Publish(Subject::Previews));
    assert_eq!(s.on_published(true), UploadAction::Publish(Subject::Metadata));
    assert_eq!(s.on_published(true), UploadAction::Publish(Subject::ImageProcess));
    assert_eq!(s.on_published(true), UploadAction::Respond(Status::Success));
    assert_eq!(s.phase, UploadPhase::Done);

    let logs = s.take_logs();
    assert_eq!(logs.len(), 1);
    assert_eq!(logs[0].level, LogLevel::Info);
    assert_eq!(
        logs[0].message,
        format!("Media Upload: red.png uploaded successfully with id {}", s.media_id)
    );
    assert!(s.take_logs().is_empty());
}

#[test]
fn minted_media_id_is_a_hyphenated_uuid() {
    let s = admitted();
    let id: Vec<char> = s.media_id.chars().collect();
    assert_eq!(id.len(), 36);
    for (i, c) in id.iter().enumerate() {
        if i == 8 || i == 13 || i == 18 || i == 23 {
            assert_eq!(*c, '-');
        } else {
            assert!(c.is_ascii_digit() || ('a'..='f').contains(c));
        }
    }
    let other = admitted();
    assert_ne!(s.media_id, other.media_id);
}

#[test]
fn file_name_defaults_to_the_media_id() {
    let mut r = request("image/png");
    r.file_name = None;
    let (mut s, _) = UploadSession::begin(r);
    s.on_duplicate_checked(Some(false));
    assert_eq!(s.file_name, s.media_id);
}

#[test]
fn duplicate_upload_is_a_precondition_failure() {
    let (mut s, _) = UploadSession::begin(request("image/png"));
    assert_eq!(
        s.on_duplicate_checked(Some(true)),
        UploadAction::Respond(Status::PreconditionFailed)
    );
    assert_eq!(Status::PreconditionFailed.code(), 412);
    let logs = s.take_logs();
    assert_eq!(logs.len(), 1);
    assert_eq!(logs[0].level, LogLevel::Error);
    assert_eq!(
        logs[0].message,
        "Media Upload: Image with checksum qvTGHdzF6KLavt4PO0gs2a6pQ00= already exists for this user"
    );
}

#[test]
fn duplicate_is_reported_before_the_content_type() {
    let (mut s, _) = UploadSession::begin(request("application/pdf"));
    assert_eq!(
        s.on_duplicate_checked(Some(true)),
        UploadAction::Respond(Status::PreconditionFailed)
    );
}

#[test]
fn unsupported_type_is_refused() {
    let (mut s, a) = UploadSession::begin(request("application/pdf"));
    assert_eq!(a, UploadAction::CheckDuplicate);
    assert_eq!(
        s.on_duplicate_checked(Some(false)),
        UploadAction::Respond(Status::UnsupportedMediaType)
    );
    assert_eq!(Status::UnsupportedMediaType.code(), 415);
    assert_eq!(s.media_id, "");
    let logs = s.take_logs();
    assert_eq!(
        logs[0].message,
        "Media Upload: Tried to upload the unsupported media type application/pdf"
    );
}

#[test]
fn catalog_failure_on_duplicate_check_is_an_internal_error() {
    let (mut s, _) = UploadSession::begin(request("image/png"));
    assert_eq!(
        s.on_duplicate_checked(None),
        UploadAction::Respond(Status::InternalServerError)
    );
    assert!(s.take_logs().is_empty());
}

#[test]
fn malformed_headers_are_bad_requests() {
    let mut r = request("image/png");
    r.content_digest = Some("sha-256=:YQ==:".to_string());
    let (mut s, a) = UploadSession::begin(r);
    assert_eq!(a, UploadAction::Respond(Status::BadRequest));
    assert_eq!(s.phase, UploadPhase::Done);
    let logs = s.take_logs();
    assert_eq!(logs[0].message, "Media Upload: Could not convert the checksum into a string");

    let mut r = request("image/png");
    r.content_type = None;
    let (mut s, a) = UploadSession::begin(r);
    assert_eq!(a, UploadAction::Respond(Status::BadRequest));
    assert_eq!(
        s.take_logs()[0].message,
        "Media Upload: Content type could not be decoded or does not exist"
    );

    let mut r = request("image/png");
    r.timestamp = Some("yesterday".to_string());
    let (mut s, a) = UploadSession::begin(r);
    assert_eq!(a, UploadAction::Respond(Status::BadRequest));
    assert_eq!(
        s.take_logs()[0].message,
        "Media Upload: Timestamp header missing or invalid format"
    );
}

#[test]
fn failed_initiation_is_an_internal_error() {
    let (mut s, _) = UploadSession::begin(request("image/png"));
    s.on_duplicate_checked(Some(false));
    assert_eq!(s.on_initiated(None), UploadAction::Respond(Status::InternalServerError));
    assert_eq!(
        s.take_logs()[0].message,
        "Media Upload: Error uploading media to object storage"
    );
}

#[test]
fn large_body_is_stored_in_parts() {
    let mut s = admitted();
    assert_eq!(s.on_chunk(vec![1u8; PART_SIZE]), UploadAction::ReadBody);
    assert_eq!(s.on_chunk(vec![2u8; PART_SIZE + 7]), UploadAction::StorePart);
    assert_eq!(s.phase, UploadPhase::StoringPart);
    assert_eq!(s.part_number(), 1);
    assert_eq!(s.outgoing.len(), PART_SIZE);
    assert!(s.outgoing.iter().all(|b| *b == 1));
    assert_eq!(s.on_part_stored(Some("a".to_string())), UploadAction::ReadBody);

    assert_eq!(s.on_chunk(vec![3u8; 5]), UploadAction::StorePart);
    assert_eq!(s.part_number(), 2);
    assert_eq!(s.outgoing.len(), PART_SIZE + 7);
    assert_eq!(s.on_part_stored(Some("b".to_string())), UploadAction::ReadBody);

    assert_eq!(s.on_body_end(), UploadAction::StorePart);
    assert_eq!(s.phase, UploadPhase::StoringLastPart);
    assert_eq!(s.part_number(), 3);
    assert_eq!(s.outgoing, vec![3u8; 5]);
    assert_eq!(s.file_size, (2 * PART_SIZE + 12) as i64);
    assert_eq!(s.on_part_stored(Some("c".to_string())), UploadAction::Complete);
    assert_eq!(s.etags, vec!["a".to_string(), "b".to_string(), "c".to_string()]);
}

#[test]
fn empty_body_is_stored_as_one_empty_part() {
    let mut s = admitted();
    assert_eq!(s.on_body_end(), UploadAction::StorePart);
    assert!(s.outgoing.is_empty());
    assert_eq!(s.part_number(), 1);
    assert_eq!(s.file_size, 0);
}

#[test]
fn unreadable_body_aborts_with_a_bad_request() {
    let mut s = admitted();
    s.on_chunk(vec![1]);
    assert_eq!(s.on_body_error(), UploadAction::Abort);
    assert_eq!(s.phase, UploadPhase::Aborting);
    assert_eq!(s.on_aborted(), UploadAction::Respond(Status::BadRequest));
    assert_eq!(
        s.take_logs()[0].message,
        "Media Upload: Error receiving file from the client"
    );
}

#[test]
fn failed_part_aborts_with_an_internal_error() {
    let mut s = admitted();
    s.on_chunk(vec![1]);
    s.on_body_end();
    assert_eq!(s.on_part_stored(None), UploadAction::Abort);
    assert_eq!(s.on_aborted(), UploadAction::Respond(Status::InternalServerError));
}

#[test]
fn failed_completion_aborts_and_never_inserts() {
    let mut s = admitted();
    s.on_body_end();
    s.on_part_stored(Some("a".to_string()));
    assert_eq!(s.on_completed(false), UploadAction::Abort);
    assert_eq!(s.on_aborted(), UploadAction::Respond(Status::InternalServerError));
    assert_eq!(s.on_inserted(true), UploadAction::Respond(Status::InternalServerError));
}

#[test]
fn failed_insert_deletes_the_object() {
    let mut s = admitted();
    s.on_body_end();
    s.on_part_stored(Some("a".to_string()));
    s.on_completed(true);
    assert_eq!(s.on_inserted(false), UploadAction::DeleteObject);
    assert_eq!(s.phase, UploadPhase::Compensating);
    assert_eq!(s.on_object_deleted(true), UploadAction::Respond(Status::InternalServerError));
    let logs = s.take_logs();
    assert_eq!(logs.len(), 1);
    assert_eq!(logs[0].message, "Media Upload: Error uploading media to object storage");
}

#[test]
fn failed_compensation_is_logged() {
    let mut s = admitted();
    s.on_body_end();
    s.on_part_stored(Some("a".to_string()));
    s.on_completed(true);
    s.on_inserted(false);
    assert_eq!(s.on_object_deleted(false), UploadAction::Respond(Status::InternalServerError));
    let logs = s.take_logs();
    assert_eq!(logs.len(), 2);
    assert_eq!(
        logs[1].message,
        format!("Media Upload: Could not remove the stored object {}", s.media_id)
    );
}

#[test]
fn failed_publish_is_an_internal_error() {
    let mut s = admitted();
    s.on_body_end();
    s.on_part_stored(Some("a".to_string()));
    s.on_completed(true);
    s.on_inserted(true);
    assert_eq!(s.on_published(true), UploadAction::Publish(Subject::Metadata));
    assert_eq!(s.on_published(false), UploadAction::Respond(Status::InternalServerError));
    assert_eq!(s.take_logs()[0].message, "Media Upload: Error publishing picture to NATS");
}

#[test]
fn unexpected_event_ends_the_upload() {
    let (mut s, _) = UploadSession::begin(request("image/png"));
    assert_eq!(s.on_chunk(vec![1]), UploadAction::Respond(Status::InternalServerError));
    assert_eq!(s.phase, UploadPhase::Done);
    assert_eq!(s.on_duplicate_checked(Some(false)), UploadAction::Respond(Status::InternalServerError));
}

#[test]
fn finished_upload_repeats_its_answer() {
    let (mut s, _) = UploadSession::begin(request("image/png"));
    s.on_duplicate_checked(Some(true));
    assert_eq!(s.on_published(true), UploadAction::Respond(Status::PreconditionFailed));
    assert_eq!(s.on_aborted(), UploadAction::Respond(Status::PreconditionFailed));
}

#[test]
fn subjects_are_announced_in_order() {
    assert_eq!(Subject::Previews.name(), "previews");
    assert_eq!(Subject::Metadata.name(), "metadata");
    assert_eq!(Subject::ImageProcess.name(), "image-process");
    assert_eq!(Subject::Previews.next(), Some(Subject::Metadata));
    assert_eq!(Subject::Metadata.next(), Some(Subject::ImageProcess));
    assert_eq!(Subject::ImageProcess.next(), None);
}

#[test]
fn status_codes() {
    assert_eq!(Status::Success.code(), 200);
    assert_eq!(Status::BadRequest.code(), 400);
    assert_eq!(Status::Unauthorized.code(), 401);
    assert_eq!(Status::Forbidden.code(), 403);
    assert_eq!(Status::NotFound.code(), 404);
    assert_eq!(Status::PreconditionFailed.code(), 412);
    assert_eq!(Status::UnsupportedMediaType.code(), 415);
    assert_eq!(Status::InternalServerError.code(), 500);
    assert!(Status::Success.is_success());
    assert!(!Status::Forbidden.is_success());
}

fn upload(catalog: &mut chronolens::catalog::DbManager, content_type: &str, body: &[u8], now: i64) -> (Status, String) {
    let (mut s, mut action) = UploadSession::begin(request(content_type));
    let mut pieces = body.chunks(3);
    loop {
        action = match action {
            UploadAction::CheckDuplicate => s.check_duplicate(catalog),
            UploadAction::Initiate => s.on_initiated(Some("upload-1".to_string())),
            UploadAction::ReadBody => match pieces.next() {
                Some(piece) => s.on_chunk(piece.to_vec()),
                None => s.on_body_end(),
            },
            UploadAction::StorePart => {
                let tag = format!("etag-{}", s.part_number());
                s.on_part_stored(Some(tag))
            }
            UploadAction::Complete => s.on_completed(true),
            UploadAction::Insert => {
                let inserted = s.insert_row(catalog, now).is_ok();
                s.on_inserted(inserted)
            }
            UploadAction::DeleteObject => s.on_object_deleted(true),
            UploadAction::Abort => s.on_aborted(),
            UploadAction::Publish(_) => s.on_published(true),
            UploadAction::Respond(status) => return (status, s.media_id.clone()),
        };
    }
}

#[test]
fn second_upload_of_the_same_bytes_is_refused() {
    let mut catalog = chronolens::catalog::DbManager::new();
    let (first, id) = upload(&mut catalog, "image/png", b"red pixels", 100);
    assert_eq!(first, Status::Success);
    assert_eq!(first.code(), 200);
    let (second, _) = upload(&mut catalog, "image/png", b"red pixels", 200);
    assert_eq!(second, Status::PreconditionFailed);
    assert_eq!(second.code(), 412);
    let held: Vec<_> = catalog
        .media
        .iter()
        .filter(|m| m.user_id == "alice" && m.hash == "qvTGHdzF6KLavt4PO0gs2a6pQ00=")
        .collect();
    assert_eq!(held.len(), 1);
    assert_eq!(held[0].id, id);
    assert_eq!(held[0].created_at, 1700000000000);
    assert_eq!(held[0].last_modified_at, 100);
    assert_eq!(held[0].file_size, 10);
    assert_eq!(held[0].file_name, "red.png");
    assert!(held[0].preview_id.is_none() && !held[0].deleted);
    let listed = catalog.sync_full("alice");
    assert_eq!(listed.len(), 1);
    assert_eq!((listed[0].id.as_str(), listed[0].created_at), (id.as_str(), 1700000000000));
    assert_eq!(listed[0].hash, "qvTGHdzF6KLavt4PO0gs2a6pQ00=");
}

#[test]
fn deleted_media_still_stands_in_the_way_of_its_bytes() {
    let mut catalog = chronolens::catalog::DbManager::new();
    let (first, id) = upload(&mut catalog, "image/png", b"red pixels", 100);
    assert_eq!(first, Status::Success);
    assert_eq!(catalog.delete_media(&id, "alice", 150), Ok(()));
    assert_eq!(upload(&mut catalog, "image/png", b"red pixels", 200).0, Status::PreconditionFailed);
    assert_eq!(catalog.media.len(), 1);
}

#[test]
fn unsupported_upload_creates_no_row() {
    let mut catalog = chronolens::catalog::DbManager::new();
    let (answer, _) = upload(&mut catalog, "application/pdf", b"red pixels", 100);
    assert_eq!(answer, Status::UnsupportedMediaType);
    assert_eq!(answer.code(), 415);
    assert!(catalog.media.is_empty());
}
