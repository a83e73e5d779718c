//! The upload ingress.
//!
//! An upload is a conversation between the HTTP layer, the catalog, the
//! object store and the message bus. [`UploadSession`] holds the decisions of
//! that conversation: it is told what happened and answers with what to do
//! next. The caller performs each [`UploadAction`] and reports its result
//! through the matching `on_` method, until the action is
//! [`UploadAction::Respond`].
//!
//! The order is fixed: validate the headers, ask the catalog for a
//! duplicate, check the content type, open a multipart upload, stream the
//! body in parts, complete the upload, insert the catalog row, announce the
//! new original on the three work subjects. The row is inserted only after
//! the object store has committed the object; if the insert fails, the
//! object is deleted again.

use crate::assembler::{
    all_full, joined, lemma_joined_push, PartAssembler, Pushed, MAX_BODY_SIZE, PART_SIZE,
};
use crate::bus::Subject;
use crate::catalog::{has_id, holds_digest, AddMediaError, DbManager};
use crate::digest::{content_digest, get_content_digest, DigestError};
use crate::ids::{is_hyphenated_id, random_id};
use crate::logs::{LogLevel, LogLine};
use crate::status::Status;
use crate::text::{decimal_i64, parse_i64, str_eq, text_of};
use vstd::prelude::*;

verus! {

/// Whether uploads of content type `t` are accepted.
pub open spec fn is_supported_type(t: Seq<char>) -> bool {
    t == "image/png"@ || t == "image/jpeg"@ || t == "image/heic"@ || t == "image/heif"@
}

/// Whether uploads of this content type are accepted.
pub fn is_allowed_content_type(content_type: &str) -> (allowed: bool)
    ensures
        allowed == is_supported_type(content_type@),
{
    str_eq(content_type, "image/png") || str_eq(content_type, "image/jpeg") || str_eq(
        content_type,
        "image/heic",
    ) || str_eq(content_type, "image/heif")
}

/// Why the headers of an upload were refused.
#[derive(Clone, Copy, Debug, PartialEq, Eq, Structural)]
pub enum HeaderError {
    /// The `Content-Digest` header is missing or malformed.
    Digest(DigestError),
    /// The `Content-Type` header is missing.
    ContentType,
    /// The `Timestamp` header is missing or is no 64-bit decimal number.
    Timestamp,
}

/// What the headers of an upload say once they have been validated.
pub struct UploadHeaders {
    /// The digest under which the media is deduplicated.
    pub digest: String,
    /// The content type that the client declared.
    pub content_type: String,
    /// When the media was captured, in milliseconds since the epoch.
    pub created_at: i64,
}

/// What `parse_upload_headers` makes of the three header values: the
/// digest, the content type and the capture time, or the first of them that
/// is missing or malformed.
pub open spec fn upload_headers(
    digest: Option<Seq<char>>,
    content_type: Option<Seq<char>>,
    timestamp: Option<Seq<char>>,
) -> Result<(Seq<char>, Seq<char>, i64), HeaderError> {
    match content_digest(digest) {
        Err(e) => Err(HeaderError::Digest(e)),
        Ok(d) => match content_type {
            None => Err(HeaderError::ContentType),
            Some(t) => match timestamp {
                None => Err(HeaderError::Timestamp),
                Some(ts) => match decimal_i64(ts) {
                    None => Err(HeaderError::Timestamp),
                    Some(at) => Ok((d, t, at)),
                },
            },
        },
    }
}

/// Validates the `Content-Digest`, `Content-Type` and `Timestamp` headers of
/// an upload.
pub fn parse_upload_headers(
    digest: &Option<String>,
    content_type: &Option<String>,
    timestamp: &Option<String>,
) -> (parsed: Result<UploadHeaders, HeaderError>)
    ensures
        match parsed {
            Ok(h) => upload_headers(text_of(*digest), text_of(*content_type), text_of(*timestamp))
                == Ok::<(Seq<char>, Seq<char>, i64), HeaderError>(
                (h.digest@, h.content_type@, h.created_at),
            ),
            Err(e) => upload_headers(text_of(*digest), text_of(*content_type), text_of(*timestamp))
                == Err::<(Seq<char>, Seq<char>, i64), HeaderError>(e),
        },
{
    let digest_text: Option<&str> = match digest {
        Some(d) => Some(d.as_str()),
        None => None,
    };
    let digest = match get_content_digest(digest_text) {
        Ok(d) => d,
        Err(e) => return Err(HeaderError::Digest(e)),
    };
    let content_type = match content_type {
        Some(t) => t.clone(),
        None => return Err(HeaderError::ContentType),
    };
    let created_at = match timestamp {
        Some(ts) => match parse_i64(ts.as_str()) {
            Some(at) => at,
            None => return Err(HeaderError::Timestamp),
        },
        None => return Err(HeaderError::Timestamp),
    };
    Ok(UploadHeaders { digest, content_type, created_at })
}

/// What the user's log says when the headers of an upload are refused.
pub open spec fn header_error_text(e: HeaderError) -> Seq<char> {
    match e {
        HeaderError::Digest(_) => "Media Upload: Could not convert the checksum into a string"@,
        HeaderError::ContentType =>
            "Media Upload: Content type could not be decoded or does not exist"@,
        HeaderError::Timestamp => "Media Upload: Timestamp header missing or invalid format"@,
    }
}

/// What the user's log says when the digest is already in the catalog.
pub open spec fn duplicate_text(digest: Seq<char>) -> Seq<char> {
    "Media Upload: Image with checksum "@ + digest + " already exists for this user"@
}

/// What the user's log says when the content type is not accepted.
pub open spec fn unsupported_text(content_type: Seq<char>) -> Seq<char> {
    "Media Upload: Tried to upload the unsupported media type "@ + content_type
}

/// What the user's log says when the object store or the catalog failed.
pub open spec fn storage_error_text() -> Seq<char> {
    "Media Upload: Error uploading media to object storage"@
}

/// What the user's log says when the body could not be read to its end.
pub open spec fn receive_error_text() -> Seq<char> {
    "Media Upload: Error receiving file from the client"@
}

/// What the user's log says when an announcement on the bus failed.
pub open spec fn publish_error_text() -> Seq<char> {
    "Media Upload: Error publishing picture to NATS"@
}

/// What the user's log says when the object of a failed insert could not be
/// deleted again.
pub open spec fn orphan_text(media_id: Seq<char>) -> Seq<char> {
    "Media Upload: Could not remove the stored object "@ + media_id
}

/// What the user's log says when an upload succeeded.
pub open spec fn success_text(file_name: Seq<char>, media_id: Seq<char>) -> Seq<char> {
    "Media Upload: "@ + file_name + " uploaded successfully with id "@ + media_id
}

/// What a client sends to start an upload.
pub struct UploadRequest {
    /// The authenticated user.
    pub user_id: String,
    /// Value of the `Content-Digest` header.
    pub content_digest: Option<String>,
    /// Value of the `Content-Type` header.
    pub content_type: Option<String>,
    /// Value of the `Timestamp` header.
    pub timestamp: Option<String>,
    /// The name of the file on the client, where it is known.
    pub file_name: Option<String>,
}

/// Where an upload stands.
#[derive(Clone, Copy, Debug, PartialEq, Eq, Structural)]
pub enum UploadPhase {
    /// The catalog is asked whether the user already holds the digest.
    CheckingDuplicate,
    /// The object store is asked to open a multipart upload.
    Initiating,
    /// The next piece of the body is awaited.
    Receiving,
    /// A full part is being stored while the body is still coming.
    StoringPart,
    /// The trailing part is being stored.
    StoringLastPart,
    /// The object store is asked to commit the parts.
    Completing,
    /// The catalog is asked to insert the row.
    Inserting,
    /// The object is being deleted after the insert failed.
    Compensating,
    /// The multipart upload is being aborted after a failure.
    Aborting,
    /// The new original is being announced on a subject.
    Publishing(Subject),
    /// The response is decided.
    Done,
}

/// What the caller has to do next.
#[derive(Clone, Copy, Debug, PartialEq, Eq, Structural)]
pub enum UploadAction {
    /// Ask the catalog whether the user already holds the digest.
    CheckDuplicate,
    /// Open a multipart upload under the media id.
    Initiate,
    /// Read the next piece of the body.
    ReadBody,
    /// Store the outgoing part under its part number.
    StorePart,
    /// Commit the multipart upload with the tags of its parts, in order.
    Complete,
    /// Insert the catalog row.
    Insert,
    /// Delete the object again.
    DeleteObject,
    /// Abort the multipart upload, as far as that is possible.
    Abort,
    /// Publish the media id on the subject.
    Publish(Subject),
    /// Answer the client.
    Respond(Status),
}

/// The state of one upload.
pub struct UploadSession {
    /// Where the upload stands.
    pub phase: UploadPhase,
    /// The authenticated user.
    pub user_id: String,
    /// The id of the new media, which is also the key of its object. Empty
    /// until the upload has been admitted.
    pub media_id: String,
    /// The digest that the client declared.
    pub digest: String,
    /// The content type that the client declared.
    pub content_type: String,
    /// When the media was captured.
    pub created_at: i64,
    /// The name under which the media is catalogued.
    pub file_name: String,
    /// The object store's handle of the multipart upload.
    pub upload_id: String,
    /// Size of the body in bytes, known once the body has ended.
    pub file_size: i64,
    /// The part that is to be stored now.
    pub outgoing: Vec<u8>,
    /// The tags under which the object store filed the parts, in order.
    pub etags: Vec<String>,
    /// The response, once the phase is `Aborting` or `Done`.
    pub outcome: Status,
    /// Lines that wait to be appended to the user's log.
    pub logs: Vec<LogLine>,
    /// The buffer between the body and the object store.
    pub assembler: PartAssembler,
    /// The parts handed to the caller for storing so far, in order.
    pub sent: Ghost<Seq<Seq<u8>>>,
    /// The body as far as it has been received.
    pub body: Ghost<Seq<u8>>,
}

impl UploadSession {
    /// Whether the parts handed out so far are the whole body: at least one
    /// part, all but the last one full, and together they spell the body.
    pub open spec fn parts_spell_body(&self) -> bool {
        &&& self.sent@.len() >= 1
        &&& joined(self.sent@) == self.body@
        &&& all_full(self.sent@.drop_last())
        &&& self.file_size == self.body@.len()
    }

    /// The bytes received that are in no part yet.
    pub open spec fn buffered(&self) -> Seq<u8> {
        self.body@.skip(joined(self.sent@).len() as int)
    }

    /// Whether the phase is one in which the media id has been minted and
    /// the upload has not yet failed.
    pub open spec fn admitted(&self) -> bool {
        match self.phase {
            UploadPhase::CheckingDuplicate | UploadPhase::Aborting => false,
            UploadPhase::Done => self.outcome == Status::Success,
            _ => true,
        }
    }

    /// The invariant of a session.
    pub open spec fn wf(&self) -> bool {
        &&& self.assembler.wf()
        &&& self.body@.len() <= MAX_BODY_SIZE
        &&& self.admitted() ==> is_hyphenated_id(self.media_id@) && is_supported_type(
            self.content_type@,
        )
        &&& match self.phase {
            UploadPhase::Receiving => {
                &&& self.sent@ == self.assembler.shipped()
                &&& self.body@ == self.assembler.body()
                &&& self.etags@.len() == self.sent@.len()
            },
            UploadPhase::StoringPart => {
                &&& self.sent@ == self.assembler.shipped()
                &&& self.body@ == self.assembler.body()
                &&& self.etags@.len() + 1 == self.sent@.len()
                &&& self.outgoing@ == self.sent@.last()
            },
            UploadPhase::StoringLastPart => {
                &&& self.parts_spell_body()
                &&& self.etags@.len() + 1 == self.sent@.len()
                &&& self.outgoing@ == self.sent@.last()
            },
            UploadPhase::Completing | UploadPhase::Inserting | UploadPhase::Compensating
            | UploadPhase::Publishing(_) => {
                &&& self.parts_spell_body()
                &&& self.etags@.len() == self.sent@.len()
            },
            UploadPhase::Done => self.outcome == Status::Success ==> {
                &&& self.parts_spell_body()
                &&& self.etags@.len() == self.sent@.len()
            },
            UploadPhase::Aborting => self.outcome != Status::Success,
            _ => true,
        }
    }

    /// Whether `self` and `before` are about the same upload: the same user,
    /// digest, content type, capture time, media id, file name and handle.
    pub open spec fn same_upload(&self, before: &Self) -> bool {
        &&& self.user_id@ == before.user_id@
        &&& self.digest@ == before.digest@
        &&& self.content_type@ == before.content_type@
        &&& self.created_at == before.created_at
        &&& self.media_id@ == before.media_id@
        &&& self.file_name@ == before.file_name@
        &&& self.upload_id@ == before.upload_id@
    }

    /// Whether `self` has stored and received what `before` had.
    pub open spec fn same_transfer(&self, before: &Self) -> bool {
        &&& self.sent@ == before.sent@
        &&& self.body@ == before.body@
        &&& self.etags@ == before.etags@
        &&& self.file_size == before.file_size
    }

    /// Whether the log of `self` is that of `before` and one more line.
    pub open spec fn logged(&self, before: &Self, level: LogLevel, text: Seq<char>) -> bool {
        &&& self.logs@.len() == before.logs@.len() + 1
        &&& self.logs@.drop_last() == before.logs@
        &&& self.logs@.last().level == level
        &&& self.logs@.last().message@ == text
    }

    /// Whether `self` is what became of `before` when it was told something
    /// that its phase does not expect: the upload is over, with an internal
    /// error unless it was over already.
    pub open spec fn refused(&self, before: &Self, action: UploadAction) -> bool {
        &&& self.phase == UploadPhase::Done
        &&& self.outcome == if before.phase == UploadPhase::Done {
            before.outcome
        } else {
            Status::InternalServerError
        }
        &&& action == UploadAction::Respond(self.outcome)
        &&& self.same_upload(before)
        &&& self.logs@ == before.logs@
    }

    /// Whether `self` is `before` after a failure that ends the upload at
    /// once: one more line in the log, and the response is `status`.
    pub open spec fn failed(
        &self,
        before: &Self,
        action: UploadAction,
        status: Status,
        text: Seq<char>,
    ) -> bool {
        &&& self.phase == UploadPhase::Done
        &&& self.outcome == status
        &&& action == UploadAction::Respond(status)
        &&& self.same_upload(before)
        &&& self.logged(before, LogLevel::Error, text)
    }

    /// Whether `self` is `before` after a failure while the multipart upload
    /// was open: one more line in the log, the multipart upload is to be
    /// aborted, and the response will be `status`.
    pub open spec fn aborting(&self, before: &Self, action: UploadAction, status: Status, text: Seq<
        char,
    >) -> bool {
        &&& self.phase == UploadPhase::Aborting
        &&& self.outcome == status
        &&& action == UploadAction::Abort
        &&& self.same_upload(before)
        &&& self.logged(before, LogLevel::Error, text)
    }

    fn log(&mut self, level: LogLevel, message: String)
        ensures
            final(self).logged(old(self), level, message@),
            final(self).phase == old(self).phase,
            final(self).outcome == old(self).outcome,
            final(self).same_upload(old(self)),
            final(self).same_transfer(old(self)),
            final(self).assembler == old(self).assembler,
            final(self).outgoing == old(self).outgoing,
    {
        self.logs.push(LogLine { level, message });
        assert(self.logs@.drop_last() == old(self).logs@);
    }

    fn refuse(&mut self) -> (action: UploadAction)
        requires
            old(self).wf(),
        ensures
            final(self).wf(),
            final(self).refused(old(self), action),
    {
        match self.phase {
            UploadPhase::Done => {},
            _ => {
                self.outcome = Status::InternalServerError;
            },
        }
        self.phase = UploadPhase::Done;
        UploadAction::Respond(self.outcome)
    }

    fn fail(&mut self, status: Status, message: String) -> (action: UploadAction)
        requires
            old(self).wf(),
            status != Status::Success,
        ensures
            final(self).wf(),
            final(self).failed(old(self), action, status, message@),
            final(self).same_transfer(old(self)),
    {
        self.log(LogLevel::Error, message);
        self.phase = UploadPhase::Done;
        self.outcome = status;
        UploadAction::Respond(status)
    }

    fn abort(&mut self, status: Status, message: String) -> (action: UploadAction)
        requires
            old(self).wf(),
            status != Status::Success,
        ensures
            final(self).wf(),
            final(self).aborting(old(self), action, status, message@),
    {
        self.log(LogLevel::Error, message);
        self.phase = UploadPhase::Aborting;
        self.outcome = status;
        UploadAction::Abort
    }

    /// Starts an upload: validates the headers.
    ///
    /// With valid headers the catalog is to be asked for a duplicate. With a
    /// missing or malformed header the upload is over: the client is
    /// answered with 400, and the user's log says which header it was.
    pub fn begin(request: UploadRequest) -> (started: (UploadSession, UploadAction))
        ensures
            started.0.wf(),
            started.0.user_id@ == request.user_id@,
            match upload_headers(
                text_of(request.content_digest),
                text_of(request.content_type),
                text_of(request.timestamp),
            ) {
                Ok((digest, content_type, created_at)) => {
                    &&& started.0.phase == UploadPhase::CheckingDuplicate
                    &&& started.1 == UploadAction::CheckDuplicate
                    &&& started.0.digest@ == digest
                    &&& started.0.content_type@ == content_type
                    &&& started.0.created_at == created_at
                    &&& started.0.file_name@ == match request.file_name {
                        Some(name) => name@,
                        None => Seq::<char>::empty(),
                    }
                    &&& started.0.logs@.len() == 0
                },
                Err(e) => {
                    &&& started.0.phase == UploadPhase::Done
                    &&& started.0.outcome == Status::BadRequest
                    &&& started.1 == UploadAction::Respond(Status::BadRequest)
                    &&& started.0.logs@.len() == 1
                    &&& started.0.logs@[0].level == LogLevel::Error
                    &&& started.0.logs@[0].message@ == header_error_text(e)
                },
            },
    {
        let parsed = parse_upload_headers(
            &request.content_digest,
            &request.content_type,
            &request.timestamp,
        );
        let mut session = UploadSession {
            phase: UploadPhase::CheckingDuplicate,
            user_id: request.user_id,
            media_id: String::new(),
            digest: String::new(),
            content_type: String::new(),
            created_at: 0,
            file_name: match request.file_name {
                Some(name) => name,
                None => String::new(),
            },
            upload_id: String::new(),
            file_size: 0,
            outgoing: Vec::new(),
            etags: Vec::new(),
            outcome: Status::InternalServerError,
            logs: Vec::new(),
            assembler: PartAssembler::new(),
            sent: Ghost(Seq::empty()),
            body: Ghost(Seq::empty()),
        };
        match parsed {
            Ok(headers) => {
                session.digest = headers.digest;
                session.content_type = headers.content_type;
                session.created_at = headers.created_at;
                (session, UploadAction::CheckDuplicate)
            },
            Err(e) => {
                let message = match e {
                    HeaderError::Digest(_) =>
                        "Media Upload: Could not convert the checksum into a string".to_owned(),
                    HeaderError::ContentType =>
                        "Media Upload: Content type could not be decoded or does not exist".to_owned(),
                    HeaderError::Timestamp =>
                        "Media Upload: Timestamp header missing or invalid format".to_owned(),
                };
                let action = session.fail(Status::BadRequest, message);
                (session, action)
            },
        }
    }

    /// The catalog has answered whether the user already holds the digest
    /// (`None`: it could not say).
    ///
    /// A duplicate ends the upload with 412, a content type that is not
    /// accepted with 415, a failure of the catalog with 500. Otherwise the
    /// media id is minted and the multipart upload is to be opened.
    pub fn on_duplicate_checked(&mut self, found: Option<bool>) -> (action: UploadAction)
        requires
            old(self).wf(),
        ensures
            final(self).wf(),
            old(self).phase != UploadPhase::CheckingDuplicate ==> final(self).refused(
                old(self),
                action,
            ),
            old(self).phase == UploadPhase::CheckingDuplicate ==> match found {
                None => {
                    &&& final(self).phase == UploadPhase::Done
                    &&& final(self).outcome == Status::InternalServerError
                    &&& action == UploadAction::Respond(Status::InternalServerError)
                    &&& final(self).same_upload(old(self))
                    &&& final(self).logs@ == old(self).logs@
                },
                Some(true) => final(self).failed(
                    old(self),
                    action,
                    Status::PreconditionFailed,
                    duplicate_text(old(self).digest@),
                ),
                Some(false) => if !is_supported_type(old(self).content_type@) {
                    final(self).failed(
                        old(self),
                        action,
                        Status::UnsupportedMediaType,
                        unsupported_text(old(self).content_type@),
                    )
                } else {
                    &&& final(self).phase == UploadPhase::Initiating
                    &&& action == UploadAction::Initiate
                    &&& is_hyphenated_id(final(self).media_id@)
                    &&& final(self).file_name@ == if old(self).file_name@.len() == 0 {
                        final(self).media_id@
                    } else {
                        old(self).file_name@
                    }
                    &&& final(self).user_id@ == old(self).user_id@
                    &&& final(self).digest@ == old(self).digest@
                    &&& final(self).content_type@ == old(self).content_type@
                    &&& final(self).created_at == old(self).created_at
                    &&& final(self).logs@ == old(self).logs@
                },
            },
    {
        match self.phase {
            UploadPhase::CheckingDuplicate => {},
            _ => {
                return self.refuse();
            },
        }
        match found {
            None => {
                self.phase = UploadPhase::Done;
                self.outcome = Status::InternalServerError;
                UploadAction::Respond(Status::InternalServerError)
            },
            Some(true) => {
                let message = "Media Upload: Image with checksum ".to_owned().concat(
                    self.digest.as_str(),
                ).concat(" already exists for this user");
                self.fail(Status::PreconditionFailed, message)
            },
            Some(false) => {
                if !is_allowed_content_type(self.content_type.as_str()) {
                    let message =
                        "Media Upload: Tried to upload the unsupported media type ".to_owned().concat(
                        self.content_type.as_str(),
                    );
                    return self.fail(Status::UnsupportedMediaType, message);
                }
                self.media_id = random_id();
                if self.file_name.as_str().unicode_len() == 0 {
                    self.file_name = self.media_id.clone();
                }
                self.phase = UploadPhase::Initiating;
                UploadAction::Initiate
            },
        }
    }

    /// Asks the catalog whether the user already holds the digest, and goes
    /// on from its answer: a digest that the user holds ends the upload
    /// with 412.
    pub fn check_duplicate(&mut self, catalog: &DbManager) -> (action: UploadAction)
        requires
            old(self).wf(),
        ensures
            final(self).wf(),
            old(self).phase != UploadPhase::CheckingDuplicate ==> final(self).refused(
                old(self),
                action,
            ),
            old(self).phase == UploadPhase::CheckingDuplicate ==> {
                if holds_digest(catalog.media@, old(self).user_id@, old(self).digest@) {
                    final(self).failed(
                        old(self),
                        action,
                        Status::PreconditionFailed,
                        duplicate_text(old(self).digest@),
                    )
                } else if !is_supported_type(old(self).content_type@) {
                    final(self).failed(
                        old(self),
                        action,
                        Status::UnsupportedMediaType,
                        unsupported_text(old(self).content_type@),
                    )
                } else {
                    &&& final(self).phase == UploadPhase::Initiating
                    &&& action == UploadAction::Initiate
                    &&& is_hyphenated_id(final(self).media_id@)
                    &&& final(self).file_name@ == if old(self).file_name@.len() == 0 {
                        final(self).media_id@
                    } else {
                        old(self).file_name@
                    }
                    &&& final(self).user_id@ == old(self).user_id@
                    &&& final(self).digest@ == old(self).digest@
                    &&& final(self).content_type@ == old(self).content_type@
                    &&& final(self).created_at == old(self).created_at
                    &&& final(self).logs@ == old(self).logs@
                }
            },
    {
        let held = catalog.query_media(self.user_id.as_str(), self.digest.as_str());
        self.on_duplicate_checked(Some(held))
    }

    /// Inserts the row of the upload into the catalog, stamped with `now`:
    /// the media of the user under its id, with the digest, the capture
    /// time, the size and the name of the upload. From then on the user
    /// holds the digest.
    pub fn insert_row(&self, catalog: &mut DbManager, now: i64) -> (added: Result<
        (),
        AddMediaError,
    >)
        requires
            old(catalog).wf(),
        ensures
            final(catalog).wf(),
            final(catalog).same_but_media(old(catalog)),
            match added {
                Ok(()) => {
                    &&& !holds_digest(old(catalog).media@, self.user_id@, self.digest@)
                    &&& !has_id(old(catalog).media@, self.media_id@)
                    &&& final(catalog).media@.len() == old(catalog).media@.len() + 1
                    &&& final(catalog).media@.drop_last() == old(catalog).media@
                    &&& final(catalog).media@.last().id@ == self.media_id@
                    &&& final(catalog).media@.last().user_id@ == self.user_id@
                    &&& final(catalog).media@.last().hash@ == self.digest@
                    &&& final(catalog).media@.last().created_at == self.created_at
                    &&& final(catalog).media@.last().last_modified_at == now
                    &&& final(catalog).media@.last().file_size == self.file_size
                    &&& final(catalog).media@.last().file_name@ == self.file_name@
                    &&& final(catalog).media@.last().preview_id is None
                    &&& final(catalog).media@.last().metadata.is_empty()
                    &&& !final(catalog).media@.last().deleted
                    &&& holds_digest(final(catalog).media@, self.user_id@, self.digest@)
                },
                Err(AddMediaError::DuplicateDigest) => {
                    &&& holds_digest(old(catalog).media@, self.user_id@, self.digest@)
                    &&& final(catalog).media@ == old(catalog).media@
                },
                Err(AddMediaError::DuplicateId) => {
                    &&& !holds_digest(old(catalog).media@, self.user_id@, self.digest@)
                    &&& has_id(old(catalog).media@, self.media_id@)
                    &&& final(catalog).media@ == old(catalog).media@
                },
            },
    {
        let added = catalog.add_media(
            self.user_id.clone(),
            self.media_id.clone(),
            self.digest.clone(),
            self.created_at,
            self.file_size,
            self.file_name.clone(),
            now,
        );
        proof {
            if added is Ok {
                let last = catalog.media@.len() - 1;
                assert(crate::catalog::carries(catalog.media@[last], self.user_id@, self.digest@));
            }
        }
        added
    }

    /// The object store has opened the multipart upload and named its handle
    /// (`None`: it failed).
    pub fn on_initiated(&mut self, upload_id: Option<String>) -> (action: UploadAction)
        requires
            old(self).wf(),
        ensures
            final(self).wf(),
            old(self).phase != UploadPhase::Initiating ==> final(self).refused(old(self), action),
            old(self).phase == UploadPhase::Initiating ==> match upload_id {
                None => final(self).failed(
                    old(self),
                    action,
                    Status::InternalServerError,
                    storage_error_text(),
                ),
                Some(handle) => {
                    &&& final(self).phase == UploadPhase::Receiving
                    &&& action == UploadAction::ReadBody
                    &&& final(self).upload_id@ == handle@
                    &&& final(self).user_id@ == old(self).user_id@
                    &&& final(self).digest@ == old(self).digest@
                    &&& final(self).content_type@ == old(self).content_type@
                    &&& final(self).created_at == old(self).created_at
                    &&& final(self).media_id@ == old(self).media_id@
                    &&& final(self).file_name@ == old(self).file_name@
                    &&& final(self).logs@ == old(self).logs@
                    &&& final(self).body@ == Seq::<u8>::empty()
                    &&& final(self).sent@ == Seq::<Seq<u8>>::empty()
                    &&& final(self).etags@ == Seq::<String>::empty()
                },
            },
    {
        match self.phase {
            UploadPhase::Initiating => {},
            _ => {
                return self.refuse();
            },
        }
        match upload_id {
            None => self.fail(
                Status::InternalServerError,
                "Media Upload: Error uploading media to object storage".to_owned(),
            ),
            Some(handle) => {
                self.upload_id = handle;
                self.assembler = PartAssembler::new();
                self.etags = Vec::new();
                self.outgoing = Vec::new();
                self.sent = Ghost(Seq::empty());
                self.body = Ghost(Seq::empty());
                self.phase = UploadPhase::Receiving;
                assert(joined(Seq::<Seq<u8>>::empty()) + Seq::<u8>::empty() == Seq::<u8>::empty());
                UploadAction::ReadBody
            },
        }
    }

    /// A piece of the body has arrived.
    ///
    /// Where the buffer already held a full part, that part is to be stored
    /// now and the piece starts the next one. Otherwise the piece joins the
    /// buffer and the body is read on. A body of more than
    /// [`MAX_BODY_SIZE`] bytes ends the upload like a body that cannot be
    /// read.
    pub fn on_chunk(&mut self, piece: Vec<u8>) -> (action: UploadAction)
        requires
            old(self).wf(),
        ensures
            final(self).wf(),
            old(self).phase != UploadPhase::Receiving ==> final(self).refused(old(self), action),
            old(self).phase == UploadPhase::Receiving ==> {
                if old(self).body@.len() + piece@.len() > MAX_BODY_SIZE {
                    final(self).aborting(
                        old(self),
                        action,
                        Status::BadRequest,
                        receive_error_text(),
                    )
                } else {
                    &&& final(self).same_upload(old(self))
                    &&& final(self).logs@ == old(self).logs@
                    &&& final(self).etags@ == old(self).etags@
                    &&& final(self).body@ == old(self).body@ + piece@
                    &&& if old(self).buffered().len() >= PART_SIZE {
                        &&& final(self).phase == UploadPhase::StoringPart
                        &&& action == UploadAction::StorePart
                        &&& final(self).outgoing@ == old(self).buffered()
                        &&& final(self).sent@ == old(self).sent@.push(old(self).buffered())
                    } else {
                        &&& final(self).phase == UploadPhase::Receiving
                        &&& action == UploadAction::ReadBody
                        &&& final(self).sent@ == old(self).sent@
                    }
                }
            },
    {
        match self.phase {
            UploadPhase::Receiving => {},
            _ => {
                return self.refuse();
            },
        }
        let ghost incoming = piece@;
        match self.assembler.push(piece) {
            Pushed::TooLarge => self.abort(
                Status::BadRequest,
                "Media Upload: Error receiving file from the client".to_owned(),
            ),
            Pushed::Buffered => {
                self.body = Ghost(self.body@ + incoming);
                UploadAction::ReadBody
            },
            Pushed::Part(part) => {
                proof {
                    lemma_joined_push(self.sent@, part@);
                }
                self.body = Ghost(self.body@ + incoming);
                self.sent = Ghost(self.sent@.push(part@));
                self.outgoing = part;
                self.phase = UploadPhase::StoringPart;
                UploadAction::StorePart
            },
        }
    }

    /// The body has ended: what is left in the buffer is to be stored as the
    /// trailing part.
    pub fn on_body_end(&mut self) -> (action: UploadAction)
        requires
            old(self).wf(),
        ensures
            final(self).wf(),
            old(self).phase != UploadPhase::Receiving ==> final(self).refused(old(self), action),
            old(self).phase == UploadPhase::Receiving ==> {
                &&& final(self).phase == UploadPhase::StoringLastPart
                &&& action == UploadAction::StorePart
                &&& final(self).same_upload(old(self))
                &&& final(self).logs@ == old(self).logs@
                &&& final(self).etags@ == old(self).etags@
                &&& final(self).body@ == old(self).body@
                &&& final(self).sent@ == old(self).sent@.push(final(self).outgoing@)
                &&& final(self).parts_spell_body()
            },
    {
        match self.phase {
            UploadPhase::Receiving => {},
            _ => {
                return self.refuse();
            },
        }
        let mut assembler = PartAssembler::new();
        core::mem::swap(&mut self.assembler, &mut assembler);
        let size: u64 = assembler.received();
        let part = assembler.finish();
        proof {
            assembler.lemma_wf();
            assert(self.sent@.push(part@).drop_last() =~= self.sent@);
        }
        self.file_size = size as i64;
        self.sent = Ghost(self.sent@.push(part@));
        self.outgoing = part;
        self.phase = UploadPhase::StoringLastPart;
        UploadAction::StorePart
    }

    /// The body could not be read to its end.
    pub fn on_body_error(&mut self) -> (action: UploadAction)
        requires
            old(self).wf(),
        ensures
            final(self).wf(),
            old(self).phase != UploadPhase::Receiving ==> final(self).refused(old(self), action),
            old(self).phase == UploadPhase::Receiving ==> final(self).aborting(
                old(self),
                action,
                Status::BadRequest,
                receive_error_text(),
            ),
    {
        match self.phase {
            UploadPhase::Receiving => {},
            _ => {
                return self.refuse();
            },
        }
        self.abort(
            Status::BadRequest,
            "Media Upload: Error receiving file from the client".to_owned(),
        )
    }

    /// The object store has filed the outgoing part under a tag (`None`: it
    /// failed).
    ///
    /// After a part in mid-stream the body is read on; after the trailing
    /// part the multipart upload is to be completed.
    pub fn on_part_stored(&mut self, etag: Option<String>) -> (action: UploadAction)
        requires
            old(self).wf(),
        ensures
            final(self).wf(),
            old(self).phase != UploadPhase::StoringPart && old(self).phase
                != UploadPhase::StoringLastPart ==> final(self).refused(old(self), action),
            old(self).phase == UploadPhase::StoringPart || old(self).phase
                == UploadPhase::StoringLastPart ==> match etag {
                None => final(self).aborting(
                    old(self),
                    action,
                    Status::InternalServerError,
                    storage_error_text(),
                ),
                Some(tag) => {
                    &&& final(self).same_upload(old(self))
                    &&& final(self).logs@ == old(self).logs@
                    &&& final(self).sent@ == old(self).sent@
                    &&& final(self).body@ == old(self).body@
                    &&& final(self).etags@ == old(self).etags@.push(tag)
                    &&& final(self).etags@.len() == final(self).sent@.len()
                    &&& if old(self).phase == UploadPhase::StoringPart {
                        &&& final(self).phase == UploadPhase::Receiving
                        &&& action == UploadAction::ReadBody
                    } else {
                        &&& final(self).phase == UploadPhase::Completing
                        &&& action == UploadAction::Complete
                        &&& final(self).parts_spell_body()
                    }
                },
            },
    {
        let last = match self.phase {
            UploadPhase::StoringPart => false,
            UploadPhase::StoringLastPart => true,
            _ => {
                return self.refuse();
            },
        };
        match etag {
            None => self.abort(
                Status::InternalServerError,
                "Media Upload: Error uploading media to object storage".to_owned(),
            ),
            Some(tag) => {
                self.etags.push(tag);
                self.outgoing = Vec::new();
                if last {
                    self.phase = UploadPhase::Completing;
                    UploadAction::Complete
                } else {
                    self.phase = UploadPhase::Receiving;
                    UploadAction::ReadBody
                }
            },
        }
    }

    /// The object store has committed the multipart upload, or failed to.
    ///
    /// Only after a commit is the catalog row to be inserted.
    pub fn on_completed(&mut self, committed: bool) -> (action: UploadAction)
        requires
            old(self).wf(),
        ensures
            final(self).wf(),
            old(self).phase != UploadPhase::Completing ==> final(self).refused(old(self), action),
            old(self).phase == UploadPhase::Completing ==> if committed {
                &&& final(self).phase == UploadPhase::Inserting
                &&& action == UploadAction::Insert
                &&& final(self).same_upload(old(self))
                &&& final(self).same_transfer(old(self))
                &&& final(self).logs@ == old(self).logs@
            } else {
                final(self).aborting(
                    old(self),
                    action,
                    Status::InternalServerError,
                    storage_error_text(),
                )
            },
            action == UploadAction::Insert ==> old(self).phase == UploadPhase::Completing
                && committed,
    {
        match self.phase {
            UploadPhase::Completing => {},
            _ => {
                return self.refuse();
            },
        }
        if committed {
            self.phase = UploadPhase::Inserting;
            UploadAction::Insert
        } else {
            self.abort(
                Status::InternalServerError,
                "Media Upload: Error uploading media to object storage".to_owned(),
            )
        }
    }

    /// The catalog has inserted the row, or failed to.
    ///
    /// After a failure the object is to be deleted again. After the insert
    /// the new original is announced, first on `previews`.
    pub fn on_inserted(&mut self, inserted: bool) -> (action: UploadAction)
        requires
            old(self).wf(),
        ensures
            final(self).wf(),
            old(self).phase != UploadPhase::Inserting ==> final(self).refused(old(self), action),
            old(self).phase == UploadPhase::Inserting ==> if inserted {
                &&& final(self).phase == UploadPhase::Publishing(Subject::Previews)
                &&& action == UploadAction::Publish(Subject::Previews)
                &&& final(self).same_upload(old(self))
                &&& final(self).same_transfer(old(self))
                &&& final(self).logs@ == old(self).logs@
            } else {
                &&& final(self).phase == UploadPhase::Compensating
                &&& action == UploadAction::DeleteObject
                &&& final(self).same_upload(old(self))
                &&& final(self).same_transfer(old(self))
                &&& final(self).logged(old(self), LogLevel::Error, storage_error_text())
            },
    {
        match self.phase {
            UploadPhase::Inserting => {},
            _ => {
                return self.refuse();
            },
        }
        if inserted {
            self.phase = UploadPhase::Publishing(Subject::Previews);
            UploadAction::Publish(Subject::Previews)
        } else {
            self.log(
                LogLevel::Error,
                "Media Upload: Error uploading media to object storage".to_owned(),
            );
            self.phase = UploadPhase::Compensating;
            UploadAction::DeleteObject
        }
    }

    /// The object has been deleted after a failed insert, or could not be.
    ///
    /// Either way the client is answered with 500. Where the object could
    /// not be deleted, the user's log says so.
    pub fn on_object_deleted(&mut self, deleted: bool) -> (action: UploadAction)
        requires
            old(self).wf(),
        ensures
            final(self).wf(),
            old(self).phase != UploadPhase::Compensating ==> final(self).refused(
                old(self),
                action,
            ),
            old(self).phase == UploadPhase::Compensating ==> {
                &&& final(self).phase == UploadPhase::Done
                &&& final(self).outcome == Status::InternalServerError
                &&& action == UploadAction::Respond(Status::InternalServerError)
                &&& final(self).same_upload(old(self))
                &&& if deleted {
                    final(self).logs@ == old(self).logs@
                } else {
                    final(self).logged(old(self), LogLevel::Error, orphan_text(old(self).media_id@))
                }
            },
    {
        match self.phase {
            UploadPhase::Compensating => {},
            _ => {
                return self.refuse();
            },
        }
        if !deleted {
            let message = "Media Upload: Could not remove the stored object ".to_owned().concat(
                self.media_id.as_str(),
            );
            self.log(LogLevel::Error, message);
        }
        self.phase = UploadPhase::Done;
        self.outcome = Status::InternalServerError;
        UploadAction::Respond(Status::InternalServerError)
    }

    /// The multipart upload has been aborted, as far as that was possible:
    /// the client is answered with what the failure decided.
    pub fn on_aborted(&mut self) -> (action: UploadAction)
        requires
            old(self).wf(),
        ensures
            final(self).wf(),
            old(self).phase != UploadPhase::Aborting ==> final(self).refused(old(self), action),
            old(self).phase == UploadPhase::Aborting ==> {
                &&& final(self).phase == UploadPhase::Done
                &&& final(self).outcome == old(self).outcome
                &&& action == UploadAction::Respond(old(self).outcome)
                &&& final(self).same_upload(old(self))
                &&& final(self).logs@ == old(self).logs@
            },
    {
        match self.phase {
            UploadPhase::Aborting => {},
            _ => {
                return self.refuse();
            },
        }
        self.phase = UploadPhase::Done;
        UploadAction::Respond(self.outcome)
    }

    /// The bus has taken the announcement on the current subject, or failed
    /// to.
    ///
    /// After `previews` comes `metadata`, then `image-process`; after the
    /// last one the client is answered with 200 and the media id. A failure
    /// ends the upload with 500; the catalog row stays.
    pub fn on_published(&mut self, published: bool) -> (action: UploadAction)
        requires
            old(self).wf(),
        ensures
            final(self).wf(),
            !(old(self).phase is Publishing) ==> final(self).refused(old(self), action),
            old(self).phase matches UploadPhase::Publishing(subject) ==> {
                &&& final(self).same_upload(old(self))
                &&& final(self).same_transfer(old(self))
                &&& if !published {
                    final(self).failed(
                        old(self),
                        action,
                        Status::InternalServerError,
                        publish_error_text(),
                    )
                } else {
                    match subject.spec_next() {
                        Some(next) => {
                            &&& final(self).phase == UploadPhase::Publishing(next)
                            &&& action == UploadAction::Publish(next)
                            &&& final(self).logs@ == old(self).logs@
                        },
                        None => {
                            &&& final(self).phase == UploadPhase::Done
                            &&& final(self).outcome == Status::Success
                            &&& action == UploadAction::Respond(Status::Success)
                            &&& final(self).logged(
                                old(self),
                                LogLevel::Info,
                                success_text(old(self).file_name@, old(self).media_id@),
                            )
                        },
                    }
                }
            },
            action == UploadAction::Respond(Status::Success) && old(self).phase
                != UploadPhase::Done ==> old(self).phase == UploadPhase::Publishing(
                Subject::ImageProcess,
            ) && published,
    {
        let subject = match self.phase {
            UploadPhase::Publishing(subject) => subject,
            _ => {
                return self.refuse();
            },
        };
        if !published {
            return self.fail(
                Status::InternalServerError,
                "Media Upload: Error publishing picture to NATS".to_owned(),
            );
        }
        match subject.next() {
            Some(next) => {
                self.phase = UploadPhase::Publishing(next);
                UploadAction::Publish(next)
            },
            None => {
                let message = "Media Upload: ".to_owned().concat(self.file_name.as_str()).concat(
                    " uploaded successfully with id ",
                ).concat(self.media_id.as_str());
                self.log(LogLevel::Info, message);
                self.phase = UploadPhase::Done;
                self.outcome = Status::Success;
                UploadAction::Respond(Status::Success)
            },
        }
    }

    /// The number under which the outgoing part is to be stored. Parts are
    /// numbered from 1 in the order in which they were handed out.
    pub fn part_number(&self) -> (number: u32)
        requires
            self.wf(),
            self.phase == UploadPhase::StoringPart || self.phase == UploadPhase::StoringLastPart,
        ensures
            number == self.sent@.len(),
            number == self.etags@.len() + 1,
            1 <= number <= 2049,
    {
        proof {
            self.lemma_part_count();
        }
        (self.etags.len() + 1) as u32
    }

    /// While parts are being stored, at most 2049 of them have been handed
    /// out: 2048 full ones fill the largest body.
    pub proof fn lemma_part_count(&self)
        requires
            self.wf(),
            self.phase == UploadPhase::StoringPart || self.phase == UploadPhase::StoringLastPart,
        ensures
            1 <= self.sent@.len() <= 2049,
    {
        if self.phase == UploadPhase::StoringPart {
            self.assembler.lemma_wf();
        } else {
            crate::assembler::lemma_joined_len(self.sent@.drop_last());
            lemma_joined_push(self.sent@.drop_last(), self.sent@.last());
            assert(self.sent@.drop_last().push(self.sent@.last()) =~= self.sent@);
        }
    }

    /// Hands over the lines that wait for the user's log, oldest first, and
    /// leaves none waiting.
    pub fn take_logs(&mut self) -> (lines: Vec<LogLine>)
        ensures
            lines@ == old(self).logs@,
            final(self).logs@.len() == 0,
            final(self).phase == old(self).phase,
            final(self).outcome == old(self).outcome,
            final(self).same_upload(old(self)),
            final(self).same_transfer(old(self)),
            final(self).assembler == old(self).assembler,
            final(self).outgoing == old(self).outgoing,
            old(self).wf() ==> final(self).wf(),
    {
        let mut lines: Vec<LogLine> = Vec::new();
        core::mem::swap(&mut self.logs, &mut lines);
        lines
    }
}

} // verus!
