//! The message bus as the service uses it: the subjects on which work is
//! announced, the streams and consumers behind them, and how a worker
//! answers a message.

use crate::text::{text_from_utf8, text_of};
use vstd::prelude::*;
use vstd::utf8::{decode_utf8, valid_utf8};

verus! {

/// A subject on which the ingress announces a new original.
#[derive(Clone, Copy, Debug, PartialEq, Eq, Structural)]
pub enum Subject {
    /// Work for the preview worker.
    Previews,
    /// Work for the metadata worker.
    Metadata,
    /// Work for the embedding and face worker.
    ImageProcess,
}

impl Subject {
    /// The name of the subject on the bus.
    pub open spec fn spec_name(self) -> Seq<char> {
        match self {
            Subject::Previews => "previews"@,
            Subject::Metadata => "metadata"@,
            Subject::ImageProcess => "image-process"@,
        }
    }

    /// The name of the subject on the bus.
    pub fn name(self) -> (name: String)
        ensures
            name@ == self.spec_name(),
    {
        match self {
            Subject::Previews => "previews".to_owned(),
            Subject::Metadata => "metadata".to_owned(),
            Subject::ImageProcess => "image-process".to_owned(),
        }
    }

    /// The subject that is announced after this one, if any. An upload is
    /// announced on `previews`, then `metadata`, then `image-process`.
    pub open spec fn spec_next(self) -> Option<Subject> {
        match self {
            Subject::Previews => Some(Subject::Metadata),
            Subject::Metadata => Some(Subject::ImageProcess),
            Subject::ImageProcess => None,
        }
    }

    /// The subject that is announced after this one, if any.
    pub fn next(self) -> (next: Option<Subject>)
        ensures
            next == self.spec_next(),
    {
        match self {
            Subject::Previews => Some(Subject::Metadata),
            Subject::Metadata => Some(Subject::ImageProcess),
            Subject::ImageProcess => None,
        }
    }
}

/// How a worker answers the bus for a message it was given.
#[derive(Clone, Copy, Debug, PartialEq, Eq, Structural)]
pub enum Reply {
    /// The work is done; the message must not come again.
    Ack,
    /// The work failed for now; the bus delivers the message again.
    Nak,
    /// The message can never be handled; the bus drops it.
    Term,
}

/// Largest number of messages that a work stream keeps.
pub const STREAM_MAX_MESSAGES: i64 = 10000;

/// Number of messages that one worker process handles at a time.
pub const WORKER_CONCURRENCY: usize = 5;

/// The subject on which a search is asked of the embedding worker.
pub fn search_subject() -> (name: String)
    ensures
        name@ == "clip-process-search"@,
{
    "clip-process-search".to_owned()
}

/// The durable consumer through which the preview worker reads its stream.
pub fn preview_consumer() -> (name: String)
    ensures
        name@ == "preview_consumer"@,
{
    "preview_consumer".to_owned()
}

/// The durable consumer through which the metadata worker reads its stream.
pub fn metadata_consumer() -> (name: String)
    ensures
        name@ == "metadata_consumer"@,
{
    "metadata_consumer".to_owned()
}

/// The media that a message is about: its payload read as UTF-8 text.
pub open spec fn media_id_of(payload: Seq<u8>) -> Option<Seq<char>> {
    if valid_utf8(payload) {
        Some(decode_utf8(payload))
    } else {
        None
    }
}

/// Reads the id of the media that a message is about.
pub fn message_media_id(payload: &[u8]) -> (id: Option<String>)
    ensures
        text_of(id) == media_id_of(payload@),
{
    text_from_utf8(payload)
}

} // verus!
