//! The read endpoints: what each of them answers, and which objects it asks
//! the object store to sign.
//!
//! A signed URL lets its holder read one object for 24 hours. The service
//! signs nothing for longer.

use crate::catalog::{may_read, readable_row, DbManager};
use crate::metadata::Coordinate;
use crate::status::Status;
use crate::sync::{RemoteMediaAdded, RemoteMediaDeleted};
use crate::text::{parse_i64, text_of};
use vstd::prelude::*;

verus! {

/// How long a signed URL is valid, in seconds: 24 hours.
pub const PRESIGN_TTL_SECS: u32 = 86400;

/// A request to the object store to sign a GET of an object. Whatever
/// request there is, it asks for no more than 24 hours.
pub struct PresignRequest {
    key: String,
    expiry_secs: u32,
}

impl PresignRequest {
    #[verifier::type_invariant]
    spec fn within_a_day(self) -> bool {
        self.expiry_secs <= PRESIGN_TTL_SECS
    }

    /// The key of the object.
    pub closed spec fn spec_key(&self) -> Seq<char> {
        self.key@
    }

    /// How long the URL is to be valid, in seconds.
    pub closed spec fn spec_expiry_secs(&self) -> u32 {
        self.expiry_secs
    }

    /// The key of the object.
    pub fn key(&self) -> (key: &str)
        ensures
            key@ == self.spec_key(),
    {
        self.key.as_str()
    }

    /// How long the URL is to be valid, in seconds: never more than 24
    /// hours.
    pub fn expiry_secs(&self) -> (secs: u32)
        ensures
            secs == self.spec_expiry_secs(),
            secs <= 86400,
    {
        proof {
            use_type_invariant(self);
        }
        self.expiry_secs
    }
}

/// The request to sign a GET of the object `key`.
pub fn presign_get(key: String) -> (request: PresignRequest)
    ensures
        request.spec_key() == key@,
        request.spec_expiry_secs() == PRESIGN_TTL_SECS,
{
    PresignRequest { key, expiry_secs: PRESIGN_TTL_SECS }
}

/// An entry of a listing of previews.
pub struct PreviewItem {
    pub id: String,
    /// The signed URL of the preview, or the empty string while the media
    /// has no preview.
    pub preview_url: String,
}

/// The body of the answer to a partial sync.
pub struct PartialSyncResponse {
    pub uploaded: Vec<RemoteMediaAdded>,
    pub deleted: Vec<RemoteMediaDeleted>,
}

/// The body of the answer to a request for one media.
pub struct MediaMetadataResponse {
    pub id: String,
    /// The signed URL of the original.
    pub media_url: String,
    pub created_at: i64,
    pub file_size: i64,
    pub file_name: String,
    pub longitude: Option<Coordinate>,
    pub latitude: Option<Coordinate>,
    pub image_width: Option<i32>,
    pub image_length: Option<i32>,
    pub make: Option<String>,
    pub model: Option<String>,
    pub fnumber: Option<String>,
    pub exposure_time: Option<String>,
    pub photographic_sensitivity: Option<String>,
    pub orientation: Option<i32>,
}

/// What the request to sign asks for the row of a listing: nothing while
/// the media has no preview.
pub open spec fn preview_request(row: (String, Option<String>)) -> Option<(Seq<char>, u32)> {
    match row.1 {
        Some(key) => Some((key@, PRESIGN_TTL_SECS)),
        None => None,
    }
}

/// What a request to sign asks for.
pub open spec fn request_view(request: Option<PresignRequest>) -> Option<(Seq<char>, u32)> {
    match request {
        Some(r) => Some((r.spec_key(), r.spec_expiry_secs())),
        None => None,
    }
}

/// The requests to sign the previews of a listing: one for each row, in
/// order, and none for a row without a preview.
pub fn preview_requests(rows: &Vec<(String, Option<String>)>) -> (requests: Vec<
    Option<PresignRequest>,
>)
    ensures
        requests@.len() == rows@.len(),
        forall|i: int|
            0 <= i < rows@.len() ==> request_view(#[trigger] requests@[i]) == preview_request(
                rows@[i],
            ),
{
    let mut requests: Vec<Option<PresignRequest>> = Vec::new();
    let mut i: usize = 0;
    while i < rows.len()
        invariant
            0 <= i <= rows@.len(),
            requests@.len() == i,
            forall|j: int|
                0 <= j < i ==> request_view(#[trigger] requests@[j]) == preview_request(rows@[j]),
        decreases rows@.len() - i,
    {
        let request = match &rows[i].1 {
            Some(key) => Some(presign_get(key.clone())),
            None => None,
        };
        requests.push(request);
        i += 1;
    }
    requests
}

/// What a listing shows of a row, given the signed URL of its preview
/// (`None`: there is none, or it could not be signed): a media without a
/// preview is shown with an empty URL; a media whose preview could not be
/// signed is not shown.
pub open spec fn preview_entry(row: (String, Option<String>), url: Option<String>) -> Option<
    (Seq<char>, Seq<char>),
> {
    match row.1 {
        None => Some((row.0@, Seq::<char>::empty())),
        Some(_) => match url {
            Some(u) => Some((row.0@, u@)),
            None => None,
        },
    }
}

/// The entries of the first `n` rows of a listing, given the signed URLs.
/// A row for which no URL is given counts as one that could not be signed.
pub open spec fn preview_entries(
    rows: Seq<(String, Option<String>)>,
    urls: Seq<Option<String>>,
    n: int,
) -> Seq<(Seq<char>, Seq<char>)>
    decreases n,
{
    if n <= 0 {
        Seq::empty()
    } else {
        let url = if n - 1 < urls.len() {
            urls[n - 1]
        } else {
            None
        };
        match preview_entry(rows[n - 1], url) {
            Some(e) => preview_entries(rows, urls, n - 1).push(e),
            None => preview_entries(rows, urls, n - 1),
        }
    }
}

/// What a list of items says.
pub open spec fn items_view(items: Seq<PreviewItem>) -> Seq<(Seq<char>, Seq<char>)> {
    items.map_values(|item: PreviewItem| (item.id@, item.preview_url@))
}

/// Builds the answer to a listing of previews from its rows and the signed
/// URLs of their previews.
pub fn assemble_previews(rows: &Vec<(String, Option<String>)>, urls: &Vec<Option<String>>) -> (items:
    Vec<PreviewItem>)
    ensures
        items_view(items@) == preview_entries(rows@, urls@, rows@.len() as int),
{
    let mut items: Vec<PreviewItem> = Vec::new();
    let mut i: usize = 0;
    assert(items_view(items@) =~= preview_entries(rows@, urls@, 0));
    while i < rows.len()
        invariant
            0 <= i <= rows@.len(),
            items_view(items@) == preview_entries(rows@, urls@, i as int),
        decreases rows@.len() - i,
    {
        let url: Option<String> = if i < urls.len() {
            match &urls[i] {
                Some(u) => Some(u.clone()),
                None => None,
            }
        } else {
            None
        };
        let item = match &rows[i].1 {
            None => Some(PreviewItem { id: rows[i].0.clone(), preview_url: String::new() }),
            Some(_) => match url {
                Some(u) => Some(PreviewItem { id: rows[i].0.clone(), preview_url: u }),
                None => None,
            },
        };
        if let Some(item) = item {
            let ghost before = items@;
            let ghost view = (item.id@, item.preview_url@);
            items.push(item);
            assert(items_view(items@) =~= items_view(before).push(view));
        }
        i += 1;
    }
    items
}

/// Answers a request for the signed URL of one media: forbidden unless the
/// media exists, belongs to the user and is not deleted; else the request
/// to sign its object.
pub fn preview(catalog: &DbManager, user_id: &str, media_id: &str) -> (answer: Result<
    PresignRequest,
    Status,
>)
    ensures
        answer is Ok <==> may_read(catalog.media@, user_id@, media_id@),
        match answer {
            Ok(request) => request.spec_key() == media_id@ && request.spec_expiry_secs()
                == PRESIGN_TTL_SECS,
            Err(status) => status == Status::Forbidden,
        },
{
    if catalog.user_has_media(user_id, media_id) {
        Ok(presign_get(media_id.to_owned()))
    } else {
        Err(Status::Forbidden)
    }
}

/// A copy of an optional text.
fn copy_text(text: &Option<String>) -> (copy: Option<String>)
    ensures
        text_of(copy) == text_of(*text),
{
    match text {
        Some(t) => Some(t.clone()),
        None => None,
    }
}

/// Answers a request for one media: forbidden unless the media exists,
/// belongs to the user and is not deleted; else what the catalog holds of
/// it, and the request to sign the original. The URL of the answer is left
/// empty for the caller to fill in.
pub fn media(catalog: &DbManager, user_id: &str, media_id: &str) -> (answer: Result<
    (MediaMetadataResponse, PresignRequest),
    Status,
>)
    ensures
        answer is Ok <==> may_read(catalog.media@, user_id@, media_id@),
        match answer {
            Ok((response, request)) => {
                &&& request.spec_key() == media_id@
                &&& request.spec_expiry_secs() == PRESIGN_TTL_SECS
                &&& response.media_url@.len() == 0
                &&& readable_row(catalog.media@, user_id@, media_id@) matches Some(m) && {
                    &&& response.id@ == m.id@
                    &&& response.created_at == m.created_at
                    &&& response.file_size == m.file_size
                    &&& response.file_name@ == m.file_name@
                    &&& response.longitude == m.metadata.longitude
                    &&& response.latitude == m.metadata.latitude
                    &&& response.image_width == m.metadata.image_width
                    &&& response.image_length == m.metadata.image_length
                    &&& response.orientation == m.metadata.orientation
                    &&& text_of(response.make) == text_of(m.metadata.make)
                    &&& text_of(response.model) == text_of(m.metadata.model)
                    &&& text_of(response.fnumber) == text_of(m.metadata.fnumber)
                    &&& text_of(response.exposure_time) == text_of(m.metadata.exposure_time)
                    &&& text_of(response.photographic_sensitivity) == text_of(
                        m.metadata.photographic_sensitivity,
                    )
                }
            },
            Err(status) => status == Status::Forbidden,
        },
{
    let at = match catalog.find_readable(user_id, media_id) {
        Some(at) => at,
        None => return Err(Status::Forbidden),
    };
    let m = &catalog.media[at];
    let response = MediaMetadataResponse {
        id: m.id.clone(),
        media_url: String::new(),
        created_at: m.created_at,
        file_size: m.file_size,
        file_name: m.file_name.clone(),
        longitude: m.metadata.longitude,
        latitude: m.metadata.latitude,
        image_width: m.metadata.image_width,
        image_length: m.metadata.image_length,
        make: copy_text(&m.metadata.make),
        model: copy_text(&m.metadata.model),
        fnumber: copy_text(&m.metadata.fnumber),
        exposure_time: copy_text(&m.metadata.exposure_time),
        photographic_sensitivity: copy_text(&m.metadata.photographic_sensitivity),
        orientation: m.metadata.orientation,
    };
    Ok((response, presign_get(media_id.to_owned())))
}

/// The watermark that a partial sync is asked with: the `Since` header must
/// be there and be a 64-bit decimal number, else the request is bad.
pub open spec fn since_of(header: Option<&str>) -> Result<i64, Status> {
    match header {
        None => Err(Status::BadRequest),
        Some(text) => match crate::text::decimal_i64(text@) {
            Some(since) => Ok(since),
            None => Err(Status::BadRequest),
        },
    }
}

/// Reads the watermark from the `Since` header of a partial sync.
pub fn parse_since(header: Option<&str>) -> (since: Result<i64, Status>)
    ensures
        since == since_of(header),
{
    match header {
        None => Err(Status::BadRequest),
        Some(text) => match parse_i64(text) {
            Some(since) => Ok(since),
            None => Err(Status::BadRequest),
        },
    }
}

/// Answers a partial sync: a bad request without a valid `Since` header;
/// else what has changed for the user after the watermark.
pub fn sync_partial(catalog: &DbManager, user_id: &str, since_header: Option<&str>) -> (answer:
    Result<PartialSyncResponse, Status>)
    ensures
        match answer {
            Ok(response) => since_of(since_header) matches Ok(since) && crate::sync::summaries(
                response.uploaded@,
            ) == crate::sync::uploaded_view(catalog.media@, user_id@, since)
                && crate::sync::deleted_ids(response.deleted@) == crate::sync::deleted_view(
                catalog.media@,
                user_id@,
                since,
            ),
            Err(status) => since_of(since_header) == Err::<i64, Status>(status),
        },
{
    let since = match parse_since(since_header) {
        Ok(since) => since,
        Err(status) => return Err(status),
    };
    let (uploaded, deleted) = catalog.sync_partial(user_id, since);
    Ok(PartialSyncResponse { uploaded, deleted })
}

} // verus!
