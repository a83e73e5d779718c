//! Semantic search: the question that is put to the embedding worker over
//! the message bus, and what is made of its reply.

use crate::browse::PreviewItem;
use crate::status::Status;
use crate::text::{decimal_text, text_from_utf8, text_of, to_decimal};
use vstd::prelude::*;
use vstd::utf8::{decode_utf8, valid_utf8};

verus! {

/// What a request says of the search it wants.
pub struct SearchQuery {
    pub query: String,
    pub page: Option<u32>,
    pub page_size: Option<u32>,
}

/// The JSON string that holds `text`, in quotes and escaped.
pub uninterp spec fn json_string(text: Seq<char>) -> Option<Seq<char>>;

/// A JSON value of the `serde_json` crate, `serde_json::Value`: a value that
/// is carried through and read only by the crate.
#[verifier::external_type_specification]
#[verifier::external_body]
pub struct ExJsonValue(serde_json::Value);

/// The elements of the array that a JSON text holds; `None` where the text
/// is no JSON array.
pub uninterp spec fn json_array(text: Seq<char>) -> Option<Seq<serde_json::Value>>;

/// The string that a JSON value holds under a key; `None` where the value
/// is no object, or holds nothing or no string under the key.
pub uninterp spec fn json_member(value: serde_json::Value, key: Seq<char>) -> Option<Seq<char>>;

/// Writes a text as a JSON string with `serde_json::to_string`. Trusted:
/// the result is that string, and an error of the crate is reported as
/// `None`.
#[verifier::external_body]
fn quote_json(text: &str) -> (quoted: Option<String>)
    ensures
        match quoted {
            Some(q) => json_string(text@) == Some(q@),
            None => json_string(text@) is None,
        },
{
    serde_json::to_string(text).ok()
}

/// Reads a JSON array with `serde_json::from_str`. Trusted: the result
/// is the elements of the array that the text holds, and an error of the
/// crate is reported as `None`.
#[verifier::external_body]
fn parse_array(text: &str) -> (elements: Option<Vec<serde_json::Value>>)
    ensures
        match elements {
            Some(e) => json_array(text@) == Some(e@),
            None => json_array(text@) is None,
        },
{
    serde_json::from_str(text).ok()
}

/// Reads the string under a key of a JSON value with `Value::get` and
/// `Value::as_str`. Trusted: the result is that string.
#[verifier::external_body]
fn member(value: &serde_json::Value, key: &str) -> (text: Option<String>)
    ensures
        text_of(text) == json_member(*value, key@),
{
    value.get(key)?.as_str().map(str::to_owned)
}

/// The page that a search means: the first where none or page 0 is named.
pub open spec fn search_page(page: Option<u32>) -> u32 {
    match page {
        Some(p) => if p < 1 {
            1
        } else {
            p
        },
        None => 1,
    }
}

/// The page size that a search means: 10 where none is named, and never
/// less than 1 nor more than 30.
pub open spec fn search_page_size(page_size: Option<u32>) -> u32 {
    match page_size {
        Some(s) => if s < 1 {
            1
        } else if s > 30 {
            30
        } else {
            s
        },
        None => 10,
    }
}

/// The question for the embedding worker: a JSON object with the page, the
/// page size, the query and the user.
pub open spec fn search_message(
    user_id: Seq<char>,
    query: Seq<char>,
    page: u32,
    page_size: u32,
) -> Option<Seq<char>> {
    match (json_string(query), json_string(user_id)) {
        (Some(q), Some(u)) => Some(
            "{\"page\":"@ + decimal_text(page as nat) + ",\"page_size\":"@ + decimal_text(
                page_size as nat,
            ) + ",\"query\":"@ + q + ",\"user_id\":"@ + u + "}"@,
        ),
        _ => None,
    }
}

/// What a search is answered with before the worker is asked: a bad request
/// for an empty query, an internal error where the question cannot be
/// written, else the question.
pub open spec fn search_request(user_id: Seq<char>, params: SearchQuery) -> Result<
    Seq<char>,
    Status,
> {
    if params.query@.len() == 0 {
        Err(Status::BadRequest)
    } else {
        match search_message(
            user_id,
            params.query@,
            search_page(params.page),
            search_page_size(params.page_size),
        ) {
            Some(m) => Ok(m),
            None => Err(Status::InternalServerError),
        }
    }
}

/// Validates a search and writes the question for the embedding worker.
pub fn clip_search(user_id: &str, params: &SearchQuery) -> (message: Result<String, Status>)
    ensures
        match message {
            Ok(m) => search_request(user_id@, *params) == Ok::<Seq<char>, Status>(m@),
            Err(status) => search_request(user_id@, *params) == Err::<Seq<char>, Status>(status),
        },
{
    if params.query.as_str().unicode_len() == 0 {
        return Err(Status::BadRequest);
    }
    let page: u32 = match params.page {
        Some(p) => if p < 1 {
            1
        } else {
            p
        },
        None => 1,
    };
    let page_size: u32 = match params.page_size {
        Some(s) => if s < 1 {
            1
        } else if s > 30 {
            30
        } else {
            s
        },
        None => 10,
    };
    let query = match quote_json(params.query.as_str()) {
        Some(q) => q,
        None => return Err(Status::InternalServerError),
    };
    let user = match quote_json(user_id) {
        Some(u) => u,
        None => return Err(Status::InternalServerError),
    };
    Ok(
        "{\"page\":".to_owned().concat(to_decimal(page as u64).as_str()).concat(
            ",\"page_size\":",
        ).concat(to_decimal(page_size as u64).as_str()).concat(",\"query\":").concat(
            query.as_str(),
        ).concat(",\"user_id\":").concat(user.as_str()).concat("}"),
    )
}

/// The item that an element of a reply holds: its id and the URL of its
/// preview. `None` where one of them is missing or is no string.
pub open spec fn item_of(element: serde_json::Value) -> Option<(Seq<char>, Seq<char>)> {
    match (json_member(element, "id"@), json_member(element, "preview_url"@)) {
        (Some(id), Some(url)) => Some((id, url)),
        _ => None,
    }
}

/// What the reply of the embedding worker says: the bytes must be UTF-8
/// text, the text a JSON array, and each of its elements must hold an id
/// and a URL; then the reply is passed on as it is.
pub open spec fn search_reply(payload: Seq<u8>) -> Option<Seq<(Seq<char>, Seq<char>)>> {
    if !valid_utf8(payload) {
        None
    } else {
        match json_array(decode_utf8(payload)) {
            None => None,
            Some(elements) => if forall|i: int|
                0 <= i < elements.len() ==> item_of(#[trigger] elements[i]) is Some {
                Some(elements.map_values(|e: serde_json::Value| item_of(e)->0))
            } else {
                None
            },
        }
    }
}

/// Reads the reply of the embedding worker. A reply that cannot be read is
/// an internal error.
pub fn read_search_reply(payload: &[u8]) -> (items: Result<Vec<PreviewItem>, Status>)
    ensures
        match items {
            Ok(list) => search_reply(payload@) == Some(crate::browse::items_view(list@)),
            Err(status) => status == Status::InternalServerError && search_reply(payload@)
                is None,
        },
{
    let text = match text_from_utf8(payload) {
        Some(t) => t,
        None => return Err(Status::InternalServerError),
    };
    let elements = match parse_array(text.as_str()) {
        Some(e) => e,
        None => return Err(Status::InternalServerError),
    };
    let mut items: Vec<PreviewItem> = Vec::new();
    let mut i: usize = 0;
    while i < elements.len()
        invariant
            0 <= i <= elements@.len(),
            valid_utf8(payload@),
            json_array(decode_utf8(payload@)) == Some(elements@),
            items@.len() == i,
            forall|j: int|
                0 <= j < i ==> item_of(elements@[j]) == Some(
                    ((#[trigger] items@[j]).id@, items@[j].preview_url@),
                ),
        decreases elements@.len() - i,
    {
        let id = member(&elements[i], "id");
        let preview_url = member(&elements[i], "preview_url");
        let item = match (id, preview_url) {
            (Some(id), Some(preview_url)) => PreviewItem { id, preview_url },
            _ => {
                assert(item_of(elements@[i as int]) is None);
                return Err(Status::InternalServerError);
            },
        };
        items.push(item);
        i += 1;
    }
    assert forall|j: int| 0 <= j < elements@.len() implies item_of(
        #[trigger] elements@[j],
    ) is Some by {
        assert(item_of(elements@[j]) == Some((items@[j].id@, items@[j].preview_url@)));
    }
    assert(crate::browse::items_view(items@) =~= elements@.map_values(
        |e: serde_json::Value| item_of(e)->0,
    ));
    Ok(items)
}

} // verus!
