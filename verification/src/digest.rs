//! The `Content-Digest` header of an upload: `sha-1=:<base64>:`.
//!
//! The text between the colons is the digest under which the catalog
//! deduplicates a user's media. It has to be well-formed standard base64.

use crate::text::{str_eq, text_of_slice};
use base64::Engine;
use vstd::prelude::*;

verus! {

/// What standard, padded base64 decoding makes of `input`: the decoded
/// bytes, or `None` where `input` is not well-formed.
pub uninterp spec fn base64_standard_decoding(input: Seq<u8>) -> Option<Seq<u8>>;

/// Decodes standard base64 with the `base64` crate's `STANDARD` engine
/// (`Engine::decode`). Trusted: the result is the crate's decoding of the
/// input, and an error of the crate is reported as `None`.
#[verifier::external_body]
fn base64_decode(input: &[u8]) -> (decoded: Option<Vec<u8>>)
    ensures
        match decoded {
            Some(bytes) => base64_standard_decoding(input@) == Some(bytes@),
            None => base64_standard_decoding(input@) is None,
        },
{
    base64::engine::general_purpose::STANDARD.decode(input).ok()
}

/// Why a `Content-Digest` header was refused.
#[derive(Clone, Copy, Debug, PartialEq, Eq, Structural)]
pub enum DigestError {
    /// The request carries no such header.
    Missing,
    /// The value is not of the form `sha-1=:<text>:`.
    InvalidFormat,
    /// The text between the colons is not standard base64.
    InvalidEncoding,
}

/// Number of characters in front of the digest text: `sha-1=:`.
pub const DIGEST_PREFIX_LEN: usize = 7;

/// Whether `value` is framed as `sha-1=:<text>:`.
pub open spec fn is_framed_digest(value: Seq<char>) -> bool {
    &&& value.len() >= DIGEST_PREFIX_LEN + 1
    &&& value.take(DIGEST_PREFIX_LEN as int) == seq!['s', 'h', 'a', '-', '1', '=', ':']
    &&& value.last() == ':'
}

/// The text that a framed digest carries between its colons.
pub open spec fn framed_text(value: Seq<char>) -> Seq<char> {
    value.subrange(DIGEST_PREFIX_LEN as int, value.len() - 1)
}

/// What `get_content_digest` makes of a header value.
pub open spec fn content_digest(header: Option<Seq<char>>) -> Result<Seq<char>, DigestError> {
    match header {
        None => Err(DigestError::Missing),
        Some(value) => if !is_framed_digest(value) {
            Err(DigestError::InvalidFormat)
        } else if base64_standard_decoding(vstd::utf8::encode_utf8(framed_text(value))) is None {
            Err(DigestError::InvalidEncoding)
        } else {
            Ok(framed_text(value))
        },
    }
}

/// Extracts the digest from the value of a `Content-Digest` header.
///
/// The result is the base64 text as the client sent it; it is accepted only
/// if it decodes.
pub fn get_content_digest(header: Option<&str>) -> (digest: Result<String, DigestError>)
    ensures
        match digest {
            Ok(text) => content_digest(text_of_slice(header)) == Ok::<Seq<char>, DigestError>(text@),
            Err(e) => content_digest(text_of_slice(header)) == Err::<Seq<char>, DigestError>(e),
        },
{
    let value = match header {
        Some(value) => value,
        None => return Err(DigestError::Missing),
    };
    let n = value.unicode_len();
    if n < DIGEST_PREFIX_LEN + 1 {
        return Err(DigestError::InvalidFormat);
    }
    let prefix = value.substring_char(0, DIGEST_PREFIX_LEN);
    let suffix = value.substring_char(n - 1, n);
    proof {
        reveal_strlit("sha-1=:");
        reveal_strlit(":");
        assert("sha-1=:"@ == seq!['s', 'h', 'a', '-', '1', '=', ':']);
        assert(":"@ == seq![':']);
        assert(value@.take(DIGEST_PREFIX_LEN as int) == value@.subrange(0, DIGEST_PREFIX_LEN as int));
        assert(suffix@ == seq![value@.last()]);
        assert((suffix@ == seq![':']) <==> value@.last() == ':') by {
            if value@.last() == ':' {
                assert(suffix@ == seq![':']);
            } else {
                assert(suffix@[0] != seq![':'][0]);
            }
        }
    }
    if !str_eq(prefix, "sha-1=:") || !str_eq(suffix, ":") {
        return Err(DigestError::InvalidFormat);
    }
    let text = value.substring_char(DIGEST_PREFIX_LEN, n - 1);
    match base64_decode(text.as_bytes()) {
        Some(_) => Ok(text.to_owned()),
        None => Err(DigestError::InvalidEncoding),
    }
}

} // verus!
