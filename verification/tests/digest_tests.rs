use chronolens::digest::{get_content_digest, DigestError};

#[test]
fn digest_is_the_text_between_the_colons() {
    assert_eq!(
        get_content_digest(Some("sha-1=:qvTGHdzF6KLavt4PO0gs2a6pQ00=:")),
        Ok("qvTGHdzF6KLavt4PO0gs2a6pQ00=".to_string())
    );
}

#[test]
fn digest_may_be_empty() {
    assert_eq!(get_content_digest(Some("sha-1=::")), Ok(String::new()));
}

#[test]
fn missing_digest_header_is_reported() {
    assert_eq!(get_content_digest(None), Err(DigestError::Missing));
}

#[test]
fn digest_with_another_frame_is_refused() {
    assert_eq!(get_content_digest(Some("")), Err(DigestError::InvalidFormat));
    assert_eq!(get_content_digest(Some("sha-1=:")), Err(DigestError::InvalidFormat));
    assert_eq!(get_content_digest(Some("sha-1=:YQ==")), Err(DigestError::InvalidFormat));
    assert_eq!(get_content_digest(Some("sha-256=:YQ==:")), Err(DigestError::InvalidFormat));
    assert_eq!(get_content_digest(Some("SHA-1=:YQ==:")), Err(DigestError::InvalidFormat));
    assert_eq!(get_content_digest(Some(" sha-1=:YQ==:")), Err(DigestError::InvalidFormat));
}

#[test]
fn digest_that_is_no_base64_is_refused() {
    assert_eq!(get_content_digest(Some("sha-1=:not base64!:")), Err(DigestError::InvalidEncoding));
    assert_eq!(get_content_digest(Some("sha-1=:YQ=:")), Err(DigestError::InvalidEncoding));
    assert_eq!(get_content_digest(Some("sha-1=:é:")), Err(DigestError::InvalidEncoding));
}
