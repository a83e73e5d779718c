//! The authentication core.
//!
//! A login yields a pair of tokens: an access token that names the user and
//! lives for one hour, and a refresh token that lives for 48 hours and
//! embeds the access token it was issued with. A refresh is granted only to
//! the pair that was issued together. Every other request carries the access
//! token as a bearer.
//!
//! Times are milliseconds since the epoch. A token is valid from `iat` to
//! `exp`, both included.

use crate::catalog::{user_named, DbManager, GetUserError, User};
use crate::status::Status;
use crate::text::str_eq;
use vstd::prelude::*;

verus! {

/// Lifetime of an access token: one hour.
pub const ACCESS_LIFETIME_MS: i64 = 3600000;

/// Lifetime of a refresh token: 48 hours.
pub const REFRESH_LIFETIME_MS: i64 = 172800000;

/// The work factor with which passwords are hashed.
pub const PASSWORD_COST: u32 = 12;

/// The claims of an access token.
pub struct AccessTokenClaims {
    pub iat: i64,
    pub exp: i64,
    pub user_id: String,
}

/// The claims of a refresh token.
pub struct RefreshTokenClaims {
    pub iat: i64,
    pub exp: i64,
    /// The access token that this token was issued with.
    pub access_token: String,
}

/// The body of a login request.
pub struct LoginRequest {
    pub username: String,
    pub password: String,
}

/// The body of a refresh request.
pub struct RefreshTokenRequest {
    pub access_token: String,
    pub refresh_token: String,
}

/// The body of the answer to a login or a refresh.
pub struct TokenResponse {
    pub access_token: String,
    pub refresh_token: String,
    /// When the access token expires.
    pub expires_at: i64,
}

/// What a token says once its signature has been checked. A claim that is
/// missing, or is not of the expected type, is `None`.
pub struct DecodedClaims {
    pub iat: Option<i64>,
    pub exp: Option<i64>,
    /// The claim that the kind of token carries besides its times.
    pub subject: Option<String>,
}

/// The HS256 JSON web token that carries three claims in this order: the
/// numbers `issued` and `expires` and the text `subject`, each under its
/// name, under the default header, signed with `secret`.
pub uninterp spec fn signed_token(
    secret: Seq<char>,
    issued: (Seq<char>, i64),
    expires: (Seq<char>, i64),
    subject: (Seq<char>, Seq<char>),
) -> Option<Seq<char>>;

/// The name of the claim that says when a token was issued.
pub open spec fn issued_claim() -> Seq<char> {
    "iat"@
}

/// The name of the claim that says when a token expires.
pub open spec fn expires_claim() -> Seq<char> {
    "exp"@
}

/// The token with the claims `iat`, `exp` and one more, `subject_name`, with
/// the text `subject`.
pub open spec fn token_of(
    secret: Seq<char>,
    iat: i64,
    exp: i64,
    subject_name: Seq<char>,
    subject: Seq<char>,
) -> Option<Seq<char>> {
    signed_token(secret, (issued_claim(), iat), (expires_claim(), exp), (subject_name, subject))
}

/// Whether `password` matches the bcrypt hash `hash`; `None` where `hash`
/// is no bcrypt hash.
pub uninterp spec fn bcrypt_verification(password: Seq<char>, hash: Seq<char>) -> Option<bool>;

/// Signs a token with `jsonwebtoken::encode`, under `Header::default()`
/// (HS256) and `EncodingKey::from_secret`. The claims are a JSON object with
/// the three named claims, in this order. Trusted: the result is that
/// token, and an error of the crate is reported as `None`.
#[verifier::external_body]
fn sign_claims(secret: &str, issued: (&str, i64), expires: (&str, i64), subject: (&str, &str)) -> (token:
    Option<String>)
    ensures
        match token {
            Some(t) => signed_token(
                secret@,
                (issued.0@, issued.1),
                (expires.0@, expires.1),
                (subject.0@, subject.1@),
            ) == Some(t@),
            None => signed_token(
                secret@,
                (issued.0@, issued.1),
                (expires.0@, expires.1),
                (subject.0@, subject.1@),
            ) is None,
        },
{
    let mut claims = serde_json::Map::new();
    claims.insert(issued.0.to_string(), issued.1.into());
    claims.insert(expires.0.to_string(), expires.1.into());
    claims.insert(subject.0.to_string(), subject.1.into());
    let key = jsonwebtoken::EncodingKey::from_secret(secret.as_bytes());
    jsonwebtoken::encode(&jsonwebtoken::Header::default(), &claims, &key).ok()
}

/// Checks a token with `jsonwebtoken::decode` under
/// `Validation::new(Algorithm::HS256)` and `DecodingKey::from_secret`, and
/// reads the three named claims from it: two numbers and a text. `None`
/// where the crate refuses the token. Trusted; nothing is claimed of the
/// result, because the crate also holds the token's `exp` against the system
/// clock.
#[verifier::external_body]
fn decode_claims(secret: &str, token: &str, issued: &str, expires: &str, subject: &str) -> (claims:
    Option<DecodedClaims>) {
    let key = jsonwebtoken::DecodingKey::from_secret(secret.as_bytes());
    let rules = jsonwebtoken::Validation::new(jsonwebtoken::Algorithm::HS256);
    let data = jsonwebtoken::decode::<serde_json::Value>(token, &key, &rules).ok()?;
    Some(
        DecodedClaims {
            iat: data.claims[issued].as_i64(),
            exp: data.claims[expires].as_i64(),
            subject: data.claims[subject].as_str().map(str::to_owned),
        },
    )
}

/// Checks a password against a bcrypt hash with `bcrypt::verify`. Trusted:
/// the result is the crate's verdict, and an error of the crate (the hash is
/// malformed) is reported as `None`.
#[verifier::external_body]
fn verify_password(password: &str, hash: &str) -> (verdict: Option<bool>)
    ensures
        verdict == bcrypt_verification(password@, hash@),
{
    bcrypt::verify(password, hash).ok()
}

/// Hashes a password with `bcrypt::hash`, which salts it at random.
/// Trusted: a hash that comes out matches the password. Nothing is claimed
/// of which hash comes out, nor that one does.
#[verifier::external_body]
fn hash_password(password: &str, cost: u32) -> (hash: Option<String>)
    ensures
        hash matches Some(h) ==> bcrypt_verification(password@, h@) == Some(true),
{
    bcrypt::hash(password, cost).ok()
}

/// Whether a token with these times is valid at `now`.
pub open spec fn in_window(now: i64, iat: i64, exp: i64) -> bool {
    iat <= now <= exp
}

/// Whether a token with these times is valid at `now`.
pub fn is_valid_at(now: i64, iat: i64, exp: i64) -> (valid: bool)
    ensures
        valid == in_window(now, iat, exp),
{
    !(now < iat || now > exp)
}

/// The pair of tokens for `user_id` with the given times: the access token,
/// and the refresh token that embeds it.
pub open spec fn token_pair(
    secret: Seq<char>,
    user_id: Seq<char>,
    issued_at: i64,
    access_expires_at: i64,
    refresh_expires_at: i64,
) -> Option<(Seq<char>, Seq<char>)> {
    match token_of(secret, issued_at, access_expires_at, "user_id"@, user_id) {
        None => None,
        Some(access) => match token_of(
            secret,
            issued_at,
            refresh_expires_at,
            "access_token"@,
            access,
        ) {
            None => None,
            Some(refresh) => Some((access, refresh)),
        },
    }
}

/// Signs an access token for the user and a refresh token that is bound to
/// it.
pub fn generate_jwt_tokens(
    secret: String,
    user_id: String,
    issued_at: i64,
    access_expires_at: i64,
    refresh_expires_at: i64,
) -> (tokens: Result<(String, String), String>)
    ensures
        match tokens {
            Ok((access, refresh)) => token_pair(
                secret@,
                user_id@,
                issued_at,
                access_expires_at,
                refresh_expires_at,
            ) == Some((access@, refresh@)),
            Err(e) => e@ == "Failed to create token"@ && token_pair(
                secret@,
                user_id@,
                issued_at,
                access_expires_at,
                refresh_expires_at,
            ) is None,
        },
{
    let access = match sign_claims(
        secret.as_str(),
        ("iat", issued_at),
        ("exp", access_expires_at),
        ("user_id", user_id.as_str()),
    ) {
        Some(token) => token,
        None => return Err("Failed to create token".to_owned()),
    };
    let refresh = match sign_claims(
        secret.as_str(),
        ("iat", issued_at),
        ("exp", refresh_expires_at),
        ("access_token", access.as_str()),
    ) {
        Some(token) => token,
        None => return Err("Failed to create token".to_owned()),
    };
    Ok((access, refresh))
}

/// What `issue_tokens` answers: a pair of tokens issued at `now`, the
/// access token for one hour, the refresh token for 48 hours. An internal
/// error where a time does not fit or a token cannot be signed.
pub open spec fn issued(secret: Seq<char>, user_id: Seq<char>, now: i64) -> Result<
    (Seq<char>, Seq<char>, i64),
    Status,
> {
    if now + REFRESH_LIFETIME_MS > i64::MAX {
        Err(Status::InternalServerError)
    } else {
        match token_pair(
            secret,
            user_id,
            now,
            (now + ACCESS_LIFETIME_MS) as i64,
            (now + REFRESH_LIFETIME_MS) as i64,
        ) {
            Some((access, refresh)) => Ok((access, refresh, (now + ACCESS_LIFETIME_MS) as i64)),
            None => Err(Status::InternalServerError),
        }
    }
}

/// What an answer with tokens says.
pub open spec fn response_view(response: TokenResponse) -> (Seq<char>, Seq<char>, i64) {
    (response.access_token@, response.refresh_token@, response.expires_at)
}

/// Whether `answer` is what `expected` says.
pub open spec fn answers(
    answer: Result<TokenResponse, Status>,
    expected: Result<(Seq<char>, Seq<char>, i64), Status>,
) -> bool {
    match answer {
        Ok(response) => expected == Ok::<(Seq<char>, Seq<char>, i64), Status>(
            response_view(response),
        ),
        Err(status) => expected == Err::<(Seq<char>, Seq<char>, i64), Status>(status),
    }
}

/// Issues a fresh pair of tokens for the user at `now`.
pub fn issue_tokens(secret: &str, user_id: &str, now: i64) -> (answer: Result<
    TokenResponse,
    Status,
>)
    ensures
        answers(answer, issued(secret@, user_id@, now)),
{
    if now > i64::MAX - REFRESH_LIFETIME_MS {
        return Err(Status::InternalServerError);
    }
    let access_expires_at = now + ACCESS_LIFETIME_MS;
    let refresh_expires_at = now + REFRESH_LIFETIME_MS;
    match generate_jwt_tokens(
        secret.to_owned(),
        user_id.to_owned(),
        now,
        access_expires_at,
        refresh_expires_at,
    ) {
        Ok((access_token, refresh_token)) => Ok(
            TokenResponse { access_token, refresh_token, expires_at: access_expires_at },
        ),
        Err(_) => Err(Status::InternalServerError),
    }
}

/// What a login answers, given the user that the catalog holds under the
/// name: forbidden for an unknown user, for a stored hash that is no bcrypt
/// hash, and for a password that does not match; tokens otherwise.
pub open spec fn login_answer(
    user: Result<User, GetUserError>,
    password: Seq<char>,
    secret: Seq<char>,
    now: i64,
) -> Result<(Seq<char>, Seq<char>, i64), Status> {
    match user {
        Err(_) => Err(Status::Forbidden),
        Ok(u) => match bcrypt_verification(password, u.password@) {
            Some(true) => issued(secret, u.id@, now),
            _ => Err(Status::Forbidden),
        },
    }
}

/// Checks the password of a login against the user that the catalog holds
/// under the name, and issues tokens.
pub fn check_login(user: Result<&User, GetUserError>, password: &str, secret: &str, now: i64) -> (answer:
    Result<TokenResponse, Status>)
    ensures
        answers(
            answer,
            login_answer(
                match user {
                    Ok(u) => Ok(*u),
                    Err(e) => Err(e),
                },
                password@,
                secret@,
                now,
            ),
        ),
{
    let user = match user {
        Ok(user) => user,
        Err(_) => return Err(Status::Forbidden),
    };
    match verify_password(password, user.password.as_str()) {
        Some(true) => issue_tokens(secret, user.id.as_str(), now),
        _ => Err(Status::Forbidden),
    }
}

/// Handles a login: looks the user up in the catalog, checks the password,
/// and issues tokens.
pub fn login(catalog: &DbManager, request: &LoginRequest, secret: &str, now: i64) -> (answer:
    Result<TokenResponse, Status>)
    ensures
        answers(
            answer,
            login_answer(
                user_named(catalog.users@, request.username@),
                request.password@,
                secret@,
                now,
            ),
        ),
{
    let user = catalog.get_user(request.username.as_str());
    check_login(user, request.password.as_str(), secret, now)
}

/// The claims of an access token, if all of them are there.
pub open spec fn spec_access_claims(decoded: Option<DecodedClaims>) -> Option<
    (i64, i64, Seq<char>),
> {
    match decoded {
        Some(DecodedClaims { iat: Some(iat), exp: Some(exp), subject: Some(user_id) }) => Some(
            (iat, exp, user_id@),
        ),
        _ => None,
    }
}

/// Reads the claims of an access token from what the token says. A token
/// that lacks a claim is no access token.
pub fn access_claims(decoded: Option<DecodedClaims>) -> (claims: Option<AccessTokenClaims>)
    ensures
        match claims {
            Some(c) => spec_access_claims(decoded) == Some((c.iat, c.exp, c.user_id@)),
            None => spec_access_claims(decoded) is None,
        },
{
    match decoded {
        Some(DecodedClaims { iat: Some(iat), exp: Some(exp), subject: Some(user_id) }) => Some(
            AccessTokenClaims { iat, exp, user_id },
        ),
        _ => None,
    }
}

/// Reads the claims of a refresh token from what the token says. A token
/// that lacks a claim is no refresh token.
pub fn refresh_claims(decoded: Option<DecodedClaims>) -> (claims: Option<RefreshTokenClaims>)
    ensures
        match claims {
            Some(c) => spec_access_claims(decoded) == Some((c.iat, c.exp, c.access_token@)),
            None => spec_access_claims(decoded) is None,
        },
{
    match decoded {
        Some(DecodedClaims { iat: Some(iat), exp: Some(exp), subject: Some(access_token) }) =>
            Some(RefreshTokenClaims { iat, exp, access_token }),
        _ => None,
    }
}

/// Whether a refresh is granted, and to whom: the refresh token must be
/// genuine (else bad request), valid at `now` (else forbidden) and bound to
/// the access token that was presented with it (else forbidden), and the
/// access token must be genuine (else bad request). The checks are made in
/// this order.
pub open spec fn refresh_decision(
    refresh: Option<RefreshTokenClaims>,
    access: Option<AccessTokenClaims>,
    presented_access: Seq<char>,
    now: i64,
) -> Result<Seq<char>, Status> {
    match refresh {
        None => Err(Status::BadRequest),
        Some(r) => if !in_window(now, r.iat, r.exp) {
            Err(Status::Forbidden)
        } else if r.access_token@ != presented_access {
            Err(Status::Forbidden)
        } else {
            match access {
                None => Err(Status::BadRequest),
                Some(a) => Ok(a.user_id@),
            }
        },
    }
}

/// Decides whether a refresh is granted, given what the two tokens say
/// (`None`: the token is not genuine), and names the user to issue new
/// tokens for.
pub fn decide_refresh(
    refresh: Option<RefreshTokenClaims>,
    access: Option<AccessTokenClaims>,
    presented_access: &str,
    now: i64,
) -> (decision: Result<String, Status>)
    ensures
        match decision {
            Ok(user_id) => refresh_decision(refresh, access, presented_access@, now) == Ok::<
                Seq<char>,
                Status,
            >(user_id@),
            Err(status) => refresh_decision(refresh, access, presented_access@, now) == Err::<
                Seq<char>,
                Status,
            >(status),
        },
{
    let refresh = match refresh {
        Some(r) => r,
        None => return Err(Status::BadRequest),
    };
    if !is_valid_at(now, refresh.iat, refresh.exp) {
        return Err(Status::Forbidden);
    }
    if !str_eq(refresh.access_token.as_str(), presented_access) {
        return Err(Status::Forbidden);
    }
    match access {
        Some(a) => Ok(a.user_id),
        None => Err(Status::BadRequest),
    }
}

/// Refresh binding. Whatever an access token says, a refresh token that
/// was issued with one access token is refused when it is presented with
/// another.
pub proof fn lemma_refresh_is_bound(
    refresh: RefreshTokenClaims,
    access: Option<AccessTokenClaims>,
    presented_access: Seq<char>,
    now: i64,
)
    requires
        refresh.access_token@ != presented_access,
    ensures
        refresh_decision(Some(refresh), access, presented_access, now) == Err::<
            Seq<char>,
            Status,
        >(Status::Forbidden),
        forall|secret: Seq<char>| #[trigger]
            refresh_answer(Some(refresh), access, presented_access, secret, now) == Err::<
                (Seq<char>, Seq<char>, i64),
                Status,
            >(Status::Forbidden),
{
}

/// What a refresh answers, given what the two tokens say (`None`: the token
/// is not genuine): the refusal of the decision, or a fresh pair of tokens
/// for the user that it names, issued at `now`.
pub open spec fn refresh_answer(
    refresh: Option<RefreshTokenClaims>,
    access: Option<AccessTokenClaims>,
    presented_access: Seq<char>,
    secret: Seq<char>,
    now: i64,
) -> Result<(Seq<char>, Seq<char>, i64), Status> {
    match refresh_decision(refresh, access, presented_access, now) {
        Ok(user_id) => issued(secret, user_id, now),
        Err(status) => Err(status),
    }
}

/// Answers a refresh, given what the two tokens say (`None`: the token is
/// not genuine).
pub fn answer_refresh(
    refresh: Option<RefreshTokenClaims>,
    access: Option<AccessTokenClaims>,
    presented_access: &str,
    secret: &str,
    now: i64,
) -> (answer: Result<TokenResponse, Status>)
    ensures
        answers(answer, refresh_answer(refresh, access, presented_access@, secret@, now)),
{
    match decide_refresh(refresh, access, presented_access, now) {
        Ok(user_id) => issue_tokens(secret, user_id.as_str(), now),
        Err(status) => Err(status),
    }
}

/// Handles a refresh: checks both tokens, decides, and issues a fresh pair
/// at `now`.
///
/// Whether a token is genuine is for the token library to say. Whatever it
/// says: tokens are issued only where the decision names a user, and then
/// they are a pair issued at `now`; every refusal is a bad request, a
/// forbidden, or an internal error.
pub fn refresh(request: &RefreshTokenRequest, secret: &str, now: i64) -> (answer: Result<
    TokenResponse,
    Status,
>)
    ensures
        match answer {
            Ok(response) => exists|user_id: Seq<char>|
                #[trigger] issued(secret@, user_id, now) == Ok::<
                    (Seq<char>, Seq<char>, i64),
                    Status,
                >(response_view(response)),
            Err(status) => status == Status::BadRequest || status == Status::Forbidden || status
                == Status::InternalServerError,
        },
{
    let refresh = refresh_claims(
        decode_claims(secret, request.refresh_token.as_str(), "iat", "exp", "access_token"),
    );
    let access = access_claims(
        decode_claims(secret, request.access_token.as_str(), "iat", "exp", "user_id"),
    );
    answer_refresh(refresh, access, request.access_token.as_str(), secret, now)
}

/// Whom a request is made for, given what its access token says: the token
/// must be genuine and valid at `now`, else the request is unauthorized.
pub open spec fn access_decision(claims: Option<AccessTokenClaims>, now: i64) -> Result<
    Seq<char>,
    Status,
> {
    match claims {
        None => Err(Status::Unauthorized),
        Some(c) => if in_window(now, c.iat, c.exp) {
            Ok(c.user_id@)
        } else {
            Err(Status::Unauthorized)
        },
    }
}

/// Decides whom a request is made for, given what its access token says
/// (`None`: the token is not genuine).
pub fn decide_access(claims: Option<AccessTokenClaims>, now: i64) -> (decision: Result<
    String,
    Status,
>)
    ensures
        match decision {
            Ok(user_id) => access_decision(claims, now) == Ok::<Seq<char>, Status>(user_id@),
            Err(status) => access_decision(claims, now) == Err::<Seq<char>, Status>(status),
        },
{
    match claims {
        None => Err(Status::Unauthorized),
        Some(c) => if is_valid_at(now, c.iat, c.exp) {
            Ok(c.user_id)
        } else {
            Err(Status::Unauthorized)
        },
    }
}

/// Whether `c` separates the words of a header: a space, or one of the
/// control characters from tab to carriage return.
pub open spec fn is_space(c: char) -> bool {
    c == ' ' || ('\t' <= c <= '\r')
}

/// The first position at or after `i` that holds no space.
pub open spec fn skip_spaces(s: Seq<char>, i: int) -> int
    decreases s.len() - i,
{
    if 0 <= i < s.len() && is_space(s[i]) {
        skip_spaces(s, i + 1)
    } else {
        i
    }
}

/// The first position at or after `i` that holds a space, or the end.
pub open spec fn skip_word(s: Seq<char>, i: int) -> int
    decreases s.len() - i,
{
    if 0 <= i < s.len() && !is_space(s[i]) {
        skip_word(s, i + 1)
    } else {
        i
    }
}

/// Where the first word at or after `i` starts and ends, if there is one.
pub open spec fn next_word(s: Seq<char>, i: int) -> Option<(int, int)> {
    let start = skip_spaces(s, i);
    let end = skip_word(s, start);
    if start < end {
        Some((start, end))
    } else {
        None
    }
}

/// The token of an `Authorization` header: the header must be ASCII, its
/// first word must be `Bearer`, and its second word is the token.
pub open spec fn bearer_token(header: Seq<char>) -> Option<Seq<char>> {
    if !vstd::utf8::is_ascii_chars(header) {
        None
    } else {
        match next_word(header, 0) {
            None => None,
            Some((a, b)) => if header.subrange(a, b) != "Bearer"@ {
                None
            } else {
                match next_word(header, b) {
                    None => None,
                    Some((c, d)) => Some(header.subrange(c, d)),
                }
            },
        }
    }
}

fn find_word(s: &str, from: usize) -> (word: Option<(usize, usize)>)
    requires
        s.is_ascii(),
        from <= s@.len(),
    ensures
        match word {
            Some((a, b)) => next_word(s@, from as int) == Some((a as int, b as int)) && from <= a
                < b <= s@.len(),
            None => next_word(s@, from as int) is None,
        },
{
    let n = s.unicode_len();
    let mut a: usize = from;
    while a < n && is_space_byte(s.get_ascii(a))
        invariant
            s.is_ascii(),
            n == s@.len(),
            from <= a <= n,
            skip_spaces(s@, from as int) == skip_spaces(s@, a as int),
        decreases n - a,
    {
        a += 1;
    }
    let mut b: usize = a;
    while b < n && !is_space_byte(s.get_ascii(b))
        invariant
            s.is_ascii(),
            n == s@.len(),
            a <= b <= n,
            skip_word(s@, a as int) == skip_word(s@, b as int),
        decreases n - b,
    {
        b += 1;
    }
    if a < b {
        Some((a, b))
    } else {
        None
    }
}

fn is_space_byte(b: u8) -> (space: bool)
    ensures
        space == is_space(b as char),
{
    b == 32 || (9 <= b && b <= 13)
}

/// Reads the token from the value of an `Authorization` header.
pub fn parse_bearer(header: &str) -> (token: Option<String>)
    ensures
        match token {
            Some(t) => bearer_token(header@) == Some(t@),
            None => bearer_token(header@) is None,
        },
{
    if !header.is_ascii() {
        return None;
    }
    let (a, b) = match find_word(header, 0) {
        Some(word) => word,
        None => return None,
    };
    if !str_eq(header.substring_ascii(a, b), "Bearer") {
        return None;
    }
    match find_word(header, b) {
        Some((c, d)) => Some(header.substring_ascii(c, d).to_owned()),
        None => None,
    }
}

/// Authenticates a request by its `Authorization` header.
///
/// A request without the header, with a header that is no bearer token, or
/// with a token that is not genuine or not valid at `now` is unauthorized.
/// Whether a token is genuine is for the token library to say; whatever it
/// says, every refusal is an unauthorized.
pub fn auth_middleware(header: Option<&str>, secret: &str, now: i64) -> (user_id: Result<
    String,
    Status,
>)
    ensures
        user_id matches Err(status) ==> status == Status::Unauthorized,
        user_id is Ok ==> (header matches Some(h) && bearer_token(h@) is Some),
{
    let header = match header {
        Some(h) => h,
        None => return Err(Status::Unauthorized),
    };
    let token = match parse_bearer(header) {
        Some(t) => t,
        None => return Err(Status::Unauthorized),
    };
    let claims = access_claims(decode_claims(secret, token.as_str(), "iat", "exp", "user_id"));
    decide_access(claims, now)
}

/// What a registration answers, given the hash of the password (`None`: it
/// could not be hashed): forbidden without a hash, and where the name or
/// the id is taken.
pub open spec fn enrolment(
    users: Seq<User>,
    id: Seq<char>,
    username: Seq<char>,
    hash: Option<String>,
) -> Status {
    if hash is Some && forall|i: int|
        0 <= i < users.len() ==> (#[trigger] users[i]).username@ != username && users[i].id@ != id {
        Status::Success
    } else {
        Status::Forbidden
    }
}

/// Adds a user under the id and with the hash of the password (`None`: it
/// could not be hashed). After a success the user is the last of the
/// catalog; else the catalog is as it was.
pub fn enroll(catalog: &mut DbManager, id: String, username: String, hash: Option<String>) -> (status:
    Status)
    requires
        old(catalog).wf(),
    ensures
        final(catalog).wf(),
        final(catalog).same_but_users(old(catalog)),
        status == enrolment(old(catalog).users@, id@, username@, hash),
        status == Status::Success ==> {
            &&& final(catalog).users@.len() == old(catalog).users@.len() + 1
            &&& final(catalog).users@.drop_last() == old(catalog).users@
            &&& final(catalog).users@.last().id@ == id@
            &&& final(catalog).users@.last().username@ == username@
            &&& hash matches Some(h) && final(catalog).users@.last().password@ == h@
        },
        status != Status::Success ==> final(catalog).users@ == old(catalog).users@,
{
    let hash = match hash {
        Some(h) => h,
        None => return Status::Forbidden,
    };
    match catalog.add_user(id, username, hash) {
        Ok(()) => Status::Success,
        Err(_) => Status::Forbidden,
    }
}

/// Registers a user: hashes the password and adds the user to the catalog
/// under a fresh id.
///
/// A username that is taken is forbidden, and so is a password that cannot
/// be hashed. After a success the user is the last of the catalog, and the
/// stored hash matches the password.
pub fn register(catalog: &mut DbManager, username: String, password: &str) -> (status: Status)
    requires
        old(catalog).wf(),
    ensures
        final(catalog).wf(),
        final(catalog).same_but_users(old(catalog)),
        status == Status::Success || status == Status::Forbidden,
        status == Status::Success ==> {
            &&& final(catalog).users@.len() == old(catalog).users@.len() + 1
            &&& final(catalog).users@.drop_last() == old(catalog).users@
            &&& final(catalog).users@.last().username@ == username@
            &&& crate::ids::is_hyphenated_id(final(catalog).users@.last().id@)
            &&& bcrypt_verification(password@, final(catalog).users@.last().password@) == Some(
                true,
            )
        },
        status != Status::Success ==> final(catalog).users@ == old(catalog).users@,
        (exists|i: int|
            0 <= i < old(catalog).users@.len() && (#[trigger] old(catalog).users@[i]).username@
                == username@) ==> status == Status::Forbidden,
{
    let id = crate::ids::random_id();
    let hash = hash_password(password, PASSWORD_COST);
    enroll(catalog, id, username, hash)
}

} // verus!
