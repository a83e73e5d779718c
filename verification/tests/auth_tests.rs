use chronolens::auth::{
    access_claims, auth_middleware, check_login, decide_access, decide_refresh,
    generate_jwt_tokens, is_valid_at, issue_tokens, login, parse_bearer, refresh, refresh_claims,
    register, AccessTokenClaims, DecodedClaims, LoginRequest, RefreshTokenClaims,
    RefreshTokenRequest, ACCESS_LIFETIME_MS, REFRESH_LIFETIME_MS,
};
use chronolens::catalog::{DbManager, GetUserError, User};
use chronolens::status::Status;

const NOW: i64 = 1_700_000_000_000;
const SECRET: &str = "a secret";

fn catalog_with(username: &str, password: &str) -> DbManager {
    let mut c = DbManager::new();
    let hash = bcrypt::hash(password, 4).expect("hashing works");
    assert_eq!(c.add_user("user-1".into(), username.into(), hash), Ok(()));
    c
}

fn claims_of(token: &str) -> serde_json::Value {
    let mut v = jsonwebtoken::Validation::new(jsonwebtoken::Algorithm::HS256);
    v.validate_exp = false;
    v.required_spec_claims.clear();
    let key = jsonwebtoken::DecodingKey::from_secret(SECRET.as_bytes());
    jsonwebtoken::decode::<serde_json::Value>(token, &key, &v).expect("token is genuine").claims
}

#[test]
fn token_lifetimes() {
    assert_eq!(ACCESS_LIFETIME_MS, 60 * 60 * 1000);
    assert_eq!(REFRESH_LIFETIME_MS, 48 * 60 * 60 * 1000);
}

#[test]
fn token_window_includes_both_ends() {
    assert!(is_valid_at(10, 10, 20));
    assert!(is_valid_at(20, 10, 20));
    assert!(is_valid_at(15, 10, 20));
    assert!(!is_valid_at(9, 10, 20));
    assert!(!is_valid_at(21, 10, 20));
}

#[test]
fn bearer_token_is_the_second_word() {
    assert_eq!(parse_bearer("Bearer abc.def.ghi"), Some("abc.def.ghi".to_string()));
    assert_eq!(parse_bearer("  Bearer\t abc  trailing"), Some("abc".to_string()));
    assert_eq!(parse_bearer("Bearer"), None);
    assert_eq!(parse_bearer("Bearer   "), None);
    assert_eq!(parse_bearer("bearer abc"), None);
    assert_eq!(parse_bearer("Basic abc"), None);
    assert_eq!(parse_bearer("Bearerabc"), None);
    assert_eq!(parse_bearer(""), None);
    assert_eq!(parse_bearer("Bearer é"), None);
}

#[test]
fn generated_tokens_carry_the_claims() {
    let (access, refresh_token) =
        generate_jwt_tokens(SECRET.into(), "user-1".into(), NOW, NOW + 5, NOW + 9)
            .expect("tokens are signed");
    let a = claims_of(&access);
    assert_eq!(a["iat"].as_i64(), Some(NOW));
    assert_eq!(a["exp"].as_i64(), Some(NOW + 5));
    assert_eq!(a["user_id"].as_str(), Some("user-1"));
    let r = claims_of(&refresh_token);
    assert_eq!(r["iat"].as_i64(), Some(NOW));
    assert_eq!(r["exp"].as_i64(), Some(NOW + 9));
    assert_eq!(r["access_token"].as_str(), Some(access.as_str()));
}

#[test]
fn generated_tokens_are_a_function_of_their_claims() {
    let one = generate_jwt_tokens(SECRET.into(), "u".into(), NOW, NOW + 1, NOW + 2);
    let two = generate_jwt_tokens(SECRET.into(), "u".into(), NOW, NOW + 1, NOW + 2);
    let other = generate_jwt_tokens(SECRET.into(), "v".into(), NOW, NOW + 1, NOW + 2);
    assert_eq!(one, two);
    assert_ne!(one, other);
    let access = one.expect("tokens are signed").0;
    assert_eq!(access.split('.').count(), 3);
    assert!(access.starts_with("eyJ0eXAiOiJKV1QiLCJhbGciOiJIUzI1NiJ9."));
}

#[test]
fn issued_tokens_expire_after_their_lifetimes() {
    let t = issue_tokens(SECRET, "user-1", NOW).expect("tokens are issued");
    assert_eq!(t.expires_at, NOW + 3_600_000);
    assert_eq!(claims_of(&t.access_token)["exp"].as_i64(), Some(NOW + 3_600_000));
    assert_eq!(claims_of(&t.refresh_token)["exp"].as_i64(), Some(NOW + 172_800_000));
    assert!(matches!(issue_tokens(SECRET, "u", i64::MAX), Err(Status::InternalServerError)));
    assert!(issue_tokens(SECRET, "u", i64::MAX - 172_800_000).is_ok());
}

#[test]
fn login_with_the_right_password_yields_tokens() {
    let c = catalog_with("alice", "pw");
    let request = LoginRequest { username: "alice".into(), password: "pw".into() };
    let t = login(&c, &request, SECRET, NOW).expect("login succeeds");
    assert_eq!(t.expires_at, NOW + ACCESS_LIFETIME_MS);
    assert_eq!(claims_of(&t.access_token)["user_id"].as_str(), Some("user-1"));
}

#[test]
fn login_is_forbidden_for_wrong_password_and_unknown_user() {
    let c = catalog_with("alice", "pw");
    let wrong = LoginRequest { username: "alice".into(), password: "pW".into() };
    assert!(matches!(login(&c, &wrong, SECRET, NOW), Err(Status::Forbidden)));
    let unknown = LoginRequest { username: "bob".into(), password: "pw".into() };
    assert!(matches!(login(&c, &unknown, SECRET, NOW), Err(Status::Forbidden)));
}

#[test]
fn login_is_forbidden_where_the_stored_hash_is_malformed() {
    let user = User { id: "u".into(), username: "alice".into(), password: "not a hash".into() };
    assert!(matches!(check_login(Ok(&user), "pw", SECRET, NOW), Err(Status::Forbidden)));
    assert!(matches!(
        check_login(Err(GetUserError::InternalError), "pw", SECRET, NOW),
        Err(Status::Forbidden)
    ));
}

#[test]
fn claims_need_every_field() {
    let full = DecodedClaims { iat: Some(1), exp: Some(2), subject: Some("s".into()) };
    let a = access_claims(Some(full)).expect("claims are complete");
    assert_eq!((a.iat, a.exp, a.user_id.as_str()), (1, 2, "s"));
    let full = DecodedClaims { iat: Some(1), exp: Some(2), subject: Some("t".into()) };
    let r = refresh_claims(Some(full)).expect("claims are complete");
    assert_eq!((r.iat, r.exp, r.access_token.as_str()), (1, 2, "t"));
    assert!(access_claims(None).is_none());
    assert!(access_claims(Some(DecodedClaims { iat: None, exp: Some(2), subject: Some("s".into()) })).is_none());
    assert!(access_claims(Some(DecodedClaims { iat: Some(1), exp: None, subject: Some("s".into()) })).is_none());
    assert!(refresh_claims(Some(DecodedClaims { iat: Some(1), exp: Some(2), subject: None })).is_none());
}

fn refresh_of(access: &str, iat: i64, exp: i64) -> Option<RefreshTokenClaims> {
    Some(RefreshTokenClaims { iat, exp, access_token: access.to_string() })
}

fn access_of(user: &str) -> Option<AccessTokenClaims> {
    Some(AccessTokenClaims { iat: 0, exp: 1, user_id: user.to_string() })
}

#[test]
fn refresh_decision_follows_the_order_of_the_checks() {
    assert_eq!(decide_refresh(refresh_of("a", 10, 20), access_of("u"), "a", 15), Ok("u".to_string()));
    assert_eq!(decide_refresh(None, access_of("u"), "a", 15), Err(Status::BadRequest));
    assert_eq!(decide_refresh(None, None, "a", 15), Err(Status::BadRequest));
    assert_eq!(decide_refresh(refresh_of("a", 10, 20), access_of("u"), "a", 21), Err(Status::Forbidden));
    assert_eq!(decide_refresh(refresh_of("a", 10, 20), access_of("u"), "a", 9), Err(Status::Forbidden));
    assert_eq!(decide_refresh(refresh_of("a", 10, 20), None, "a", 21), Err(Status::Forbidden));
    assert_eq!(decide_refresh(refresh_of("a", 10, 20), access_of("u"), "b", 15), Err(Status::Forbidden));
    assert_eq!(decide_refresh(refresh_of("a", 10, 20), None, "b", 15), Err(Status::Forbidden));
    assert_eq!(decide_refresh(refresh_of("a", 10, 20), None, "a", 15), Err(Status::BadRequest));
    assert_eq!(decide_refresh(refresh_of("a", 10, 20), access_of("u"), "a", 20), Ok("u".to_string()));
}

#[test]
fn refresh_with_its_own_pair_yields_fresh_tokens() {
    let t = issue_tokens(SECRET, "user-1", NOW).expect("tokens are issued");
    let request = RefreshTokenRequest {
        access_token: t.access_token.clone(),
        refresh_token: t.refresh_token.clone(),
    };
    let later = NOW + 7_200_000;
    let fresh = refresh(&request, SECRET, later).expect("refresh is granted");
    assert_eq!(fresh.expires_at, later + 3_600_000);
    assert_eq!(claims_of(&fresh.access_token)["user_id"].as_str(), Some("user-1"));
    assert_eq!(claims_of(&fresh.access_token)["iat"].as_i64(), Some(later));
    assert_eq!(
        claims_of(&fresh.refresh_token)["access_token"].as_str(),
        Some(fresh.access_token.as_str())
    );
}

#[test]
fn refresh_replay_is_forbidden() {
    let c = catalog_with("alice", "pw");
    let request = LoginRequest { username: "alice".into(), password: "pw".into() };
    let first = login(&c, &request, SECRET, NOW).expect("login succeeds");
    let second = login(&c, &request, SECRET, NOW + 1).expect("login succeeds");
    let replay = RefreshTokenRequest {
        access_token: first.access_token.clone(),
        refresh_token: second.refresh_token.clone(),
    };
    assert!(matches!(refresh(&replay, SECRET, NOW + 2), Err(Status::Forbidden)));
}

#[test]
fn refresh_is_refused_for_expired_and_for_forged_tokens() {
    let t = issue_tokens(SECRET, "user-1", NOW).expect("tokens are issued");
    let request = RefreshTokenRequest {
        access_token: t.access_token.clone(),
        refresh_token: t.refresh_token.clone(),
    };
    assert!(matches!(refresh(&request, SECRET, NOW + 172_800_001), Err(Status::Forbidden)));
    assert!(matches!(refresh(&request, "another secret", NOW), Err(Status::BadRequest)));
    let garbage = RefreshTokenRequest { access_token: "x".into(), refresh_token: "y".into() };
    assert!(matches!(refresh(&garbage, SECRET, NOW), Err(Status::BadRequest)));
}

#[test]
fn access_decision() {
    assert_eq!(decide_access(access_of("u"), 1), Ok("u".to_string()));
    assert_eq!(decide_access(access_of("u"), 2), Err(Status::Unauthorized));
    assert_eq!(decide_access(access_of("u"), -1), Err(Status::Unauthorized));
    assert_eq!(decide_access(None, 0), Err(Status::Unauthorized));
}

#[test]
fn middleware_admits_a_valid_bearer() {
    let t = issue_tokens(SECRET, "user-1", NOW).expect("tokens are issued");
    let header = format!("Bearer {}", t.access_token);
    assert_eq!(auth_middleware(Some(&header), SECRET, NOW), Ok("user-1".to_string()));
    assert_eq!(auth_middleware(Some(&header), SECRET, NOW + 3_600_000), Ok("user-1".to_string()));
}

#[test]
fn middleware_rejects_everything_else() {
    let t = issue_tokens(SECRET, "user-1", NOW).expect("tokens are issued");
    let header = format!("Bearer {}", t.access_token);
    assert_eq!(auth_middleware(None, SECRET, NOW), Err(Status::Unauthorized));
    assert_eq!(auth_middleware(Some("Bearer"), SECRET, NOW), Err(Status::Unauthorized));
    assert_eq!(auth_middleware(Some(&t.access_token), SECRET, NOW), Err(Status::Unauthorized));
    assert_eq!(auth_middleware(Some(&header), SECRET, NOW - 1), Err(Status::Unauthorized));
    assert_eq!(auth_middleware(Some(&header), SECRET, NOW + 3_600_001), Err(Status::Unauthorized));
    assert_eq!(auth_middleware(Some(&header), "another", NOW), Err(Status::Unauthorized));
    let refresh_header = format!("Bearer {}", t.refresh_token);
    assert_eq!(auth_middleware(Some(&refresh_header), SECRET, NOW), Err(Status::Unauthorized));
}

#[test]
fn registered_user_can_log_in() {
    let mut c = DbManager::new();
    assert_eq!(register(&mut c, "alice".into(), "pw"), Status::Success);
    assert_eq!(c.users.len(), 1);
    assert_eq!(c.users[0].username, "alice");
    assert_eq!(c.users[0].id.len(), 36);
    assert_ne!(c.users[0].password, "pw");
    assert_eq!(register(&mut c, "alice".into(), "other"), Status::Forbidden);
    assert_eq!(c.users.len(), 1);
    let request = LoginRequest { username: "alice".into(), password: "pw".into() };
    assert!(login(&c, &request, SECRET, NOW).is_ok());
}

#[test]
fn refresh_answer_is_a_fresh_pair_or_the_refusal() {
    let granted = chronolens::auth::answer_refresh(
        refresh_of("a", NOW - 10, NOW + 10),
        access_of("user-9"),
        "a",
        SECRET,
        NOW,
    )
    .expect("refresh is granted");
    assert_eq!(granted.expires_at, NOW + 3_600_000);
    assert_eq!(claims_of(&granted.access_token)["user_id"].as_str(), Some("user-9"));
    assert_eq!(claims_of(&granted.access_token)["iat"].as_i64(), Some(NOW));
    assert_eq!(claims_of(&granted.refresh_token)["exp"].as_i64(), Some(NOW + 172_800_000));
    let bound = chronolens::auth::answer_refresh(
        refresh_of("a", NOW - 10, NOW + 10),
        access_of("user-9"),
        "b",
        SECRET,
        NOW,
    );
    assert!(matches!(bound, Err(Status::Forbidden)));
    let forged =
        chronolens::auth::answer_refresh(None, access_of("user-9"), "a", SECRET, NOW);
    assert!(matches!(forged, Err(Status::BadRequest)));
    let late = chronolens::auth::answer_refresh(
        refresh_of("a", 0, 10),
        access_of("user-9"),
        "a",
        SECRET,
        i64::MAX,
    );
    assert!(matches!(late, Err(Status::Forbidden)));
    let overflow = chronolens::auth::answer_refresh(
        refresh_of("a", 0, i64::MAX),
        access_of("user-9"),
        "a",
        SECRET,
        i64::MAX - 5,
    );
    assert!(matches!(overflow, Err(Status::InternalServerError)));
}

#[test]
fn enrolment_needs_a_hash_and_a_free_name() {
    let mut c = DbManager::new();
    assert_eq!(
        chronolens::auth::enroll(&mut c, "u1".into(), "alice".into(), Some("h1".into())),
        Status::Success
    );
    assert_eq!(
        chronolens::auth::enroll(&mut c, "u2".into(), "alice".into(), Some("h2".into())),
        Status::Forbidden
    );
    assert_eq!(
        chronolens::auth::enroll(&mut c, "u1".into(), "bob".into(), Some("h2".into())),
        Status::Forbidden
    );
    assert_eq!(chronolens::auth::enroll(&mut c, "u2".into(), "bob".into(), None), Status::Forbidden);
    assert_eq!(c.users.len(), 1);
    assert_eq!(
        chronolens::auth::enroll(&mut c, "u2".into(), "bob".into(), Some("h2".into())),
        Status::Success
    );
    assert_eq!((c.users[1].id.as_str(), c.users[1].password.as_str()), ("u2", "h2"));
}
