use std::collections::HashSet;

use session_auth::errors::{STATUS_BAD_REQUEST, STATUS_INTERNAL};
use session_auth::session::{
    ResolveError, SessionRow, SessionService, SessionState, SessionUserDTO, StoreError,
};
use session_auth::time::{Timestamp, SESSION_DURATION_MICROS};
use session_auth::token::{generate_token, parse_token, token_text};
use session_auth::user::UserRow;

const TOKEN: u128 = 0x550e8400_e29b_41d4_a716_446655440000;
const TOKEN_TEXT: &str = "550e8400-e29b-41d4-a716-446655440000";

fn at(micros: i64) -> Timestamp {
    Timestamp::from_micros(micros)
}

fn row(expire: i64, revoked: Option<i64>) -> SessionRow {
    SessionRow {
        token: TOKEN,
        user_id: 7,
        created_at: at(0),
        expire_at: at(expire),
        revoked_at: revoked.map(at),
    }
}

fn owner() -> UserRow {
    UserRow {
        id: 7,
        name: "Ada".to_string(),
        email: "ada@example.com".to_string(),
        password: "unused".to_string(),
    }
}

#[test]
fn validity_truth_table() {
    let now = at(100);
    // neither expired nor revoked
    assert!(row(200, None).is_valid_at(now));
    // expired, not revoked
    assert!(!row(50, None).is_valid_at(now));
    // revoked, not expired
    assert!(!row(200, Some(10)).is_valid_at(now));
    // expired and revoked
    assert!(!row(50, Some(10)).is_valid_at(now));
    // expiry is exclusive
    assert!(!row(100, None).is_valid_at(now));
}

#[test]
fn resolved_session_validity_truth_table() {
    let now = at(100);
    let cases = [(200, None, true), (50, None, false), (200, Some(10), false), (50, Some(10), false)];
    for (expire, revoked, expected) in cases {
        let dto = SessionUserDTO::from_rows(&row(expire, revoked), Some(owner()));
        assert_eq!(dto.is_valid_at(now), expected);
    }
}

#[test]
fn session_state_at() {
    assert_eq!(row(200, None).state_at(at(100)), SessionState::Active);
    assert_eq!(row(50, None).state_at(at(100)), SessionState::Expired);
    assert_eq!(row(200, Some(1)).state_at(at(100)), SessionState::Revoked);
    assert_eq!(row(50, Some(1)).state_at(at(100)), SessionState::Revoked);
}

#[test]
fn open_session_lasts_720_hours() {
    let s = SessionRow::open(TOKEN, 3, at(1_000));
    assert_eq!(SESSION_DURATION_MICROS, 720 * 3_600_000_000);
    assert_eq!(s.expire_at, at(1_000 + 2_592_000_000_000));
    assert_eq!(s.created_at, at(1_000));
    assert_eq!(s.user_id, 3);
    assert_eq!(s.revoked_at, None);
    assert!(s.is_valid_at(at(1_000)));
    assert!(!s.is_valid_at(at(1_000 + 2_592_000_000_000)));
}

#[test]
fn create_prepares_a_fresh_valid_session() {
    let svc = SessionService::new();
    let a = svc.create(9).unwrap();
    let b = svc.create(9).unwrap();
    assert_eq!(a.user_id, 9);
    assert_eq!(a.revoked_at, None);
    assert_eq!(a.expire_at.micros - a.created_at.micros, SESSION_DURATION_MICROS);
    assert_ne!(a.token, b.token);
    let dto = SessionUserDTO::from_rows(&a, None);
    assert!(dto.is_valid());
}

#[test]
fn generated_tokens_are_version_4() {
    for _ in 0..100 {
        let text = token_text(generate_token());
        assert_eq!(&text[14..15], "4");
        assert!("89ab".contains(&text[19..20]));
    }
}

#[test]
fn open_at_fixed_time() {
    let svc = SessionService::new();
    assert_eq!(svc.open_at(TOKEN, 4, at(10)).unwrap(), SessionRow::open(TOKEN, 4, at(10)));
    let err = svc.open_at(TOKEN, 4, at(i64::MAX)).unwrap_err();
    assert_eq!(err.status, STATUS_INTERNAL);
    let err = svc.open_at(TOKEN, 4, at(i64::MAX - SESSION_DURATION_MICROS + 1)).unwrap_err();
    assert_eq!(err.status, STATUS_INTERNAL);
    assert!(svc.open_at(TOKEN, 4, at(i64::MAX - SESSION_DURATION_MICROS)).is_ok());
}

#[test]
fn tokens_are_unique() {
    let mut seen = HashSet::new();
    for _ in 0..10_000 {
        assert!(seen.insert(generate_token()));
    }
    assert_eq!(seen.len(), 10_000);
}

#[test]
fn token_text_is_canonical() {
    assert_eq!(token_text(TOKEN), TOKEN_TEXT);
    assert_eq!(token_text(0), "00000000-0000-0000-0000-000000000000");
    assert_eq!(token_text(u128::MAX), "ffffffff-ffff-ffff-ffff-ffffffffffff");
}

#[test]
fn parse_token_forms() {
    assert_eq!(parse_token(TOKEN_TEXT), Some(TOKEN));
    assert_eq!(parse_token("550E8400-E29B-41D4-A716-446655440000"), Some(TOKEN));
    assert_eq!(parse_token("550e8400e29b41d4a716446655440000"), Some(TOKEN));
    assert_eq!(parse_token("not-a-uuid"), None);
    assert_eq!(parse_token(""), None);
    assert_eq!(parse_token("550e8400-e29b-41d4-a716-44665544000g"), None);
    assert_eq!(parse_token("550e8400ae29b-41d4-a716-446655440000"), None);
    assert_eq!(parse_token("{550e8400-e29b-41d4-a716-446655440000}"), Some(TOKEN));
    assert_eq!(parse_token("[550e8400-e29b-41d4-a716-446655440000]"), None);
    assert_eq!(parse_token("URN:UUID:550e8400-e29b-41d4-a716-446655440000"), Some(TOKEN));
    assert_eq!(parse_token("urn:uuic:550e8400-e29b-41d4-a716-446655440000"), None);
    assert_eq!(parse_token("550e8400e29b41d4a716446655440000a"), None);
}

#[test]
fn generated_token_round_trips() {
    let t = generate_token();
    assert_eq!(parse_token(&token_text(t)), Some(t));
}

#[test]
fn stored_session_reports_its_token() {
    let svc = SessionService::new();
    let dto = svc.stored(Ok(row(10, None))).unwrap();
    assert_eq!(dto.token, TOKEN_TEXT);
}

#[test]
fn storage_failure_on_create_hides_details() {
    let svc = SessionService::new();
    let err = svc.stored(Err(StoreError { message: "disk full".to_string() })).unwrap_err();
    assert_eq!(err.status, STATUS_INTERNAL);
    assert_eq!(err.message, "Internal error during the creation of the session");
    assert_eq!(err.details, None);
}

#[test]
fn resolve_token_text() {
    let svc = SessionService::new();
    assert_eq!(svc.resolve_token(TOKEN_TEXT), Ok(TOKEN));
    assert_eq!(svc.resolve_token("nope"), Err(ResolveError::MalformedToken));
}

#[test]
fn get_with_user_outcomes() {
    let svc = SessionService::new();
    let e = svc.get_with_user(Err(StoreError { message: "down".to_string() })).unwrap_err();
    assert_eq!(e, ResolveError::StorageFailure);
    let e = svc.get_with_user(Ok(None)).unwrap_err();
    assert_eq!(e, ResolveError::SessionNotFound);
    let dto = svc.get_with_user(Ok(Some((row(10, Some(3)), Some(owner()))))).unwrap();
    assert_eq!(dto.token, TOKEN_TEXT);
    assert_eq!(dto.revoked_at, Some(at(3)));
    assert_eq!(dto.expire_at, at(10));
    let user = dto.user.unwrap();
    assert_eq!((user.id, user.name.as_str(), user.email.as_str()), (7, "Ada", "ada@example.com"));
    let orphan = svc.get_with_user(Ok(Some((row(10, None), None)))).unwrap();
    assert!(orphan.user.is_none());
}

#[test]
fn revoke_marks_once() {
    let mut s = row(200, None);
    assert!(s.revoke(at(50)));
    assert_eq!(s.revoked_at, Some(at(50)));
    assert!(!s.revoke(at(60)));
    assert_eq!(s.revoked_at, Some(at(50)));
}

#[test]
fn revoked_session_is_found_but_not_valid() {
    let svc = SessionService::new();
    let cmd = svc.revoke_token(TOKEN_TEXT).unwrap();
    assert_eq!(cmd.token, TOKEN);
    let mut stored = row(i64::MAX, None);
    assert!(stored.revoke(cmd.at));
    let dto = svc.get_with_user(Ok(Some((stored, Some(owner()))))).unwrap();
    assert!(!dto.is_valid_at(at(0)));
    assert!(!dto.is_valid());
}

#[test]
fn revoke_token_malformed() {
    let svc = SessionService::new();
    let err = svc.revoke_token("garbage").unwrap_err();
    assert_eq!(err.status, STATUS_BAD_REQUEST);
    assert_eq!(err.message, "The given token is malformated");
}

#[test]
fn revoked_outcomes() {
    let svc = SessionService::new();
    let ok = svc.revoked(TOKEN_TEXT.to_string(), Ok(1)).unwrap();
    assert_eq!(ok.token, TOKEN_TEXT);
    let none = svc.revoked(TOKEN_TEXT.to_string(), Ok(0)).unwrap_err();
    assert_eq!(none.status, STATUS_BAD_REQUEST);
    assert_eq!(none.message, "No session found");
    let failed = svc.revoked(TOKEN_TEXT.to_string(), Err(StoreError { message: "x".to_string() })).unwrap_err();
    assert_eq!(failed.status, STATUS_INTERNAL);
    assert_eq!(failed.details, None);
}
