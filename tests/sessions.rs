use comment_sync::auth::{
    authenticate_at, new_session, user_from_info, validate_session_at, AuthService, UserInfo,
};
use comment_sync::error::ServiceError;
use comment_sync::models::{AuthToken, ReplyTone};
use comment_sync::oauth::OAuthConfig;
use comment_sync::store::Database;

const NOW: i64 = 1_700_000_000_000;

fn info() -> UserInfo {
    UserInfo {
        id: "acc1".to_string(),
        email: Some("a@example.com".to_string()),
        name: "Ann".to_string(),
        picture: None,
    }
}

fn service() -> AuthService {
    AuthService::new(OAuthConfig::new("cid".to_string(), "sec".to_string(), "http://cb".to_string()))
}

fn token() -> AuthToken {
    AuthToken {
        access_token: "at".to_string(),
        refresh_token: "rt".to_string(),
        expires_at: NOW,
        token_type: "Bearer".to_string(),
        scopes: vec![],
    }
}

#[test]
fn session_expiry_is_an_exact_boundary() {
    let mut s = new_session("s1".to_string(), "acc1", "1.2.3.4", "ua", NOW);
    s.expires_at = NOW;
    assert!(!s.is_valid_at(NOW));
    s.expires_at = NOW + 1_000;
    assert!(s.is_valid_at(NOW));
    s.is_active = false;
    assert!(!s.is_valid_at(NOW));
}

#[test]
fn new_session_lives_seven_days() {
    let s = new_session("s1".to_string(), "acc1", "ip", "ua", NOW);
    assert_eq!(s.expires_at, NOW + 604_800_000);
    assert!(s.is_active);
    assert_eq!(s.user_id, "acc1");
    let far = new_session("s2".to_string(), "acc1", "ip", "ua", i64::MAX - 5);
    assert_eq!(far.expires_at, i64::MAX);
}

#[test]
fn validation_needs_session_account_and_time() {
    let mut db = Database::new();
    assert!(validate_session_at(&db, "s1", NOW).is_none());
    db.create_session(&new_session("s1".to_string(), "acc1", "ip", "ua", NOW));
    // The account is not known yet.
    assert!(validate_session_at(&db, "s1", NOW).is_none());
    db.save_user(&user_from_info(None, info(), NOW));
    let (s, u) = validate_session_at(&db, "s1", NOW + 1).unwrap();
    assert_eq!(s.id, "s1");
    assert_eq!(u.id, "acc1");
    assert!(validate_session_at(&db, "s1", NOW + 604_800_000).is_none());
    db.end_session("s1");
    assert!(validate_session_at(&db, "s1", NOW + 1).is_none());
    // Ending again, or ending an unknown session, is no error.
    db.end_session("s1");
    db.end_session("nope");
    assert!(!db.get_session("s1").unwrap().is_active);
}

#[test]
fn created_session_has_random_id_and_is_stored() {
    let svc = service();
    let mut db = Database::new();
    let s = svc.create_session(&mut db, "acc1", "ip", "ua").unwrap();
    assert_eq!(s.id.len(), 36);
    assert_eq!(s.expires_at - s.created_at, 604_800_000);
    assert_eq!(db.get_session(&s.id).unwrap(), s);
    let other = svc.create_session(&mut db, "acc1", "ip", "ua").unwrap();
    assert_ne!(other.id, s.id);
}

#[test]
fn new_account_gets_default_preferences() {
    let u = user_from_info(None, info(), NOW);
    assert!(u.preferences.enable_ai_replies);
    assert_eq!(u.preferences.ai_model, "gpt-3.5-turbo");
    assert_eq!(u.preferences.reply_tone, ReplyTone::Friendly);
    assert_eq!(u.preferences.polling_interval, 60);
    assert_eq!(u.created_at, NOW);
}

#[test]
fn known_account_keeps_creation_and_preferences() {
    let mut first = user_from_info(None, info(), NOW);
    first.preferences.reply_tone = ReplyTone::Helpful;
    let mut changed = info();
    changed.name = "Anne".to_string();
    let u = user_from_info(Some(first), changed, NOW + 5);
    assert_eq!(u.name, "Anne");
    assert_eq!(u.created_at, NOW);
    assert_eq!(u.updated_at, NOW + 5);
    assert_eq!(u.preferences.reply_tone, ReplyTone::Helpful);
}

#[test]
fn create_or_update_user_stores_account_and_credential() {
    let svc = service();
    let mut db = Database::new();
    let u = svc.create_or_update_user(&mut db, info(), &token());
    assert_eq!(db.get_user("acc1").unwrap(), u);
    assert_eq!(db.get_auth_token("acc1").unwrap(), token());
    let url = svc.get_authorization_url();
    assert!(url.starts_with("https://accounts.google.com/o/oauth2/auth?client_id=cid&"));
    assert_eq!(url.len(), svc.oauth_config().authorization_url("").len() + 36);
}

#[test]
fn requests_without_a_valid_session_are_unauthorized() {
    let mut db = Database::new();
    assert_eq!(authenticate_at(&db, None, NOW), Err(ServiceError::Unauthorized));
    assert_eq!(authenticate_at(&db, Some("s1"), NOW), Err(ServiceError::Unauthorized));
    db.create_session(&new_session("s1".to_string(), "acc1", "ip", "ua", NOW));
    db.save_user(&user_from_info(None, info(), NOW));
    assert_eq!(authenticate_at(&db, Some("s1"), NOW).unwrap().id, "acc1");
    assert_eq!(
        authenticate_at(&db, Some("s1"), NOW + 604_800_000),
        Err(ServiceError::Unauthorized)
    );
}

#[test]
fn every_error_kind_has_a_message() {
    for e in [
        ServiceError::Unauthorized,
        ServiceError::AuthExchangeError,
        ServiceError::ReauthRequired,
        ServiceError::TransientExternalError,
        ServiceError::NotFound,
        ServiceError::ValidationError,
        ServiceError::InternalPersistenceError,
    ] {
        assert!(!e.message().is_empty());
    }
}

#[test]
fn a_stored_session_is_never_replaced() {
    let mut db = Database::new();
    assert!(db.create_session(&new_session("s1".to_string(), "acc1", "ip", "ua", NOW)));
    assert!(!db.create_session(&new_session("s1".to_string(), "acc2", "ip2", "ua2", NOW + 5)));
    let kept = db.get_session("s1").unwrap();
    assert_eq!(kept.user_id, "acc1");
    assert_eq!(kept.created_at, NOW);
}
