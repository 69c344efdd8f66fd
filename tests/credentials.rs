use comment_sync::auth::AuthService;
use comment_sync::credentials::{needs_refresh, record_refresh, RefreshGate, TokenStep};
use comment_sync::error::ServiceError;
use comment_sync::models::AuthToken;
use comment_sync::oauth::{OAuthConfig, TokenReply, TokenResponse};
use comment_sync::store::Database;

const NOW: i64 = 1_700_000_000_000;

fn token(access: &str, expires_at: i64) -> AuthToken {
    AuthToken {
        access_token: access.to_string(),
        refresh_token: "rt-1".to_string(),
        expires_at,
        token_type: "Bearer".to_string(),
        scopes: vec!["s".to_string()],
    }
}

fn granted(expires_in: i64) -> TokenReply {
    TokenReply::Granted(TokenResponse {
        access_token: "fresh".to_string(),
        refresh_token: None,
        expires_in,
        token_type: "Bearer".to_string(),
        scope: "s".to_string(),
    })
}

#[test]
fn refresh_window_is_five_minutes_inclusive() {
    assert!(needs_refresh(&token("a", NOW + 300_000), NOW));
    assert!(!needs_refresh(&token("a", NOW + 300_001), NOW));
    assert!(needs_refresh(&token("a", NOW - 1), NOW));
}

#[test]
fn credential_outside_window_is_handed_out() {
    let mut gate = RefreshGate::new();
    let step = gate.request("acc1", 1, Some(token("current", NOW + 3_600_000)), NOW);
    assert_eq!(step, TokenStep::Ready("current".to_string()));
}

#[test]
fn missing_credential_fails() {
    let mut gate = RefreshGate::new();
    assert_eq!(gate.request("acc1", 1, None, NOW), TokenStep::Fail(ServiceError::NotFound));
}

#[test]
fn expiring_credential_is_refreshed_and_stored() {
    // acc1's credential expires in two minutes.
    let mut db = Database::new();
    db.save_auth_token("acc1", &token("old", NOW + 120_000));
    let mut auth = AuthService::new(OAuthConfig::new(
        "cid".to_string(),
        "sec".to_string(),
        "http://cb".to_string(),
    ));
    let step = auth.request_token(&db, "acc1", 7, NOW);
    assert_eq!(step, TokenStep::Refresh("rt-1".to_string()));
    let got = record_refresh(&mut db, "acc1", "rt-1", granted(3600), NOW);
    assert_eq!(got, Ok("fresh".to_string()));
    let stored = db.get_auth_token("acc1").unwrap();
    assert_eq!(stored.access_token, "fresh");
    assert_eq!(stored.refresh_token, "rt-1");
    assert!(stored.expires_at >= NOW + 120_000);
    assert_eq!(stored.expires_at, NOW + 3_600_000);
    let delivered = auth.complete_refresh("acc1", got);
    assert_eq!(delivered.len(), 1);
    assert_eq!(delivered[0].caller, 7);
    assert_eq!(delivered[0].result, Ok("fresh".to_string()));
    // The next caller sees the stored credential, with no refresh.
    assert_eq!(auth.request_token(&db, "acc1", 8, NOW), TokenStep::Ready("fresh".to_string()));
}

#[test]
fn concurrent_callers_share_one_refresh() {
    let mut gate = RefreshGate::new();
    let due = token("old", NOW + 60_000);
    assert_eq!(gate.request("acc1", 1, Some(due.clone()), NOW), TokenStep::Refresh("rt-1".to_string()));
    assert_eq!(gate.request("acc1", 2, Some(due.clone()), NOW), TokenStep::Wait);
    assert_eq!(gate.request("acc1", 3, Some(due.clone()), NOW), TokenStep::Wait);
    // Another account is independent.
    assert_eq!(gate.request("acc2", 4, Some(due.clone()), NOW), TokenStep::Refresh("rt-1".to_string()));
    let out = gate.complete("acc1", Ok("fresh".to_string()));
    let callers: Vec<u64> = out.iter().map(|d| d.caller).collect();
    assert_eq!(callers, vec![1, 2, 3]);
    assert!(out.iter().all(|d| d.result == Ok("fresh".to_string())));
    // With acc1's refresh over, a new one may start.
    assert_eq!(gate.request("acc1", 5, Some(due), NOW), TokenStep::Refresh("rt-1".to_string()));
    assert!(gate.complete("acc3", Ok("x".to_string())).is_empty());
}

#[test]
fn rejected_refresh_token_leaves_credential_untouched() {
    let mut db = Database::new();
    db.save_auth_token("acc1", &token("old", NOW + 60_000));
    let reply = TokenReply::Refused { status: 400, error_code: Some("invalid_grant".to_string()) };
    let got = record_refresh(&mut db, "acc1", "rt-1", reply, NOW);
    assert_eq!(got, Err(ServiceError::ReauthRequired));
    assert_eq!(db.get_auth_token("acc1").unwrap(), token("old", NOW + 60_000));
}

#[test]
fn transient_refresh_failure_is_retryable() {
    let mut db = Database::new();
    db.save_auth_token("acc1", &token("old", NOW));
    let got = record_refresh(&mut db, "acc1", "rt-1", TokenReply::Unreachable, NOW);
    assert_eq!(got, Err(ServiceError::TransientExternalError));
    assert_eq!(db.get_auth_token("acc1").unwrap().access_token, "old");
}

#[test]
fn error_messages_tell_reauth_apart() {
    assert_eq!(ServiceError::ReauthRequired.message(), "please reconnect your account");
    assert_eq!(ServiceError::Unauthorized.message(), "not authenticated");
}
