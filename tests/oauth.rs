use comment_sync::error::ServiceError;
use comment_sync::oauth::{
    exchange_outcome, expiry_at, join_with_spaces, refresh_outcome, token_from_exchange,
    token_from_refresh, OAuthConfig, TokenReply, TokenResponse,
};

fn config() -> OAuthConfig {
    OAuthConfig::new("cid".to_string(), "secret".to_string(), "http://localhost/cb".to_string())
}

fn response(refresh: Option<&str>) -> TokenResponse {
    TokenResponse {
        access_token: "new-access".to_string(),
        refresh_token: refresh.map(|s| s.to_string()),
        expires_in: 3600,
        token_type: "Bearer".to_string(),
        scope: "a b c".to_string(),
    }
}

#[test]
fn authorization_url_is_exact() {
    let c = OAuthConfig {
        client_id: "cid".to_string(),
        client_secret: "s".to_string(),
        redirect_uri: "http://x/cb".to_string(),
        scopes: vec!["s1".to_string(), "s2".to_string()],
    };
    assert_eq!(
        c.authorization_url("st"),
        "https://accounts.google.com/o/oauth2/auth?client_id=cid&redirect_uri=http://x/cb&response_type=code&scope=s1 s2&access_type=offline&prompt=consent&state=st"
    );
}

#[test]
fn default_scopes_are_four() {
    let c = config();
    assert_eq!(c.scopes.len(), 4);
    assert_eq!(c.scopes[0], "https://www.googleapis.com/auth/youtube.readonly");
    assert_eq!(c.scopes[3], "https://www.googleapis.com/auth/userinfo.profile");
}

#[test]
fn join_of_nothing_is_empty() {
    assert_eq!(join_with_spaces(&vec![]), "");
    assert_eq!(join_with_spaces(&vec!["one".to_string()]), "one");
}

#[test]
fn forms_carry_the_grant() {
    let c = config();
    let f = c.exchange_form("the-code");
    assert_eq!(f.len(), 5);
    assert_eq!(f[2], ("code".to_string(), "the-code".to_string()));
    assert_eq!(f[3], ("grant_type".to_string(), "authorization_code".to_string()));
    assert_eq!(f[4], ("redirect_uri".to_string(), "http://localhost/cb".to_string()));
    let r = c.refresh_form("rt");
    assert_eq!(r.len(), 4);
    assert_eq!(r[2], ("refresh_token".to_string(), "rt".to_string()));
    assert_eq!(r[3], ("grant_type".to_string(), "refresh_token".to_string()));
}

#[test]
fn expiry_counts_seconds_and_holds_at_bounds() {
    assert_eq!(expiry_at(1_000, 60), 61_000);
    assert_eq!(expiry_at(1_000, -5), 1_000);
    assert_eq!(expiry_at(i64::MAX - 10, 1), i64::MAX);
}

#[test]
fn exchange_splits_scopes_and_defaults_refresh_token() {
    let t = token_from_exchange(response(None), 5_000);
    assert_eq!(t.access_token, "new-access");
    assert_eq!(t.refresh_token, "");
    assert_eq!(t.expires_at, 5_000 + 3_600_000);
    assert_eq!(t.scopes, vec!["a".to_string(), "b".to_string(), "c".to_string()]);
}

#[test]
fn refresh_keeps_prior_token_only_when_none_sent() {
    let kept = token_from_refresh(response(None), "old-rt", 0);
    assert_eq!(kept.refresh_token, "old-rt");
    let replaced = token_from_refresh(response(Some("new-rt")), "old-rt", 0);
    assert_eq!(replaced.refresh_token, "new-rt");
}

#[test]
fn empty_scope_is_one_empty_piece() {
    let mut r = response(None);
    r.scope = String::new();
    assert_eq!(token_from_exchange(r, 0).scopes, vec![String::new()]);
}

#[test]
fn exchange_failures_are_classified() {
    let refused = TokenReply::Refused { status: 400, error_code: Some("invalid_grant".to_string()) };
    assert_eq!(exchange_outcome(refused, 0).unwrap_err(), ServiceError::AuthExchangeError);
    assert_eq!(
        exchange_outcome(TokenReply::Unreachable, 0).unwrap_err(),
        ServiceError::TransientExternalError
    );
    assert!(exchange_outcome(TokenReply::Granted(response(None)), 0).is_ok());
}

#[test]
fn refresh_failures_are_classified() {
    let rejected = TokenReply::Refused { status: 400, error_code: Some("invalid_grant".to_string()) };
    assert_eq!(refresh_outcome(rejected, "rt", 0).unwrap_err(), ServiceError::ReauthRequired);
    let busy = TokenReply::Refused { status: 503, error_code: None };
    assert_eq!(refresh_outcome(busy, "rt", 0).unwrap_err(), ServiceError::TransientExternalError);
    assert_eq!(
        refresh_outcome(TokenReply::Unreachable, "rt", 0).unwrap_err(),
        ServiceError::TransientExternalError
    );
}
