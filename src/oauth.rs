//! The OAuth side of the credential lifecycle: the authorization address,
//! the token endpoint's forms, and turning its answers into credentials.
use vstd::prelude::*;
use crate::clock::clamp_add;
use crate::error::ServiceError;
use crate::models::{AuthToken, AuthTokenView};
use crate::text::same_text;

verus! {

/// The views of a sequence of texts.
pub open spec fn texts(v: Seq<String>) -> Seq<Seq<char>> {
    v.map_values(|x: String| x@)
}

/// `parts` joined with single spaces.
pub open spec fn joined_by_spaces(parts: Seq<Seq<char>>) -> Seq<char>
    decreases parts.len(),
{
    if parts.len() == 0 {
        Seq::empty()
    } else if parts.len() == 1 {
        parts[0]
    } else {
        joined_by_spaces(parts.drop_last()) + seq![' '] + parts.last()
    }
}

/// `parts` are the pieces of `s` between single spaces: at least one piece,
/// none holding a space, and joined with spaces they give `s` back.
pub open spec fn split_at_spaces(parts: Seq<Seq<char>>, s: Seq<char>) -> bool {
    &&& parts.len() >= 1
    &&& joined_by_spaces(parts) == s
    &&& forall|i: int| 0 <= i < parts.len() ==> !(#[trigger] parts[i]).contains(' ')
}

/// The pieces of `s` between spaces. Relies on `str::split` with `' '` as
/// the separator, which yields every piece, empty ones included, in order.
#[verifier::external_body]
fn split_on_spaces(s: &str) -> (r: Vec<String>)
    ensures
        split_at_spaces(texts(r@), s@),
{
    s.split(' ').map(String::from).collect()
}

/// `scopes` joined with single spaces.
pub fn join_with_spaces(scopes: &Vec<String>) -> (r: String)
    ensures
        r@ == joined_by_spaces(texts(scopes@)),
{
    let mut r = String::new();
    let mut i: usize = 0;
    while i < scopes.len()
        invariant
            i <= scopes@.len(),
            r@ == joined_by_spaces(texts(scopes@).subrange(0, i as int)),
        decreases scopes@.len() - i,
    {
        let ghost parts = texts(scopes@).subrange(0, i + 1);
        assert(parts.drop_last() =~= texts(scopes@).subrange(0, i as int));
        if i > 0 {
            r.append(" ");
            proof {
                reveal_strlit(" ");
            }
            assert(" "@ =~= seq![' ']);
        } else {
            assert(r@ =~= Seq::<char>::empty());
        }
        r.append(scopes[i].as_str());
        if i == 0 {
            assert(r@ =~= parts[0]);
        }
        i += 1;
    }
    assert(texts(scopes@).subrange(0, scopes@.len() as int) =~= texts(scopes@));
    r
}

/// The client registration at the identity provider.
#[derive(Debug, Clone)]
pub struct OAuthConfig {
    pub client_id: String,
    pub client_secret: String,
    pub redirect_uri: String,
    pub scopes: Vec<String>,
}

/// The scopes asked for by default: reading and managing the channel's
/// comments, and the account's e-mail address and profile.
pub open spec fn default_scopes_spec() -> Seq<Seq<char>> {
    seq![
        "https://www.googleapis.com/auth/youtube.readonly"@,
        "https://www.googleapis.com/auth/youtube.force-ssl"@,
        "https://www.googleapis.com/auth/userinfo.email"@,
        "https://www.googleapis.com/auth/userinfo.profile"@,
    ]
}

/// The address to which the owner is sent to grant access.
pub open spec fn authorization_url_of(c: OAuthConfig, state: Seq<char>) -> Seq<char> {
    "https://accounts.google.com/o/oauth2/auth?client_id="@ + c.client_id@ + "&redirect_uri="@
        + c.redirect_uri@ + "&response_type=code&scope="@ + joined_by_spaces(texts(c.scopes@))
        + "&access_type=offline&prompt=consent&state="@ + state
}

/// One field of a form.
pub open spec fn field(k: Seq<char>, v: Seq<char>) -> (Seq<char>, Seq<char>) {
    (k, v)
}

/// The views of a list of form fields.
pub open spec fn form_view(v: Seq<(String, String)>) -> Seq<(Seq<char>, Seq<char>)> {
    v.map_values(|p: (String, String)| (p.0@, p.1@))
}

/// A form field from two texts.
fn pair(k: &str, v: &str) -> (r: (String, String))
    ensures
        r.0@ == k@,
        r.1@ == v@,
{
    (k.to_owned(), v.to_owned())
}

impl OAuthConfig {
    /// A registration that asks for the default scopes.
    pub fn new(client_id: String, client_secret: String, redirect_uri: String) -> (r: Self)
        ensures
            r.client_id == client_id,
            r.client_secret == client_secret,
            r.redirect_uri == redirect_uri,
            texts(r.scopes@) == default_scopes_spec(),
    {
        let mut scopes: Vec<String> = Vec::new();
        scopes.push(String::from_str("https://www.googleapis.com/auth/youtube.readonly"));
        scopes.push(String::from_str("https://www.googleapis.com/auth/youtube.force-ssl"));
        scopes.push(String::from_str("https://www.googleapis.com/auth/userinfo.email"));
        scopes.push(String::from_str("https://www.googleapis.com/auth/userinfo.profile"));
        assert(texts(scopes@) =~= default_scopes_spec());
        OAuthConfig { client_id, client_secret, redirect_uri, scopes }
    }

    /// The authorization address for this registration, carrying `state`.
    pub fn authorization_url(&self, state: &str) -> (r: String)
        ensures
            r@ == authorization_url_of(*self, state@),
    {
        let scopes = join_with_spaces(&self.scopes);
        let mut r = String::from_str("https://accounts.google.com/o/oauth2/auth?client_id=");
        r.append(self.client_id.as_str());
        r.append("&redirect_uri=");
        r.append(self.redirect_uri.as_str());
        r.append("&response_type=code&scope=");
        r.append(scopes.as_str());
        r.append("&access_type=offline&prompt=consent&state=");
        r.append(state);
        r
    }

    /// The form that trades an authorization code for a credential.
    pub fn exchange_form(&self, code: &str) -> (r: Vec<(String, String)>)
        ensures
            form_view(r@) == seq![
                field("client_id"@, self.client_id@),
                field("client_secret"@, self.client_secret@),
                field("code"@, code@),
                field("grant_type"@, "authorization_code"@),
                field("redirect_uri"@, self.redirect_uri@),
            ],
    {
        let mut r: Vec<(String, String)> = Vec::new();
        r.push(pair("client_id", self.client_id.as_str()));
        r.push(pair("client_secret", self.client_secret.as_str()));
        r.push(pair("code", code));
        r.push(pair("grant_type", "authorization_code"));
        r.push(pair("redirect_uri", self.redirect_uri.as_str()));
        assert(form_view(r@) =~= seq![
            field("client_id"@, self.client_id@),
            field("client_secret"@, self.client_secret@),
            field("code"@, code@),
            field("grant_type"@, "authorization_code"@),
            field("redirect_uri"@, self.redirect_uri@),
        ]);
        r
    }

    /// The form that trades a refresh token for a new access token; it
    /// carries no redirect address.
    pub fn refresh_form(&self, refresh_token: &str) -> (r: Vec<(String, String)>)
        ensures
            form_view(r@) == seq![
                field("client_id"@, self.client_id@),
                field("client_secret"@, self.client_secret@),
                field("refresh_token"@, refresh_token@),
                field("grant_type"@, "refresh_token"@),
            ],
    {
        let mut r: Vec<(String, String)> = Vec::new();
        r.push(pair("client_id", self.client_id.as_str()));
        r.push(pair("client_secret", self.client_secret.as_str()));
        r.push(pair("refresh_token", refresh_token));
        r.push(pair("grant_type", "refresh_token"));
        assert(form_view(r@) =~= seq![
            field("client_id"@, self.client_id@),
            field("client_secret"@, self.client_secret@),
            field("refresh_token"@, refresh_token@),
            field("grant_type"@, "refresh_token"@),
        ]);
        r
    }
}

/// The token endpoint's answer on success.
#[derive(Debug, Clone)]
pub struct TokenResponse {
    pub access_token: String,
    /// Absent where the provider keeps the refresh token it gave before.
    pub refresh_token: Option<String>,
    /// Seconds until the access token expires.
    pub expires_in: i64,
    pub token_type: String,
    /// The granted scopes, separated by spaces.
    pub scope: String,
}

/// How a call to the token endpoint ended.
#[derive(Debug, Clone)]
pub enum TokenReply {
    /// A success status and its answer.
    Granted(TokenResponse),
    /// A non-success status, with the OAuth `error` code where the body had one.
    Refused { status: u16, error_code: Option<String> },
    /// No answer: the network failed or the call timed out.
    Unreachable,
}

/// The instant `expires_in` seconds after `now`; a negative lifetime counts
/// as none, and the result is held at the bounds of `i64`.
pub open spec fn expiry_after(now: i64, expires_in: i64) -> int {
    clamp_add(
        now as int,
        if expires_in < 0 {
            0
        } else {
            expires_in * 1000
        },
    )
}

/// The instant `expires_in` seconds after `now`.
pub fn expiry_at(now: i64, expires_in: i64) -> (r: i64)
    ensures
        r == expiry_after(now, expires_in),
        r >= now,
{
    let lifetime: i128 = if expires_in < 0 {
        0
    } else {
        expires_in as i128 * 1000
    };
    let sum: i128 = now as i128 + lifetime;
    if sum > i64::MAX as i128 {
        i64::MAX
    } else {
        sum as i64
    }
}

/// The refresh token kept after an answer: the new one where the provider
/// sent one, else `fallback`.
pub open spec fn kept_refresh_token(sent: Option<String>, fallback: Seq<char>) -> Seq<char> {
    match sent {
        Some(t) => t@,
        None => fallback,
    }
}

/// `t` is the credential that `resp` describes at `now`, with
/// `refresh` as its refresh token.
pub open spec fn token_of(t: AuthTokenView, resp: TokenResponse, refresh: Seq<char>, now: i64) -> bool {
    &&& t.access_token == resp.access_token
    &&& t.refresh_token@ == refresh
    &&& t.expires_at == expiry_after(now, resp.expires_in)
    &&& t.token_type == resp.token_type
    &&& split_at_spaces(texts(t.scopes), resp.scope@)
}

/// The credential that an authorization-code grant describes; with no
/// refresh token in the answer the credential's is empty.
pub fn token_from_exchange(resp: TokenResponse, now: i64) -> (r: AuthToken)
    ensures
        token_of(r@, resp, kept_refresh_token(resp.refresh_token, Seq::empty()), now),
        r.expires_at >= now,
{
    let scopes = split_on_spaces(resp.scope.as_str());
    let expires_at = expiry_at(now, resp.expires_in);
    let refresh_token = match resp.refresh_token {
        Some(t) => t,
        None => String::new(),
    };
    AuthToken {
        access_token: resp.access_token,
        refresh_token,
        expires_at,
        token_type: resp.token_type,
        scopes,
    }
}

/// The credential that a refresh grant describes; where the answer carries
/// no refresh token, `prior_refresh_token` is kept.
pub fn token_from_refresh(resp: TokenResponse, prior_refresh_token: &str, now: i64) -> (r: AuthToken)
    ensures
        token_of(r@, resp, kept_refresh_token(resp.refresh_token, prior_refresh_token@), now),
        r.expires_at >= now,
{
    let scopes = split_on_spaces(resp.scope.as_str());
    let expires_at = expiry_at(now, resp.expires_in);
    let refresh_token = match resp.refresh_token {
        Some(t) => t,
        None => prior_refresh_token.to_owned(),
    };
    AuthToken {
        access_token: resp.access_token,
        refresh_token,
        expires_at,
        token_type: resp.token_type,
        scopes,
    }
}

/// The OAuth error code by which a provider rejects a refresh token.
pub open spec fn rejects_grant(error_code: Option<String>) -> bool {
    match error_code {
        Some(c) => c@ == "invalid_grant"@,
        None => false,
    }
}

/// What trading an authorization code came to.
pub fn exchange_outcome(reply: TokenReply, now: i64) -> (r: Result<AuthToken, ServiceError>)
    ensures
        match reply {
            TokenReply::Granted(resp) => r matches Ok(t) && token_of(
                t@,
                resp,
                kept_refresh_token(resp.refresh_token, Seq::empty()),
                now,
            ),
            TokenReply::Refused { .. } => r == Err::<AuthToken, ServiceError>(
                ServiceError::AuthExchangeError,
            ),
            TokenReply::Unreachable => r == Err::<AuthToken, ServiceError>(
                ServiceError::TransientExternalError,
            ),
        },
{
    match reply {
        TokenReply::Granted(resp) => Ok(token_from_exchange(resp, now)),
        TokenReply::Refused { .. } => Err(ServiceError::AuthExchangeError),
        TokenReply::Unreachable => Err(ServiceError::TransientExternalError),
    }
}

/// What a refresh came to: a rejected refresh token asks for the account to
/// be connected again; any other failure may be retried.
pub fn refresh_outcome(reply: TokenReply, prior_refresh_token: &str, now: i64) -> (r: Result<
    AuthToken,
    ServiceError,
>)
    ensures
        match reply {
            TokenReply::Granted(resp) => r matches Ok(t) && token_of(
                t@,
                resp,
                kept_refresh_token(resp.refresh_token, prior_refresh_token@),
                now,
            ) && t.expires_at >= now,
            TokenReply::Refused { status, error_code } => r == Err::<AuthToken, ServiceError>(
                if rejects_grant(error_code) {
                    ServiceError::ReauthRequired
                } else {
                    ServiceError::TransientExternalError
                },
            ),
            TokenReply::Unreachable => r == Err::<AuthToken, ServiceError>(
                ServiceError::TransientExternalError,
            ),
        },
{
    match reply {
        TokenReply::Granted(resp) => Ok(token_from_refresh(resp, prior_refresh_token, now)),
        TokenReply::Refused { status, error_code } => {
            let rejected = match &error_code {
                Some(c) => same_text(c.as_str(), "invalid_grant"),
                None => false,
            };
            if rejected {
                Err(ServiceError::ReauthRequired)
            } else {
                Err(ServiceError::TransientExternalError)
            }
        },
        TokenReply::Unreachable => Err(ServiceError::TransientExternalError),
    }
}

} // verus!
