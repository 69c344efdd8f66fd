//! Accounts and login sessions, and the service that ties them to the
//! OAuth registration and the refresh gate.
use vstd::prelude::*;
use crate::clock::{clamp_add, now_millis, SESSION_LIFETIME_MS};
use crate::credentials::{request_spec, Delivery, RefreshGate, TokenStep};
use crate::error::ServiceError;
use crate::ids::fresh_id;
use crate::models::{AuthToken, ReplyTone, Session, User, UserPreferences};
use crate::oauth::{authorization_url_of, OAuthConfig};
use crate::store::{Database, DatabaseView, StoredToken, StoredTokenView};
use crate::table::{lookup, upserted};

verus! {

/// A session is valid while it is active and `now` is before its expiry.
pub open spec fn session_valid(s: Session, now: i64) -> bool {
    s.is_active && now < s.expires_at
}

impl Session {
    /// Whether the session is valid at `now`.
    pub fn is_valid_at(&self, now: i64) -> (r: bool)
        ensures
            r == session_valid(*self, now),
    {
        self.is_active && now < self.expires_at
    }
}

/// Validity is an exact boundary: an active session is invalid at the very
/// instant it expires, and valid one second before.
pub proof fn lemma_session_boundary(s: Session, now: i64)
    requires
        s.is_active,
        now <= i64::MAX - 1000,
    ensures
        !session_valid(Session { expires_at: now, ..s }, now),
        session_valid(Session { expires_at: (now + 1000) as i64, ..s }, now),
{
}

/// A new active session created at `now`, which lives seven days.
pub fn new_session(id: String, user_id: &str, ip_address: &str, user_agent: &str, now: i64) -> (r:
    Session)
    ensures
        r.id == id,
        r.user_id@ == user_id@,
        r.created_at == now,
        r.expires_at == clamp_add(now as int, SESSION_LIFETIME_MS as int),
        r.ip_address@ == ip_address@,
        r.user_agent@ == user_agent@,
        r.is_active,
{
    Session {
        id,
        user_id: user_id.to_owned(),
        created_at: now,
        expires_at: crate::clock::add_millis(now, SESSION_LIFETIME_MS),
        ip_address: ip_address.to_owned(),
        user_agent: user_agent.to_owned(),
        is_active: true,
    }
}

/// The session with this id and its account, where the session is valid at
/// `now` and the account is known.
pub open spec fn validated(d: DatabaseView, session_id: Seq<char>, now: i64) -> Option<(Session, User)> {
    match lookup::<Session>(d.sessions, session_id) {
        Some(s) => if session_valid(s, now) {
            match lookup::<User>(d.users, s.user_id@) {
                Some(u) => Some((s, u)),
                None => None,
            }
        } else {
            None
        },
        None => None,
    }
}

/// Looks a session up and checks it at `now`.
pub fn validate_session_at(db: &Database, session_id: &str, now: i64) -> (r: Option<(Session, User)>)
    requires
        db.wf(),
    ensures
        r == validated(db@, session_id@, now),
{
    let s = match db.get_session(session_id) {
        Some(s) => s,
        None => {
            return None;
        },
    };
    if !s.is_valid_at(now) {
        return None;
    }
    match db.get_user(s.user_id.as_str()) {
        Some(u) => Some((s, u)),
        None => None,
    }
}

/// The account behind a request that carries `session_id`: unauthorized
/// without a session id, or where [`validate_session_at`] finds no valid
/// session with a known account.
pub fn authenticate_at(db: &Database, session_id: Option<&str>, now: i64) -> (r: Result<User, ServiceError>)
    requires
        db.wf(),
    ensures
        r == match session_id {
            None => Err(ServiceError::Unauthorized),
            Some(id) => match validated(db@, id@, now) {
                Some((s, u)) => Ok(u),
                None => Err(ServiceError::Unauthorized),
            },
        },
{
    let id = match session_id {
        Some(id) => id,
        None => {
            return Err(ServiceError::Unauthorized);
        },
    };
    match validate_session_at(db, id, now) {
        Some((_, u)) => Ok(u),
        None => Err(ServiceError::Unauthorized),
    }
}

/// What the identity provider reports of an account.
#[derive(Debug, Clone)]
pub struct UserInfo {
    pub id: String,
    pub email: Option<String>,
    pub name: String,
    pub picture: Option<String>,
}

/// The preferences of a newly known account.
pub open spec fn default_preferences(p: UserPreferences) -> bool {
    &&& p.enable_ai_replies
    &&& p.ai_model@ == "gpt-3.5-turbo"@
    &&& p.reply_tone == ReplyTone::Friendly
    &&& p.enable_notifications
    &&& p.polling_interval == 60
}

/// `u` is the account that `info` describes at `now`, given what was
/// stored before: a known account keeps its creation time and preferences,
/// a new one gets the defaults.
pub open spec fn user_from_info_spec(u: User, existing: Option<User>, info: UserInfo, now: i64) -> bool {
    &&& u.id == info.id
    &&& u.name == info.name
    &&& u.email == info.email
    &&& u.profile_picture_url == info.picture
    &&& u.updated_at == now
    &&& match existing {
        Some(e) => u.created_at == e.created_at && u.preferences == e.preferences,
        None => u.created_at == now && default_preferences(u.preferences),
    }
}

/// The account that `info` describes at `now`, merged with the stored one.
pub fn user_from_info(existing: Option<User>, info: UserInfo, now: i64) -> (r: User)
    ensures
        user_from_info_spec(r, existing, info, now),
{
    match existing {
        Some(u) => User {
            id: info.id,
            name: info.name,
            email: info.email,
            profile_picture_url: info.picture,
            created_at: u.created_at,
            updated_at: now,
            preferences: u.preferences,
        },
        None => User {
            id: info.id,
            name: info.name,
            email: info.email,
            profile_picture_url: info.picture,
            created_at: now,
            updated_at: now,
            preferences: UserPreferences {
                enable_ai_replies: true,
                ai_model: String::from_str("gpt-3.5-turbo"),
                reply_tone: ReplyTone::Friendly,
                enable_notifications: true,
                polling_interval: 60,
            },
        },
    }
}

/// The registration at the identity provider and the refreshes under way.
pub struct AuthService {
    config: OAuthConfig,
    gate: RefreshGate,
}

impl AuthService {
    pub open spec fn wf(&self) -> bool {
        self.gate().wf()
    }

    pub closed spec fn config(&self) -> OAuthConfig {
        self.config
    }

    pub closed spec fn gate(&self) -> RefreshGate {
        self.gate
    }

    /// A service for this registration, with no refresh under way.
    pub fn new(config: OAuthConfig) -> (r: Self)
        ensures
            r.wf(),
            r.config() == config,
            r.gate()@.len() == 0,
    {
        AuthService { config, gate: RefreshGate::new() }
    }

    /// The registration.
    pub fn oauth_config(&self) -> (r: &OAuthConfig)
        ensures
            *r == self.config(),
    {
        &self.config
    }

    /// The authorization address, carrying a fresh random state.
    pub fn get_authorization_url(&self) -> (r: String)
        ensures
            exists|state: Seq<char>|
                state.len() == 36 && r@ == authorization_url_of(self.config(), state),
    {
        let state = fresh_id();
        self.config.authorization_url(state.as_str())
    }

    /// Creates and stores a new active session for an account, with a fresh
    /// random id, living seven days from now. An id that some stored session
    /// already has is never reused: then nothing is stored and the store's
    /// failure is reported.
    pub fn create_session(&self, db: &mut Database, user_id: &str, ip_address: &str, user_agent: &str) -> (r: Result<Session, ServiceError>)
        requires
            old(db).wf(),
        ensures
            final(db).wf(),
            match r {
                Ok(s) => {
                    &&& s.id@.len() == 36
                    &&& s.user_id@ == user_id@
                    &&& s.expires_at == clamp_add(s.created_at as int, SESSION_LIFETIME_MS as int)
                    &&& s.ip_address@ == ip_address@
                    &&& s.user_agent@ == user_agent@
                    &&& s.is_active
                    &&& lookup::<Session>(old(db)@.sessions, s.id@) is None
                    &&& final(db)@ == (DatabaseView { sessions: old(db)@.sessions.push(s), ..old(db)@ })
                },
                Err(e) => e == ServiceError::InternalPersistenceError && final(db)@ == old(db)@,
            },
            (forall|i: int| 0 <= i < old(db)@.sessions.len() ==> old(db)@.sessions[i].id@.len() != 36)
                ==> r is Ok,
    {
        let id = fresh_id();
        let now = now_millis();
        let s = new_session(id, user_id, ip_address, user_agent, now);
        proof {
            if forall|i: int| 0 <= i < db@.sessions.len() ==> db@.sessions[i].id@.len() != 36 {
                if lookup::<Session>(db@.sessions, s.id@) is Some {
                    let i = crate::table::row_index::<Session>(db@.sessions, s.id@);
                    assert(db@.sessions[i].id@ == s.id@);
                }
            }
        }
        if db.create_session(&s) {
            Ok(s)
        } else {
            Err(ServiceError::InternalPersistenceError)
        }
    }

    /// The session with this id and its account, where the session is valid
    /// now.
    pub fn validate_session(&self, db: &Database, session_id: &str) -> (r: Option<(Session, User)>)
        requires
            db.wf(),
        ensures
            exists|now: i64| r == validated(db@, session_id@, now),
    {
        validate_session_at(db, session_id, now_millis())
    }

    /// Ends a session; ending an ended or unknown one is no error.
    pub fn end_session(&self, db: &mut Database, session_id: &str)
        requires
            old(db).wf(),
        ensures
            final(db).wf(),
            final(db)@ == (DatabaseView {
                sessions: match lookup::<Session>(old(db)@.sessions, session_id@) {
                    Some(s) => old(db)@.sessions.update(
                        crate::table::row_index::<Session>(old(db)@.sessions, session_id@),
                        crate::store::ended(s),
                    ),
                    None => old(db)@.sessions,
                },
                ..old(db)@
            }),
    {
        db.end_session(session_id)
    }

    /// Stores the account that `info` describes, merged with the stored one,
    /// and its credential, which supersedes any stored before.
    pub fn create_or_update_user(&self, db: &mut Database, info: UserInfo, token: &AuthToken) -> (r: User)
        requires
            old(db).wf(),
        ensures
            final(db).wf(),
            exists|now: i64| user_from_info_spec(r, lookup::<User>(old(db)@.users, info.id@), info, now),
            final(db)@ == (DatabaseView {
                users: upserted::<User>(old(db)@.users, r),
                tokens: upserted::<StoredToken>(
                    old(db)@.tokens,
                    StoredTokenView { user_id: r.id@, token: token@ },
                ),
                ..old(db)@
            }),
    {
        let existing = db.get_user(info.id.as_str());
        let now = now_millis();
        let user = user_from_info(existing, info, now);
        db.save_user(&user);
        db.save_auth_token(user.id.as_str(), token);
        user
    }

    /// `caller` asks for an access token of `account_id`, as
    /// [`RefreshGate::request`] decides on the credential stored now.
    pub fn request_token(&mut self, db: &Database, account_id: &str, caller: u64, now: i64) -> (r: TokenStep)
        requires
            old(self).wf(),
            db.wf(),
        ensures
            final(self).wf(),
            final(self).config() == old(self).config(),
            (final(self).gate()@, r) == request_spec(
                old(self).gate()@,
                account_id@,
                caller,
                match lookup::<StoredToken>(db@.tokens, account_id@) {
                    Some(t) => Some(t.token),
                    None => None,
                },
                now,
            ),
    {
        let stored = db.get_auth_token(account_id);
        self.gate.request(account_id, caller, stored, now)
    }

    /// Reports the outcome of `account_id`'s refresh to every caller waiting
    /// on it.
    pub fn complete_refresh(&mut self, account_id: &str, outcome: Result<String, ServiceError>) -> (r: Vec<Delivery>)
        requires
            old(self).wf(),
        ensures
            final(self).wf(),
            final(self).config() == old(self).config(),
            (final(self).gate()@, r@) == crate::credentials::complete_spec(old(self).gate()@, account_id@, outcome),
    {
        self.gate.complete(account_id, outcome)
    }
}

} // verus!
