//! Handing out valid access tokens: the refresh window, one refresh at a
//! time per account, and recording what a refresh came to.
use vstd::prelude::*;
use crate::clock::REFRESH_WINDOW_MS;
use crate::error::ServiceError;
use crate::models::{AuthToken, AuthTokenView};
use crate::oauth::{kept_refresh_token, refresh_outcome, rejects_grant, token_of, TokenReply};
use crate::store::{Database, DatabaseView, StoredToken, StoredTokenView};
use crate::table::{find_row, holds_key, keys_unique, lookup, remove_row, upsert_row, upserted, views, Row};

verus! {

/// A credential is refreshed once it expires within the refresh window.
pub open spec fn refresh_due(expires_at: i64, now: i64) -> bool {
    expires_at <= now + REFRESH_WINDOW_MS
}

/// Whether `token` must be refreshed before use at `now`.
pub fn needs_refresh(token: &AuthToken, now: i64) -> (r: bool)
    ensures
        r == refresh_due(token.expires_at, now),
{
    (token.expires_at as i128) <= (now as i128) + (REFRESH_WINDOW_MS as i128)
}

/// What a caller asking for an access token is to do next.
#[derive(Debug, Clone, PartialEq, Eq)]
pub enum TokenStep {
    /// Use this access token.
    Ready(String),
    /// Refresh with this refresh token, then report the outcome with
    /// [`RefreshGate::complete`].
    Refresh(String),
    /// A refresh for the account is under way: wait for its outcome.
    Wait,
    /// No token can be had.
    Fail(ServiceError),
}

/// An account whose refresh is under way, and the callers waiting on it.
pub struct Pending {
    pub account_id: String,
    pub waiters: Vec<u64>,
}

pub struct PendingView {
    pub account_id: Seq<char>,
    pub waiters: Seq<u64>,
}

impl View for Pending {
    type V = PendingView;

    open spec fn view(&self) -> PendingView {
        PendingView { account_id: self.account_id@, waiters: self.waiters@ }
    }
}

impl Row for Pending {
    open spec fn key_of(v: PendingView) -> Seq<char> {
        v.account_id
    }

    fn key(&self) -> (r: &str) {
        self.account_id.as_str()
    }
}

/// The callers waiting on a refresh of `account`; none where no refresh is
/// under way.
pub open spec fn waiters_of(g: Seq<PendingView>, account: Seq<char>) -> Seq<u64> {
    match lookup::<Pending>(g, account) {
        Some(p) => p.waiters,
        None => Seq::empty(),
    }
}

/// A refresh of `account` is under way.
pub open spec fn in_flight(g: Seq<PendingView>, account: Seq<char>) -> bool {
    holds_key::<Pending>(g, account)
}

/// The refreshes under way after `caller` asks for a token of `account`
/// whose stored credential is `stored`, and what the caller is told.
pub open spec fn request_spec(
    g: Seq<PendingView>,
    account: Seq<char>,
    caller: u64,
    stored: Option<AuthTokenView>,
    now: i64,
) -> (Seq<PendingView>, TokenStep) {
    match stored {
        None => (g, TokenStep::Fail(ServiceError::NotFound)),
        Some(t) => if !refresh_due(t.expires_at, now) {
            (g, TokenStep::Ready(t.access_token))
        } else {
            (
                upserted::<Pending>(
                    g,
                    PendingView { account_id: account, waiters: waiters_of(g, account).push(caller) },
                ),
                if in_flight(g, account) {
                    TokenStep::Wait
                } else {
                    TokenStep::Refresh(t.refresh_token)
                },
            )
        },
    }
}

/// The refreshes under way after the outcome of `account`'s refresh is
/// known, and the deliveries of that outcome: one per waiting caller, in
/// the order in which they asked.
pub open spec fn complete_spec(
    g: Seq<PendingView>,
    account: Seq<char>,
    outcome: Result<String, ServiceError>,
) -> (Seq<PendingView>, Seq<Delivery>) {
    (
        if in_flight(g, account) {
            g.remove(crate::table::row_index::<Pending>(g, account))
        } else {
            g
        },
        waiters_of(g, account).map_values(|c: u64| Delivery { caller: c, result: outcome }),
    )
}

/// The state after `callers` ask in turn for a token of `account`, whose
/// stored credential is `t`, and what each is told.
pub open spec fn requests_spec(
    g: Seq<PendingView>,
    account: Seq<char>,
    callers: Seq<u64>,
    t: AuthTokenView,
    now: i64,
) -> (Seq<PendingView>, Seq<TokenStep>)
    decreases callers.len(),
{
    if callers.len() == 0 {
        (g, Seq::empty())
    } else {
        let (g1, steps) = requests_spec(g, account, callers.drop_last(), t, now);
        let (g2, step) = request_spec(g1, account, callers.last(), Some(t), now);
        (g2, steps.push(step))
    }
}

/// Single flight: while an account's credential is within the refresh
/// window, of any number of callers asking for it with no refresh under
/// way, the first alone is told to refresh and all others to wait; when the
/// outcome is reported, every one of them receives that same outcome, and
/// no refresh is under way any more.
pub proof fn lemma_single_refresh(
    g: Seq<PendingView>,
    account: Seq<char>,
    callers: Seq<u64>,
    t: AuthTokenView,
    now: i64,
    outcome: Result<String, ServiceError>,
)
    requires
        keys_unique::<Pending>(g),
        !in_flight(g, account),
        refresh_due(t.expires_at, now),
        callers.len() >= 1,
    ensures
        ({
            let (g2, steps) = requests_spec(g, account, callers, t, now);
            let (g3, deliveries) = complete_spec(g2, account, outcome);
            &&& steps.len() == callers.len()
            &&& steps[0] == TokenStep::Refresh(t.refresh_token)
            &&& forall|i: int| 1 <= i < steps.len() ==> steps[i] == TokenStep::Wait
            &&& deliveries.len() == callers.len()
            &&& forall|i: int|
                0 <= i < deliveries.len() ==> deliveries[i] == (Delivery {
                    caller: callers[i],
                    result: outcome,
                })
            &&& !in_flight(g3, account)
        }),
{
    lemma_requests(g, account, callers, t, now);
    let (g2, steps) = requests_spec(g, account, callers, t, now);
    crate::table::lemma_row_index_unique::<Pending>(
        g2,
        crate::table::row_index::<Pending>(g2, account),
    );
    let g3 = g2.remove(crate::table::row_index::<Pending>(g2, account));
    assert(!in_flight(g3, account)) by {
        let p = crate::table::row_index::<Pending>(g2, account);
        if in_flight(g3, account) {
            let i = choose|i: int| 0 <= i < g3.len() && Pending::key_of(g3[i]) == account;
            if i < p {
                assert(Pending::key_of(g2[i]) != Pending::key_of(g2[p]));
            } else {
                assert(Pending::key_of(g2[p]) != Pending::key_of(g2[i + 1]));
            }
        }
    }
}

/// A credential within the refresh window, with no refresh of its account
/// under way: the caller is told to refresh with the stored refresh token,
/// and a granted refresh that sends no new refresh token yields a
/// credential with the provider's access token, the stored refresh token,
/// and an expiry `expires_in` seconds after now (where that instant fits).
pub proof fn lemma_due_credential_refresh(
    g: Seq<PendingView>,
    account: Seq<char>,
    caller: u64,
    t: AuthTokenView,
    now: i64,
    resp: crate::oauth::TokenResponse,
    fresh: AuthTokenView,
)
    requires
        keys_unique::<Pending>(g),
        !in_flight(g, account),
        refresh_due(t.expires_at, now),
        resp.refresh_token is None,
        0 <= resp.expires_in,
        now + resp.expires_in * 1000 <= i64::MAX,
        token_of(fresh, resp, kept_refresh_token(resp.refresh_token, t.refresh_token@), now),
    ensures
        request_spec(g, account, caller, Some(t), now).1 == TokenStep::Refresh(t.refresh_token),
        fresh.access_token == resp.access_token,
        fresh.refresh_token@ == t.refresh_token@,
        fresh.expires_at == now + resp.expires_in * 1000,
        fresh.expires_at >= now,
{
}

/// What a run of requests leaves: the waiting callers are exactly those
/// that asked, and only the first was told to refresh.
proof fn lemma_requests(
    g: Seq<PendingView>,
    account: Seq<char>,
    callers: Seq<u64>,
    t: AuthTokenView,
    now: i64,
)
    requires
        keys_unique::<Pending>(g),
        !in_flight(g, account),
        refresh_due(t.expires_at, now),
    ensures
        ({
            let (g2, steps) = requests_spec(g, account, callers, t, now);
            &&& keys_unique::<Pending>(g2)
            &&& waiters_of(g2, account) == callers
            &&& callers.len() > 0 ==> in_flight(g2, account)
            &&& steps.len() == callers.len()
            &&& callers.len() > 0 ==> steps[0] == TokenStep::Refresh(t.refresh_token)
            &&& forall|i: int| 1 <= i < steps.len() ==> steps[i] == TokenStep::Wait
        }),
    decreases callers.len(),
{
    if callers.len() == 0 {
        assert(waiters_of(g, account) =~= callers);
    } else {
        lemma_requests(g, account, callers.drop_last(), t, now);
        let (g1, steps) = requests_spec(g, account, callers.drop_last(), t, now);
        let v = PendingView {
            account_id: account,
            waiters: waiters_of(g1, account).push(callers.last()),
        };
        crate::table::lemma_upserted_unique::<Pending>(g1, v);
        crate::table::lemma_lookup_upserted::<Pending>(g1, v, account);
        assert(waiters_of(upserted::<Pending>(g1, v), account) =~= callers);
    }
}

/// The outcome of one refresh, for one waiting caller.
#[derive(Debug, PartialEq, Eq)]
pub struct Delivery {
    pub caller: u64,
    pub result: Result<String, ServiceError>,
}

fn copy_ids(v: &Vec<u64>) -> (r: Vec<u64>)
    ensures
        r@ == v@,
{
    let mut r: Vec<u64> = Vec::new();
    let mut i: usize = 0;
    while i < v.len()
        invariant
            i <= v@.len(),
            r@ == v@.subrange(0, i as int),
        decreases v@.len() - i,
    {
        r.push(v[i]);
        i += 1;
    }
    assert(r@ =~= v@);
    r
}

fn copy_result(r: &Result<String, ServiceError>) -> (c: Result<String, ServiceError>)
    ensures
        c == *r,
{
    match r {
        Ok(s) => Ok(s.clone()),
        Err(e) => Err(*e),
    }
}

/// The refreshes under way, at most one per account.
pub struct RefreshGate {
    pending: Vec<Pending>,
}

impl View for RefreshGate {
    type V = Seq<PendingView>;

    closed spec fn view(&self) -> Seq<PendingView> {
        views(self.pending@)
    }
}

impl RefreshGate {
    pub open spec fn wf(&self) -> bool {
        keys_unique::<Pending>(self@)
    }

    /// No refresh under way.
    pub fn new() -> (r: Self)
        ensures
            r.wf(),
            r@.len() == 0,
    {
        let r = RefreshGate { pending: Vec::new() };
        assert(r@ =~= Seq::<PendingView>::empty());
        r
    }

    /// `caller` asks for an access token of `account_id`, whose stored
    /// credential is `stored`. A credential outside the refresh window is
    /// handed out as it is. Within it, the first caller is told to refresh and
    /// every later one to wait, until [`RefreshGate::complete`].
    pub fn request(
        &mut self,
        account_id: &str,
        caller: u64,
        stored: Option<AuthToken>,
        now: i64,
    ) -> (r: TokenStep)
        requires
            old(self).wf(),
        ensures
            final(self).wf(),
            (final(self)@, r) == request_spec(
                old(self)@,
                account_id@,
                caller,
                match stored {
                    Some(t) => Some(t@),
                    None => None,
                },
                now,
            ),
            (r is Refresh || r is Wait) ==> in_flight(final(self)@, account_id@) && waiters_of(
                final(self)@,
                account_id@,
            ) == waiters_of(old(self)@, account_id@).push(caller),
            forall|k: Seq<char>|
                k != account_id@ ==> lookup::<Pending>(final(self)@, k) == lookup::<Pending>(
                    old(self)@,
                    k,
                ),
    {
        let ghost g = old(self)@;
        let ghost v = PendingView {
            account_id: account_id@,
            waiters: waiters_of(g, account_id@).push(caller),
        };
        proof {
            crate::table::lemma_upserted_unique::<Pending>(g, v);
            assert forall|k: Seq<char>| #[trigger] lookup::<Pending>(upserted::<Pending>(g, v), k) == (if k == account_id@ { Some(v) } else { lookup::<Pending>(g, k) }) by {
                crate::table::lemma_lookup_upserted::<Pending>(g, v, k);
            }
        }
        let t = match stored {
            None => {
                return TokenStep::Fail(ServiceError::NotFound);
            },
            Some(t) => t,
        };
        if !needs_refresh(&t, now) {
            return TokenStep::Ready(t.access_token);
        }
        let (mut waiters, fresh) = match find_row(&self.pending, account_id) {
            Some(i) => (copy_ids(&self.pending[i].waiters), false),
            None => (Vec::new(), true),
        };
        assert(waiters@ =~= waiters_of(old(self)@, account_id@));
        waiters.push(caller);
        let row = Pending { account_id: account_id.to_owned(), waiters };
        upsert_row(&mut self.pending, row);
        if fresh {
            TokenStep::Refresh(t.refresh_token)
        } else {
            TokenStep::Wait
        }
    }

    /// Reports the outcome of `account_id`'s refresh: every caller waiting
    /// on it receives that outcome, and the account has no refresh under way
    /// any more.
    pub fn complete(&mut self, account_id: &str, outcome: Result<String, ServiceError>) -> (r: Vec<
        Delivery,
    >)
        requires
            old(self).wf(),
        ensures
            final(self).wf(),
            (final(self)@, r@) == complete_spec(old(self)@, account_id@, outcome),
            !in_flight(final(self)@, account_id@),
            r@.len() == waiters_of(old(self)@, account_id@).len(),
            forall|i: int|
                0 <= i < r@.len() ==> r@[i].caller == waiters_of(old(self)@, account_id@)[i]
                    && r@[i].result == outcome,
            forall|k: Seq<char>|
                k != account_id@ ==> lookup::<Pending>(final(self)@, k) == lookup::<Pending>(
                    old(self)@,
                    k,
                ),
    {
        proof {
            if in_flight(old(self)@, account_id@) {
                assert forall|k: Seq<char>| k != account_id@ implies #[trigger] lookup::<Pending>(old(self)@.remove(crate::table::row_index::<Pending>(old(self)@, account_id@)), k) == lookup::<Pending>(old(self)@, k) by {
                    crate::table::lemma_lookup_removed::<Pending>(old(self)@, account_id@, k);
                }
                crate::table::lemma_lookup_removed::<Pending>(old(self)@, account_id@, account_id@);
            }
        }
        let waiters = match remove_row(&mut self.pending, account_id) {
            Some(p) => p.waiters,
            None => Vec::new(),
        };
        let ghost expected = waiters_of(old(self)@, account_id@).map_values(
            |c: u64| Delivery { caller: c, result: outcome },
        );
        assert(waiters@ =~= waiters_of(old(self)@, account_id@));
        let mut r: Vec<Delivery> = Vec::new();
        let mut i: usize = 0;
        while i < waiters.len()
            invariant
                i <= waiters@.len(),
                expected.len() == waiters@.len(),
                r@ == expected.subrange(0, i as int),
                expected == waiters@.map_values(|c: u64| Delivery { caller: c, result: outcome }),
            decreases waiters@.len() - i,
        {
            r.push(Delivery { caller: waiters[i], result: copy_result(&outcome) });
            assert(r@ =~= expected.subrange(0, i + 1));
            i += 1;
        }
        assert(r@ =~= expected);
        r
    }
}

/// The credential a refresh produced, stored for `account_id`, or the
/// failure; on failure the store is left as it was.
pub fn record_refresh(
    db: &mut Database,
    account_id: &str,
    prior_refresh_token: &str,
    reply: TokenReply,
    now: i64,
) -> (r: Result<String, ServiceError>)
    requires
        old(db).wf(),
    ensures
        final(db).wf(),
        match reply {
            TokenReply::Granted(resp) => exists|t: AuthTokenView|
                {
                    &&& token_of(
                        t,
                        resp,
                        kept_refresh_token(resp.refresh_token, prior_refresh_token@),
                        now,
                    )
                    &&& t.expires_at >= now
                    &&& r == Ok::<String, ServiceError>(t.access_token)
                    &&& final(db)@ == (DatabaseView {
                        tokens: upserted::<StoredToken>(
                            old(db)@.tokens,
                            StoredTokenView { user_id: account_id@, token: t },
                        ),
                        ..old(db)@
                    })
                },
            TokenReply::Refused { status, error_code } => r == Err::<String, ServiceError>(
                if rejects_grant(error_code) {
                    ServiceError::ReauthRequired
                } else {
                    ServiceError::TransientExternalError
                },
            ) && final(db)@ == old(db)@,
            TokenReply::Unreachable => r == Err::<String, ServiceError>(
                ServiceError::TransientExternalError,
            ) && final(db)@ == old(db)@,
        },
{
    match refresh_outcome(reply, prior_refresh_token, now) {
        Ok(t) => {
            db.save_auth_token(account_id, &t);
            assert(t@.access_token == t.access_token);
            Ok(t.access_token)
        },
        Err(e) => Err(e),
    }
}

} // verus!
