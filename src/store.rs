//! The in-memory store: comments by video, accounts, credentials, sessions
//! and the interaction ledger. Each table keeps at most one row per key.
//!
//! The tables are vectors held in memory, searched linearly by key; rows
//! keep the order in which they were first stored.
use vstd::prelude::*;
use crate::models::{
    AuthToken, AuthTokenView, Comment, CommentView, InteractionRecord, InteractionRecordView, Session,
    User,
};
use crate::ledger::{
    in_time_order, newest_of, records_where, select_records, sort_records, take_newest,
};
use crate::table::{
    last_with_key, find_row, keys_unique, lookup, upsert_row, upsert_rows, upserted, upserted_all, views, Row,
};

verus! {

impl Row for Comment {
    open spec fn key_of(v: CommentView) -> Seq<char> {
        v.comment_id@
    }

    fn key(&self) -> (r: &str) {
        self.comment_id.as_str()
    }
}

impl View for User {
    type V = User;

    open spec fn view(&self) -> User {
        *self
    }
}

impl Row for User {
    open spec fn key_of(v: User) -> Seq<char> {
        v.id@
    }

    fn key(&self) -> (r: &str) {
        self.id.as_str()
    }
}

impl View for Session {
    type V = Session;

    open spec fn view(&self) -> Session {
        *self
    }
}

impl Row for Session {
    open spec fn key_of(v: Session) -> Seq<char> {
        v.id@
    }

    fn key(&self) -> (r: &str) {
        self.id.as_str()
    }
}

/// The credential stored for one account.
pub struct StoredToken {
    pub user_id: String,
    pub token: AuthToken,
}

pub struct StoredTokenView {
    pub user_id: Seq<char>,
    pub token: AuthTokenView,
}

impl View for StoredToken {
    type V = StoredTokenView;

    open spec fn view(&self) -> StoredTokenView {
        StoredTokenView { user_id: self.user_id@, token: self.token@ }
    }
}

impl Row for StoredToken {
    open spec fn key_of(v: StoredTokenView) -> Seq<char> {
        v.user_id
    }

    fn key(&self) -> (r: &str) {
        self.user_id.as_str()
    }
}

/// The comments stored for video `v`, in storage order.
pub open spec fn comments_of_video(s: Seq<CommentView>, v: Seq<char>) -> Seq<CommentView>
    decreases s.len(),
{
    if s.len() == 0 {
        Seq::empty()
    } else if s.last().video_id@ == v {
        comments_of_video(s.drop_last(), v).push(s.last())
    } else {
        comments_of_video(s.drop_last(), v)
    }
}

/// The optional view of an optional comment.
pub open spec fn comment_view(c: Option<Comment>) -> Option<CommentView> {
    match c {
        Some(c) => Some(c@),
        None => None,
    }
}

/// The optional view of an optional credential.
pub open spec fn token_view(t: Option<AuthToken>) -> Option<AuthTokenView> {
    match t {
        Some(t) => Some(t@),
        None => None,
    }
}

/// `c` with its `replied_to` flag set to `b`.
pub open spec fn with_replied(c: CommentView, b: bool) -> CommentView {
    CommentView { replied_to: b, ..c }
}

/// The comments after setting the flag of comment `id` to `b`; unchanged
/// where no comment has that id.
pub open spec fn marked_replied(comments: Seq<CommentView>, id: Seq<char>, b: bool) -> Seq<CommentView> {
    match lookup::<Comment>(comments, id) {
        Some(c) => comments.update(crate::table::row_index::<Comment>(comments, id), with_replied(c, b)),
        None => comments,
    }
}

/// Marking a comment replied to twice leaves the comments as marking it
/// once did: repeating a post under the same comment keeps the mark set and
/// changes nothing else.
pub proof fn lemma_mark_replied_idempotent(comments: Seq<CommentView>, id: Seq<char>)
    requires
        keys_unique::<Comment>(comments),
    ensures
        marked_replied(marked_replied(comments, id, true), id, true) == marked_replied(
            comments,
            id,
            true,
        ),
        lookup::<Comment>(comments, id) is Some ==> (lookup::<Comment>(
            marked_replied(comments, id, true),
            id,
        ) matches Some(c) && c.replied_to),
{
    match lookup::<Comment>(comments, id) {
        Some(c) => {
            let p = crate::table::row_index::<Comment>(comments, id);
            let m = marked_replied(comments, id, true);
            assert(keys_unique::<Comment>(m)) by {
                assert forall|i: int, j: int| 0 <= i < j < m.len() implies Comment::key_of(m[i])
                    != Comment::key_of(m[j]) by {
                    assert(Comment::key_of(comments[i]) != Comment::key_of(comments[j]));
                }
            }
            assert(Comment::key_of(m[p]) == id);
            crate::table::lemma_row_index_unique::<Comment>(m, p);
            assert(m.update(p, with_replied(m[p], true)) =~= m);
        },
        None => {},
    }
}

/// `after` holds every record of `before`, unchanged and in place.
pub open spec fn ledger_kept(before: Seq<InteractionRecordView>, after: Seq<InteractionRecordView>) -> bool {
    &&& before.len() <= after.len()
    &&& forall|i: int| 0 <= i < before.len() ==> after[i] == before[i]
}

/// The ledger is append-only: whatever sequence of store operations runs,
/// each keeps every record, so together they keep every record.
pub proof fn lemma_ledger_kept_trans(
    a: Seq<InteractionRecordView>,
    b: Seq<InteractionRecordView>,
    c: Seq<InteractionRecordView>,
)
    requires
        ledger_kept(a, b),
        ledger_kept(b, c),
    ensures
        ledger_kept(a, c),
{
}

/// `s` marked inactive.
pub open spec fn ended(s: Session) -> Session {
    Session { is_active: false, ..s }
}

/// What a [`Database`] holds.
pub struct DatabaseView {
    pub comments: Seq<CommentView>,
    pub users: Seq<User>,
    pub tokens: Seq<StoredTokenView>,
    pub sessions: Seq<Session>,
    pub interactions: Seq<InteractionRecordView>,
}

/// The store that the services read and write.
pub struct Database {
    comments: Vec<Comment>,
    users: Vec<User>,
    tokens: Vec<StoredToken>,
    sessions: Vec<Session>,
    interactions: Vec<InteractionRecord>,
}

impl View for Database {
    type V = DatabaseView;

    closed spec fn view(&self) -> DatabaseView {
        DatabaseView {
            comments: views(self.comments@),
            users: views(self.users@),
            tokens: views(self.tokens@),
            sessions: views(self.sessions@),
            interactions: views(self.interactions@),
        }
    }
}

/// An empty store.
pub fn init_db() -> (r: Database)
    ensures
        r.wf(),
        r@.comments.len() == 0,
        r@.users.len() == 0,
        r@.tokens.len() == 0,
        r@.sessions.len() == 0,
        r@.interactions.len() == 0,
{
    Database::new()
}

impl Database {
    /// Each keyed table holds at most one row per key.
    pub open spec fn wf(&self) -> bool {
        &&& keys_unique::<Comment>(self@.comments)
        &&& keys_unique::<User>(self@.users)
        &&& keys_unique::<StoredToken>(self@.tokens)
        &&& keys_unique::<Session>(self@.sessions)
    }

    /// An empty store.
    pub fn new() -> (r: Database)
        ensures
            r.wf(),
            r@.comments.len() == 0,
            r@.users.len() == 0,
            r@.tokens.len() == 0,
            r@.sessions.len() == 0,
            r@.interactions.len() == 0,
    {
        let r = Database {
            comments: Vec::new(),
            users: Vec::new(),
            tokens: Vec::new(),
            sessions: Vec::new(),
            interactions: Vec::new(),
        };
        assert(r@.comments =~= Seq::<CommentView>::empty());
        assert(r@.users =~= Seq::<User>::empty());
        assert(r@.tokens =~= Seq::<StoredTokenView>::empty());
        assert(r@.sessions =~= Seq::<Session>::empty());
        r
    }

    /// The comments stored for a video, or `None` where there are none.
    pub fn get_comments(&self, video_id: &str) -> (r: Option<Vec<Comment>>)
        ensures
            match r {
                Some(v) => comments_of_video(self@.comments, video_id@).len() > 0 && views(v@)
                    == comments_of_video(self@.comments, video_id@),
                None => comments_of_video(self@.comments, video_id@).len() == 0,
            },
    {
        let ghost all = self@.comments;
        let mut found: Vec<Comment> = Vec::new();
        let mut i: usize = 0;
        while i < self.comments.len()
            invariant
                i <= all.len(),
                all == views(self.comments@),
                views(found@) == comments_of_video(all.subrange(0, i as int), video_id@),
            decreases all.len() - i,
        {
            assert(all.subrange(0, i + 1).drop_last() =~= all.subrange(0, i as int));
            if crate::text::same_text(self.comments[i].video_id.as_str(), video_id) {
                found.push(self.comments[i].duplicate());
                assert(views(found@) =~= comments_of_video(all.subrange(0, i + 1), video_id@));
            }
            i += 1;
        }
        assert(all.subrange(0, all.len() as int) =~= all);
        if found.len() == 0 {
            None
        } else {
            Some(found)
        }
    }

    /// Stores each comment in turn: one with the id of a stored comment
    /// replaces it, any other is added.
    pub fn save_comments(&mut self, video_id: &str, comments: &[Comment])
        requires
            old(self).wf(),
        ensures
            final(self).wf(),
            ledger_kept(old(self)@.interactions, final(self)@.interactions),
            final(self)@ == (DatabaseView {
                comments: upserted_all::<Comment>(old(self)@.comments, views(comments@)),
                ..old(self)@
            }),
            forall|k: Seq<char>|
                #[trigger] lookup::<Comment>(final(self)@.comments, k) == match last_with_key::<
                    Comment,
                >(views(comments@), k) {
                    Some(v) => Some(v),
                    None => lookup::<Comment>(old(self)@.comments, k),
                },
    {
        proof {
            assert forall|k: Seq<char>| #[trigger] lookup::<Comment>(upserted_all::<Comment>(old(self)@.comments, views(comments@)), k) == match last_with_key::<Comment>(views(comments@), k) {
                Some(v) => Some(v),
                None => lookup::<Comment>(old(self)@.comments, k),
            } by {
                crate::table::lemma_lookup_upserted_all::<Comment>(old(self)@.comments, views(comments@), k);
            }
        }
        let mut copies: Vec<Comment> = Vec::new();
        let mut i: usize = 0;
        while i < comments.len()
            invariant
                i <= comments@.len(),
                copies@.len() == i,
                views(copies@) == views(comments@).subrange(0, i as int),
            decreases comments@.len() - i,
        {
            let ghost before = copies@;
            let c = comments[i].duplicate();
            copies.push(c);
            assert(copies@ == before.push(c));
            assert(views(copies@)[i as int] == c@);
            assert(views(copies@) =~= views(comments@).subrange(0, i + 1)) by {
                assert forall|j: int| 0 <= j < i implies views(copies@)[j] == views(before)[j] by {
                    assert(copies@[j] == before[j]);
                }
            }
            i += 1;
        }
        assert(views(copies@) =~= views(comments@));
        upsert_rows(&mut self.comments, copies);
    }

    /// The stored comment with this id.
    pub fn get_comment(&self, comment_id: &str) -> (r: Option<Comment>)
        requires
            self.wf(),
        ensures
            comment_view(r) == lookup::<Comment>(self@.comments, comment_id@),
    {
        match find_row(&self.comments, comment_id) {
            Some(i) => Some(self.comments[i].duplicate()),
            None => None,
        }
    }

    /// Sets the `replied_to` flag of the stored comment with this id; with no
    /// such comment nothing changes.
    pub fn mark_comment_replied(&mut self, comment_id: &str, replied: bool)
        requires
            old(self).wf(),
        ensures
            final(self).wf(),
            ledger_kept(old(self)@.interactions, final(self)@.interactions),
            final(self)@ == (DatabaseView {
                comments: marked_replied(old(self)@.comments, comment_id@, replied),
                ..old(self)@
            }),
    {
        match find_row(&self.comments, comment_id) {
            Some(i) => {
                let mut c = self.comments[i].duplicate();
                c.replied_to = replied;
                self.comments.set(i, c);
                assert(self@.comments =~= old(self)@.comments.update(
                    i as int,
                    with_replied(old(self)@.comments[i as int], replied),
                ));
                assert forall|a: int, b: int|
                    0 <= a < b < self@.comments.len() implies #[trigger] Comment::key_of(
                    self@.comments[a],
                ) != #[trigger] Comment::key_of(self@.comments[b]) by {
                    assert(Comment::key_of(old(self)@.comments[a]) != Comment::key_of(
                        old(self)@.comments[b],
                    ));
                }
            },
            None => {},
        }
    }

    /// Stores an account: it replaces the stored one with its id.
    pub fn save_user(&mut self, user: &User)
        requires
            old(self).wf(),
        ensures
            final(self).wf(),
            ledger_kept(old(self)@.interactions, final(self)@.interactions),
            final(self)@ == (DatabaseView {
                users: upserted::<User>(old(self)@.users, *user),
                ..old(self)@
            }),
            forall|k: Seq<char>|
                #[trigger] lookup::<User>(final(self)@.users, k) == if k == user.id@ {
                    Some(*user)
                } else {
                    lookup::<User>(old(self)@.users, k)
                },
    {
        proof {
            assert forall|k: Seq<char>| #[trigger] lookup::<User>(upserted::<User>(old(self)@.users, *user), k) == if k == user.id@ { Some(*user) } else { lookup::<User>(old(self)@.users, k) } by {
                crate::table::lemma_lookup_upserted::<User>(old(self)@.users, *user, k);
            }
        }
        upsert_row(&mut self.users, user.duplicate());
    }

    /// The stored account with this id.
    pub fn get_user(&self, user_id: &str) -> (r: Option<User>)
        requires
            self.wf(),
        ensures
            r == lookup::<User>(self@.users, user_id@),
    {
        match find_row(&self.users, user_id) {
            Some(i) => Some(self.users[i].duplicate()),
            None => None,
        }
    }

    /// Stores the credential of an account; it supersedes the one stored
    /// before.
    pub fn save_auth_token(&mut self, user_id: &str, token: &AuthToken)
        requires
            old(self).wf(),
        ensures
            final(self).wf(),
            ledger_kept(old(self)@.interactions, final(self)@.interactions),
            final(self)@ == (DatabaseView {
                tokens: upserted::<StoredToken>(
                    old(self)@.tokens,
                    StoredTokenView { user_id: user_id@, token: token@ },
                ),
                ..old(self)@
            }),
            forall|k: Seq<char>|
                #[trigger] lookup::<StoredToken>(final(self)@.tokens, k) == if k == user_id@ {
                    Some(StoredTokenView { user_id: user_id@, token: token@ })
                } else {
                    lookup::<StoredToken>(old(self)@.tokens, k)
                },
    {
        proof {
            let v = StoredTokenView { user_id: user_id@, token: token@ };
            assert forall|k: Seq<char>| #[trigger] lookup::<StoredToken>(upserted::<StoredToken>(old(self)@.tokens, v), k) == if k == user_id@ { Some(v) } else { lookup::<StoredToken>(old(self)@.tokens, k) } by {
                crate::table::lemma_lookup_upserted::<StoredToken>(old(self)@.tokens, v, k);
            }
        }
        let row = StoredToken { user_id: user_id.to_owned(), token: token.duplicate() };
        upsert_row(&mut self.tokens, row);
    }

    /// The credential stored for an account.
    pub fn get_auth_token(&self, user_id: &str) -> (r: Option<AuthToken>)
        requires
            self.wf(),
        ensures
            token_view(r) == match lookup::<StoredToken>(self@.tokens, user_id@) {
                Some(t) => Some(t.token),
                None => None,
            },
    {
        match find_row(&self.tokens, user_id) {
            Some(i) => Some(self.tokens[i].token.duplicate()),
            None => None,
        }
    }

    /// Stores a new session. Sessions are never replaced: where one with
    /// the same id is stored already, nothing changes and `false` is
    /// returned.
    pub fn create_session(&mut self, session: &Session) -> (r: bool)
        requires
            old(self).wf(),
        ensures
            final(self).wf(),
            ledger_kept(old(self)@.interactions, final(self)@.interactions),
            r == (lookup::<Session>(old(self)@.sessions, session.id@) is None),
            r ==> final(self)@ == (DatabaseView {
                sessions: old(self)@.sessions.push(*session),
                ..old(self)@
            }),
            !r ==> final(self)@ == old(self)@,
            forall|k: Seq<char>|
                #[trigger] lookup::<Session>(final(self)@.sessions, k) == if r && k == session.id@ {
                    Some(*session)
                } else {
                    lookup::<Session>(old(self)@.sessions, k)
                },
    {
        if find_row(&self.sessions, session.id.as_str()).is_some() {
            return false;
        }
        proof {
            assert forall|k: Seq<char>| #[trigger] lookup::<Session>(upserted::<Session>(old(self)@.sessions, *session), k) == if k == session.id@ { Some(*session) } else { lookup::<Session>(old(self)@.sessions, k) } by {
                crate::table::lemma_lookup_upserted::<Session>(old(self)@.sessions, *session, k);
            }
        }
        upsert_row(&mut self.sessions, session.duplicate());
        true
    }

    /// The stored session with this id.
    pub fn get_session(&self, session_id: &str) -> (r: Option<Session>)
        requires
            self.wf(),
        ensures
            r == lookup::<Session>(self@.sessions, session_id@),
    {
        match find_row(&self.sessions, session_id) {
            Some(i) => Some(self.sessions[i].duplicate()),
            None => None,
        }
    }

    /// Marks the stored session with this id inactive; with no such session
    /// nothing changes.
    pub fn end_session(&mut self, session_id: &str)
        requires
            old(self).wf(),
        ensures
            final(self).wf(),
            ledger_kept(old(self)@.interactions, final(self)@.interactions),
            final(self)@ == (DatabaseView {
                sessions: match lookup::<Session>(old(self)@.sessions, session_id@) {
                    Some(s) => old(self)@.sessions.update(
                        crate::table::row_index::<Session>(old(self)@.sessions, session_id@),
                        ended(s),
                    ),
                    None => old(self)@.sessions,
                },
                ..old(self)@
            }),
    {
        match find_row(&self.sessions, session_id) {
            Some(i) => {
                let mut s = self.sessions[i].duplicate();
                s.is_active = false;
                self.sessions.set(i, s);
                assert(self@.sessions =~= old(self)@.sessions.update(
                    i as int,
                    ended(old(self)@.sessions[i as int]),
                ));
                assert forall|a: int, b: int|
                    0 <= a < b < self@.sessions.len() implies #[trigger] Session::key_of(
                    self@.sessions[a],
                ) != #[trigger] Session::key_of(self@.sessions[b]) by {
                    assert(Session::key_of(old(self)@.sessions[a]) != Session::key_of(
                        old(self)@.sessions[b],
                    ));
                }
            },
            None => {},
        }
    }

    /// Appends a record to the ledger. No other record changes.
    pub fn record_interaction(&mut self, interaction: &InteractionRecord)
        requires
            old(self).wf(),
        ensures
            final(self).wf(),
            ledger_kept(old(self)@.interactions, final(self)@.interactions),
            final(self)@ == (DatabaseView {
                interactions: old(self)@.interactions.push(interaction@),
                ..old(self)@
            }),
    {
        let ghost before = self.interactions@;
        let d = interaction.duplicate();
        self.interactions.push(d);
        assert(views(self.interactions@) =~= views(before).push(d@));
    }

    /// The `limit` newest records of an account, newest first.
    pub fn get_user_interactions(&self, user_id: &str, limit: usize) -> (r: Vec<InteractionRecord>)
        ensures
            newest_of(views(r@), records_where(self@.interactions, user_id@, true), limit as nat),
    {
        take_newest(select_records(&self.interactions, user_id, true), limit)
    }

    /// The records of a comment, oldest first.
    pub fn get_comment_interactions(&self, comment_id: &str) -> (r: Vec<InteractionRecord>)
        ensures
            in_time_order(views(r@), false),
            views(r@).to_multiset() == records_where(self@.interactions, comment_id@, false).to_multiset(),
    {
        sort_records(select_records(&self.interactions, comment_id, false), false)
    }
}

} // verus!
