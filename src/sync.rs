//! Bringing a video's comment threads into the store, and recording a
//! posted reply.
use vstd::prelude::*;
use crate::error::ServiceError;
use crate::ids::fresh_id;
use crate::models::{Comment, CommentView, InteractionRecord, InteractionRecordView, InteractionType, Reply};
use crate::store::{ledger_kept, marked_replied, Database, DatabaseView};
use crate::table::{keys_unique, last_with_key, lookup, upserted_all, views, Row};

verus! {

/// The fields of a comment as the platform reports them.
#[derive(Debug, Clone)]
pub struct CommentSnippet {
    pub author_display_name: String,
    pub author_channel_id: String,
    pub text_display: String,
    pub like_count: i32,
    pub published_at: i64,
}

/// A top-level comment with the number of replies under it.
#[derive(Debug, Clone)]
pub struct CommentThread {
    pub id: String,
    pub total_reply_count: i32,
    pub top_level: CommentSnippet,
}

/// A single comment: a reply, or one just posted.
#[derive(Debug, Clone)]
pub struct CommentItem {
    pub id: String,
    pub snippet: CommentSnippet,
}

/// The replies of a thread are fetched only where it reports some.
pub fn needs_reply_fetch(thread: &CommentThread) -> (r: bool)
    ensures
        r == (thread.total_reply_count > 0),
{
    thread.total_reply_count > 0
}

/// `r` is the reply that `item` describes, under `parent_id`.
pub open spec fn reply_of(r: Reply, item: CommentItem, parent_id: Seq<char>) -> bool {
    &&& r.reply_id == item.id
    &&& r.parent_id@ == parent_id
    &&& r.author == item.snippet.author_display_name
    &&& r.author_channel_id == item.snippet.author_channel_id
    &&& r.text == item.snippet.text_display
    &&& r.like_count == item.snippet.like_count
    &&& r.published_at == item.snippet.published_at
    &&& !r.ai_generated
    &&& r.ai_model is None
}

/// The reply that `item` describes, under `parent_id`; whether a model
/// drafted it is the caller's to set.
pub fn reply_from_item(item: CommentItem, parent_id: &str) -> (r: Reply)
    ensures
        reply_of(r, item, parent_id@),
{
    Reply {
        reply_id: item.id,
        parent_id: parent_id.to_owned(),
        author: item.snippet.author_display_name,
        author_channel_id: item.snippet.author_channel_id,
        text: item.snippet.text_display,
        like_count: item.snippet.like_count,
        published_at: item.snippet.published_at,
        ai_generated: false,
        ai_model: None,
    }
}

/// The replies that `items` describe, in order, under `parent_id`.
pub fn replies_from_items(items: Vec<CommentItem>, parent_id: &str) -> (r: Vec<Reply>)
    ensures
        r@.len() == items@.len(),
        forall|i: int| 0 <= i < items@.len() ==> reply_of(#[trigger] r@[i], items@[i], parent_id@),
{
    let ghost all = items@;
    let mut rest = items;
    let mut r: Vec<Reply> = Vec::new();
    while rest.len() > 0
        invariant
            rest@.len() <= all.len(),
            r@.len() == all.len() - rest@.len(),
            rest@ == all.subrange(all.len() - rest@.len(), all.len() as int),
            forall|i: int| 0 <= i < r@.len() ==> reply_of(#[trigger] r@[i], all[i], parent_id@),
        decreases rest@.len(),
    {
        let ghost n: int = r@.len() as int;
        let item = rest.remove(0);
        assert(item == all[n]);
        r.push(reply_from_item(item, parent_id));
        assert(rest@ =~= all.subrange(n + 1, all.len() as int));
    }
    r
}

/// `c` is the comment that `thread` and its replies describe, on video
/// `video_id`, with `replied_to` as given and no metadata yet.
pub open spec fn comment_of(
    c: CommentView,
    video_id: Seq<char>,
    thread: CommentThread,
    replies: Seq<Reply>,
    replied_to: bool,
) -> bool {
    &&& c.video_id@ == video_id
    &&& c.comment_id == thread.id
    &&& c.author == thread.top_level.author_display_name
    &&& c.author_channel_id == thread.top_level.author_channel_id
    &&& c.text == thread.top_level.text_display
    &&& c.like_count == thread.top_level.like_count
    &&& c.published_at == thread.top_level.published_at
    &&& c.replies == replies
    &&& c.replied_to == replied_to
    &&& c.metadata.len() == 0
}

/// The comment that `thread` and its replies describe, on video `video_id`;
/// the platform never reports whether it was replied to, so it is not yet.
pub fn comment_from_thread(video_id: &str, thread: CommentThread, replies: Vec<Reply>) -> (r: Comment)
    ensures
        comment_of(r@, video_id@, thread, replies@, false),
{
    Comment {
        video_id: video_id.to_owned(),
        comment_id: thread.id,
        author: thread.top_level.author_display_name,
        author_channel_id: thread.top_level.author_channel_id,
        text: thread.top_level.text_display,
        like_count: thread.top_level.like_count,
        published_at: thread.top_level.published_at,
        replies,
        replied_to: false,
        metadata: Vec::new(),
    }
}

/// The flag that a fresh copy of comment `id` takes from the store: what
/// the stored copy has, or `false` where none is stored.
pub open spec fn stored_replied(comments: Seq<CommentView>, id: Seq<char>) -> bool {
    match lookup::<Comment>(comments, id) {
        Some(c) => c.replied_to,
        None => false,
    }
}

/// `rec` records that `user_id` observed comment `comment_id` of `video_id`
/// at `now`.
pub open spec fn observed_record(
    rec: InteractionRecordView,
    user_id: Seq<char>,
    video_id: Seq<char>,
    comment_id: Seq<char>,
    now: i64,
) -> bool {
    &&& rec.id@.len() == 36
    &&& rec.user_id@ == user_id
    &&& rec.video_id@ == video_id
    &&& rec.comment_id@ == comment_id
    &&& rec.reply_id is None
    &&& rec.interaction_type == InteractionType::CommentObserved
    &&& rec.timestamp == now
    &&& rec.data.len() == 0
}

/// What a sync of `video_id` for `user_id` at `now` did, from the store
/// `before` to the store `after`, returning `r`: one comment per thread, in
/// order, each carrying the stored `replied_to` flag; all of them stored by
/// id; then one observation per comment appended to the ledger; nothing
/// else touched.
pub open spec fn sync_effect(
    before: DatabaseView,
    after: DatabaseView,
    user_id: Seq<char>,
    video_id: Seq<char>,
    threads: Seq<CommentThread>,
    replies: Seq<Seq<Reply>>,
    now: i64,
    r: Seq<CommentView>,
) -> bool {
    &&& r.len() == threads.len()
    &&& forall|i: int|
        0 <= i < r.len() ==> comment_of(
            #[trigger] r[i],
            video_id,
            threads[i],
            replies[i],
            stored_replied(before.comments, threads[i].id@),
        )
    &&& after.comments == upserted_all::<Comment>(before.comments, r)
    &&& after.interactions.len() == before.interactions.len() + r.len()
    &&& after.interactions.subrange(0, before.interactions.len() as int) == before.interactions
    &&& forall|i: int|
        0 <= i < r.len() ==> observed_record(
            #[trigger] after.interactions[before.interactions.len() + i],
            user_id,
            video_id,
            r[i].comment_id@,
            now,
        )
    &&& after.users == before.users
    &&& after.tokens == before.tokens
    &&& after.sessions == before.sessions
}

/// How posting a reply to the platform ended.
#[derive(Debug, Clone)]
pub enum PostReply {
    /// Accepted; the platform's copy of the new reply.
    Posted(CommentItem),
    /// Answered with a non-success status.
    Refused { status: u16 },
    /// No answer: the network failed or the call timed out.
    Unreachable,
}

/// `rec` records that `user_id` posted reply `reply_id` with text `text`
/// under comment `comment_id` of `video_id` at `now`; its data holds the
/// reply text under `reply_text`.
pub open spec fn posted_record(
    rec: InteractionRecordView,
    user_id: Seq<char>,
    video_id: Seq<char>,
    comment_id: Seq<char>,
    reply_id: Seq<char>,
    text: String,
    now: i64,
) -> bool {
    &&& rec.id@.len() == 36
    &&& rec.user_id@ == user_id
    &&& rec.video_id@ == video_id
    &&& rec.comment_id@ == comment_id
    &&& rec.reply_id matches Some(r) && r@ == reply_id
    &&& rec.interaction_type == InteractionType::ReplyPosted
    &&& rec.timestamp == now
    &&& rec.data.len() == 1
    &&& rec.data[0].0@ == "reply_text"@
    &&& rec.data[0].1 == text
}

/// The video of the stored comment `id`; empty where none is stored.
pub open spec fn video_of(comments: Seq<CommentView>, id: Seq<char>) -> Seq<char> {
    match lookup::<Comment>(comments, id) {
        Some(c) => c.video_id@,
        None => Seq::empty(),
    }
}

/// Records how posting a reply under `comment_id` ended. Once posted, the
/// stored comment is marked replied to and exactly one record of the post
/// is appended to the ledger; on failure the store is left as it was.
pub fn record_reply_posted(
    db: &mut Database,
    user_id: &str,
    comment_id: &str,
    outcome: PostReply,
    now: i64,
) -> (r: Result<Reply, ServiceError>)
    requires
        old(db).wf(),
    ensures
        final(db).wf(),
        ledger_kept(old(db)@.interactions, final(db)@.interactions),
        match outcome {
            PostReply::Posted(item) => r matches Ok(rep) && reply_of(rep, item, comment_id@)
                && final(db)@.comments == marked_replied(old(db)@.comments, comment_id@, true)
                && final(db)@.interactions.len() == old(db)@.interactions.len() + 1
                && posted_record(
                final(db)@.interactions.last(),
                user_id@,
                video_of(old(db)@.comments, comment_id@),
                comment_id@,
                item.id@,
                item.snippet.text_display,
                now,
            ) && final(db)@.users == old(db)@.users && final(db)@.tokens == old(db)@.tokens
                && final(db)@.sessions == old(db)@.sessions,
            _ => r == Err::<Reply, ServiceError>(ServiceError::TransientExternalError)
                && final(db)@ == old(db)@,
        },
{
    let item = match outcome {
        PostReply::Posted(item) => item,
        _ => {
            return Err(ServiceError::TransientExternalError);
        },
    };
    let reply = reply_from_item(item, comment_id);
    let video_id = match db.get_comment(comment_id) {
        Some(c) => c.video_id,
        None => String::new(),
    };
    db.mark_comment_replied(comment_id, true);
    let mut data: Vec<(String, String)> = Vec::new();
    data.push((String::from_str("reply_text"), reply.text.clone()));
    let record = InteractionRecord {
        id: fresh_id(),
        user_id: user_id.to_owned(),
        video_id,
        comment_id: comment_id.to_owned(),
        reply_id: Some(reply.reply_id.clone()),
        interaction_type: InteractionType::ReplyPosted,
        timestamp: now,
        data,
    };
    db.record_interaction(&record);
    Ok(reply)
}

/// Syncing never clears a reply mark: a comment stored with `replied_to`
/// set is still stored with it set after a sync of any video.
pub proof fn lemma_sync_keeps_replied(
    before: DatabaseView,
    after: DatabaseView,
    user_id: Seq<char>,
    video_id: Seq<char>,
    threads: Seq<CommentThread>,
    replies: Seq<Seq<Reply>>,
    now: i64,
    r: Seq<CommentView>,
    comment_id: Seq<char>,
)
    requires
        keys_unique::<Comment>(before.comments),
        sync_effect(before, after, user_id, video_id, threads, replies, now, r),
        lookup::<Comment>(before.comments, comment_id) matches Some(c) && c.replied_to,
    ensures
        lookup::<Comment>(after.comments, comment_id) matches Some(c) && c.replied_to,
{
    crate::table::lemma_lookup_upserted_all::<Comment>(before.comments, r, comment_id);
    crate::table::lemma_last_with_key_in::<Comment>(r, comment_id);
    match last_with_key::<Comment>(r, comment_id) {
        Some(v) => {
            let j = choose|j: int| 0 <= j < r.len() && r[j] == v;
            assert(comment_of(
                r[j],
                video_id,
                threads[j],
                replies[j],
                stored_replied(before.comments, threads[j].id@),
            ));
        },
        None => {},
    }
}

/// Where no two threads share an id, every comment a sync returns is the
/// one stored under its id afterwards: no duplicate is kept, and none is
/// shadowed by a later copy.
pub proof fn lemma_sync_stores_returned(
    before: DatabaseView,
    after: DatabaseView,
    user_id: Seq<char>,
    video_id: Seq<char>,
    threads: Seq<CommentThread>,
    replies: Seq<Seq<Reply>>,
    now: i64,
    r: Seq<CommentView>,
)
    requires
        keys_unique::<Comment>(before.comments),
        sync_effect(before, after, user_id, video_id, threads, replies, now, r),
        forall|i: int, j: int| 0 <= i < j < threads.len() ==> threads[i].id@ != threads[j].id@,
    ensures
        forall|i: int|
            0 <= i < r.len() ==> lookup::<Comment>(after.comments, (#[trigger] r[i]).comment_id@)
                == Some(r[i]),
{
    assert(keys_unique::<Comment>(r)) by {
        assert forall|i: int, j: int| 0 <= i < j < r.len() implies Comment::key_of(r[i])
            != Comment::key_of(r[j]) by {
            assert(comment_of(r[i], video_id, threads[i], replies[i], stored_replied(before.comments, threads[i].id@)));
            assert(comment_of(r[j], video_id, threads[j], replies[j], stored_replied(before.comments, threads[j].id@)));
        }
    }
    assert forall|i: int| 0 <= i < r.len() implies lookup::<Comment>(
        after.comments,
        (#[trigger] r[i]).comment_id@,
    ) == Some(r[i]) by {
        crate::table::lemma_lookup_upserted_all::<Comment>(before.comments, r, r[i].comment_id@);
        crate::table::lemma_last_with_key_unique::<Comment>(r, i);
    }
}

/// The views of each thread's replies.
pub open spec fn reply_lists(v: Seq<Vec<Reply>>) -> Seq<Seq<Reply>> {
    v.map_values(|r: Vec<Reply>| r@)
}

/// Brings a video's comment threads, fetched with the replies of each, into
/// the store: each comment keeps the `replied_to` flag of its stored copy,
/// all are stored by id, and then one observation per comment is appended
/// to the ledger. Returns the merged comments, in thread order.
pub fn apply_comment_sync(
    db: &mut Database,
    user_id: &str,
    video_id: &str,
    threads: Vec<CommentThread>,
    replies: Vec<Vec<Reply>>,
    now: i64,
) -> (r: Vec<Comment>)
    requires
        old(db).wf(),
        threads@.len() == replies@.len(),
    ensures
        final(db).wf(),
        ledger_kept(old(db)@.interactions, final(db)@.interactions),
        sync_effect(
            old(db)@,
            final(db)@,
            user_id@,
            video_id@,
            threads@,
            reply_lists(replies@),
            now,
            views(r@),
        ),
{
    let ghost before = db@;
    let ghost all_threads = threads@;
    let ghost all_replies = reply_lists(replies@);
    let mut ts = threads;
    let mut rs = replies;
    let mut comments: Vec<Comment> = Vec::new();
    while ts.len() > 0
        invariant
            db.wf(),
            db@ == before,
            ts@.len() == rs@.len(),
            ts@.len() <= all_threads.len(),
            all_threads.len() == all_replies.len(),
            comments@.len() == all_threads.len() - ts@.len(),
            ts@ == all_threads.subrange(all_threads.len() - ts@.len(), all_threads.len() as int),
            reply_lists(rs@) == all_replies.subrange(
                all_replies.len() - rs@.len(),
                all_replies.len() as int,
            ),
            forall|i: int|
                0 <= i < comments@.len() ==> comment_of(
                    #[trigger] comments@[i]@,
                    video_id@,
                    all_threads[i],
                    all_replies[i],
                    stored_replied(before.comments, all_threads[i].id@),
                ),
        decreases ts@.len(),
    {
        let ghost n: int = comments@.len() as int;
        let ghost rs_before = rs@;
        let t = ts.remove(0);
        let rep = rs.remove(0);
        assert(t == all_threads[n]);
        assert(rep@ == reply_lists(rs_before)[0]);
        assert(rep@ == all_replies[n]);
        let stored = db.get_comment(t.id.as_str());
        let mut c = comment_from_thread(video_id, t, rep);
        match stored {
            Some(s) => {
                c.replied_to = s.replied_to;
            },
            None => {},
        }
        comments.push(c);
        assert(ts@ =~= all_threads.subrange(n + 1, all_threads.len() as int));
        assert(reply_lists(rs@) =~= all_replies.subrange(n + 1, all_replies.len() as int)) by {
            assert forall|j: int| 0 <= j < rs@.len() implies reply_lists(rs@)[j] == all_replies[n
                + 1 + j] by {
                assert(rs@[j] == rs_before[j + 1]);
                assert(reply_lists(rs_before)[j + 1] == all_replies[n + 1 + j]);
            }
        }
    }
    db.save_comments(video_id, comments.as_slice());
    let ghost merged = db@;
    let mut i: usize = 0;
    while i < comments.len()
        invariant
            db.wf(),
            i <= comments@.len(),
            db@.comments == merged.comments,
            db@.users == before.users,
            db@.tokens == before.tokens,
            db@.sessions == before.sessions,
            merged.interactions == before.interactions,
            db@.interactions.len() == before.interactions.len() + i,
            db@.interactions.subrange(0, before.interactions.len() as int) == before.interactions,
            forall|j: int|
                0 <= j < i ==> observed_record(
                    #[trigger] db@.interactions[before.interactions.len() + j],
                    user_id@,
                    video_id@,
                    comments@[j].comment_id@,
                    now,
                ),
        decreases comments@.len() - i,
    {
        let record = InteractionRecord {
            id: fresh_id(),
            user_id: user_id.to_owned(),
            video_id: video_id.to_owned(),
            comment_id: comments[i].comment_id.clone(),
            reply_id: None,
            interaction_type: InteractionType::CommentObserved,
            timestamp: now,
            data: Vec::new(),
        };
        let ghost prev = db@.interactions;
        db.record_interaction(&record);
        assert(db@.interactions.subrange(0, before.interactions.len() as int) =~= before.interactions) by {
            assert(prev.subrange(0, before.interactions.len() as int) == before.interactions);
        }
        assert forall|j: int| 0 <= j <= i implies observed_record(
            #[trigger] db@.interactions[before.interactions.len() + j],
            user_id@,
            video_id@,
            comments@[j].comment_id@,
            now,
        ) by {
            if j < i {
                assert(db@.interactions[before.interactions.len() + j] == prev[before.interactions.len() + j]);
            }
        }
        i += 1;
    }
    comments
}

} // verus!
