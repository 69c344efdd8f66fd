use comment_sync::error::ServiceError;
use comment_sync::models::{Comment, InteractionType, Reply};
use comment_sync::pager::{PageStep, Pager};
use comment_sync::store::Database;
use comment_sync::sync_run::{CommentSync, SyncStep};
use comment_sync::sync::{
    apply_comment_sync, comment_from_thread, needs_reply_fetch, record_reply_posted,
    replies_from_items, CommentItem, CommentSnippet, CommentThread, PostReply,
};

const NOW: i64 = 1_700_000_000_000;

fn snippet(author: &str, text: &str) -> CommentSnippet {
    CommentSnippet {
        author_display_name: author.to_string(),
        author_channel_id: format!("ch-{}", author),
        text_display: text.to_string(),
        like_count: 3,
        published_at: 1_000,
    }
}

fn thread(id: &str, replies: i32) -> CommentThread {
    CommentThread { id: id.to_string(), total_reply_count: replies, top_level: snippet("bob", "hi") }
}

fn item(id: &str) -> CommentItem {
    CommentItem { id: id.to_string(), snippet: snippet("carol", "re") }
}

/// Pages through the threads of `v1`, then through each thread's replies,
/// as a caller of the pager does, and applies the sync.
fn sync_v1(db: &mut Database) -> Vec<Comment> {
    let mut threads: Pager<CommentThread> = Pager::new();
    assert_eq!(threads.on_page(vec![thread("t1", 0), thread("t2", 2)], None), PageStep::Done);
    let threads = threads.into_items();
    let mut replies: Vec<Vec<Reply>> = Vec::new();
    for t in &threads {
        if needs_reply_fetch(t) {
            let mut p: Pager<CommentItem> = Pager::new();
            p.on_page(vec![item("r1")], Some("next".to_string()));
            assert_eq!(p.on_page(vec![item("r2")], None), PageStep::Done);
            replies.push(replies_from_items(p.into_items(), &t.id));
        } else {
            replies.push(Vec::new());
        }
    }
    apply_comment_sync(db, "acc1", "v1", threads, replies, NOW)
}

#[test]
fn sync_builds_comments_and_records_observations() {
    let mut db = Database::new();
    let comments = sync_v1(&mut db);
    assert_eq!(comments.len(), 2);
    assert_eq!(comments[0].replies.len(), 0);
    assert_eq!(comments[1].replies.len(), 2);
    assert_eq!(comments[1].replies[0].reply_id, "r1");
    assert_eq!(comments[1].replies[1].parent_id, "t2");
    assert!(!comments[1].replied_to);
    let log = db.get_user_interactions("acc1", 10);
    assert_eq!(log.len(), 2);
    assert!(log.iter().all(|r| r.interaction_type == InteractionType::CommentObserved));
    assert_eq!(db.get_comments("v1").unwrap().len(), 2);
    assert!(db.get_comments("v2").is_none());
}

#[test]
fn resync_keeps_reply_marks_and_does_not_duplicate() {
    let mut db = Database::new();
    sync_v1(&mut db);
    db.mark_comment_replied("t2", true);
    let again = sync_v1(&mut db);
    assert!(again[1].replied_to);
    assert!(db.get_comment("t2").unwrap().replied_to);
    assert!(!db.get_comment("t1").unwrap().replied_to);
    assert_eq!(db.get_comments("v1").unwrap().len(), 2);
    // Every sync records what it observed.
    assert_eq!(db.get_comment_interactions("t2").len(), 2);
}

#[test]
fn posting_marks_comment_and_records_once_per_post() {
    let mut db = Database::new();
    sync_v1(&mut db);
    assert!(!db.get_comment("t1").unwrap().replied_to);
    let reply = record_reply_posted(&mut db, "acc1", "t1", PostReply::Posted(item("mine")), NOW + 1)
        .unwrap();
    assert_eq!(reply.reply_id, "mine");
    assert_eq!(reply.parent_id, "t1");
    assert!(!reply.ai_generated);
    assert!(db.get_comment("t1").unwrap().replied_to);
    let posted: Vec<_> = db
        .get_comment_interactions("t1")
        .into_iter()
        .filter(|r| r.interaction_type == InteractionType::ReplyPosted)
        .collect();
    assert_eq!(posted.len(), 1);
    assert_eq!(posted[0].reply_id, Some("mine".to_string()));
    assert_eq!(posted[0].video_id, "v1");
    assert_eq!(posted[0].data, vec![("reply_text".to_string(), "re".to_string())]);
    // Posting again is accepted; the mark stays set.
    record_reply_posted(&mut db, "acc1", "t1", PostReply::Posted(item("mine2")), NOW + 2).unwrap();
    assert!(db.get_comment("t1").unwrap().replied_to);
}

#[test]
fn failed_post_changes_nothing() {
    let mut db = Database::new();
    sync_v1(&mut db);
    let before = db.get_user_interactions("acc1", 100).len();
    let r = record_reply_posted(&mut db, "acc1", "t1", PostReply::Refused { status: 403 }, NOW);
    assert_eq!(r.unwrap_err(), ServiceError::TransientExternalError);
    let r = record_reply_posted(&mut db, "acc1", "t1", PostReply::Unreachable, NOW);
    assert_eq!(r.unwrap_err(), ServiceError::TransientExternalError);
    assert!(!db.get_comment("t1").unwrap().replied_to);
    assert_eq!(db.get_user_interactions("acc1", 100).len(), before);
}

#[test]
fn post_on_unknown_comment_records_without_video() {
    let mut db = Database::new();
    record_reply_posted(&mut db, "acc1", "zz", PostReply::Posted(item("r")), NOW).unwrap();
    let log = db.get_comment_interactions("zz");
    assert_eq!(log.len(), 1);
    assert_eq!(log[0].video_id, "");
    assert!(db.get_comment("zz").is_none());
}

#[test]
fn thread_without_replies_needs_no_fetch() {
    assert!(!needs_reply_fetch(&thread("t", 0)));
    assert!(needs_reply_fetch(&thread("t", 1)));
    let c = comment_from_thread("v9", thread("t", 0), vec![]);
    assert_eq!(c.video_id, "v9");
    assert_eq!(c.author, "bob");
    assert_eq!(c.author_channel_id, "ch-bob");
}

#[test]
fn sync_machine_pages_threads_then_each_thread_with_replies() {
    let mut db = Database::new();
    let mut sync = CommentSync::new();
    assert_eq!(sync.first_step(), SyncStep::FetchThreads { cursor: None, delay_ms: 0 });
    let s = sync.on_threads_page(vec![thread("t1", 0)], Some("page2".to_string()));
    assert_eq!(s, SyncStep::FetchThreads { cursor: Some("page2".to_string()), delay_ms: 100 });
    let s = sync.on_threads_page(vec![thread("t2", 2), thread("t3", 0)], None);
    assert_eq!(
        s,
        SyncStep::FetchReplies { comment_id: "t2".to_string(), cursor: None, delay_ms: 0 }
    );
    let s = sync.on_replies_page(vec![item("r1")], Some("rp2".to_string()));
    assert_eq!(
        s,
        SyncStep::FetchReplies { comment_id: "t2".to_string(), cursor: Some("rp2".to_string()), delay_ms: 100 }
    );
    assert_eq!(sync.on_replies_page(vec![item("r2")], None), SyncStep::Ready);
    let comments = sync.apply(&mut db, "acc1", "v1", NOW);
    let ids: Vec<&str> = comments.iter().map(|c| c.comment_id.as_str()).collect();
    assert_eq!(ids, vec!["t1", "t2", "t3"]);
    assert_eq!(comments[1].replies.len(), 2);
    assert!(comments[0].replies.is_empty() && comments[2].replies.is_empty());
    assert_eq!(db.get_user_interactions("acc1", 10).len(), 3);
}

#[test]
fn sync_machine_with_no_replies_is_ready_after_threads() {
    let mut sync = CommentSync::new();
    assert_eq!(sync.on_threads_page(vec![thread("t1", 0)], None), SyncStep::Ready);
    let mut empty = CommentSync::new();
    assert_eq!(empty.on_threads_page(vec![], None), SyncStep::Ready);
    let mut db = Database::new();
    assert!(empty.apply(&mut db, "acc1", "v1", NOW).is_empty());
}

#[test]
fn sync_machine_fails_on_a_failed_fetch() {
    let mut sync = CommentSync::new();
    sync.on_threads_page(vec![thread("t1", 1)], None);
    assert_eq!(sync.on_error(), SyncStep::Failed(ServiceError::TransientExternalError));
}

#[test]
fn sync_machine_keeps_the_first_copy_of_a_repeated_thread() {
    let mut sync = CommentSync::new();
    sync.on_threads_page(vec![thread("t1", 0)], Some("page2".to_string()));
    let mut again = thread("t1", 0);
    again.top_level.text_display = "later copy".to_string();
    assert_eq!(sync.on_threads_page(vec![again, thread("t2", 0)], None), SyncStep::Ready);
    let mut db = Database::new();
    let comments = sync.apply(&mut db, "acc1", "v1", NOW);
    let ids: Vec<&str> = comments.iter().map(|c| c.comment_id.as_str()).collect();
    assert_eq!(ids, vec!["t1", "t2"]);
    assert_eq!(comments[0].text, "hi");
    assert_eq!(db.get_comment("t1").unwrap(), comments[0]);
}

#[test]
fn sync_machine_fails_on_a_repeated_cursor() {
    let mut sync = CommentSync::new();
    sync.on_threads_page(vec![thread("t1", 0)], Some("page2".to_string()));
    assert_eq!(
        sync.on_threads_page(vec![], Some("page2".to_string())),
        SyncStep::Failed(ServiceError::TransientExternalError)
    );
}
