use comment_sync::models::{Comment, InteractionRecord, InteractionType};
use comment_sync::store::{init_db, Database};

fn comment(id: &str, video: &str, text: &str) -> Comment {
    Comment {
        video_id: video.to_string(),
        comment_id: id.to_string(),
        author: "a".to_string(),
        author_channel_id: "ca".to_string(),
        text: text.to_string(),
        like_count: 0,
        published_at: 0,
        replies: vec![],
        replied_to: false,
        metadata: vec![],
    }
}

fn record(id: &str, user: &str, comment: &str, ts: i64) -> InteractionRecord {
    InteractionRecord {
        id: id.to_string(),
        user_id: user.to_string(),
        video_id: "v".to_string(),
        comment_id: comment.to_string(),
        reply_id: None,
        interaction_type: InteractionType::CommentObserved,
        timestamp: ts,
        data: vec![],
    }
}

#[test]
fn saving_a_comment_again_replaces_it() {
    let mut db = init_db();
    db.save_comments("v", &[comment("c1", "v", "first"), comment("c2", "v", "x")]);
    db.save_comments("v", &[comment("c1", "v", "second")]);
    let all = db.get_comments("v").unwrap();
    assert_eq!(all.len(), 2);
    assert_eq!(db.get_comment("c1").unwrap().text, "second");
}

#[test]
fn later_duplicate_in_one_save_wins() {
    let mut db = Database::new();
    db.save_comments("v", &[comment("c1", "v", "a"), comment("c1", "v", "b")]);
    assert_eq!(db.get_comments("v").unwrap().len(), 1);
    assert_eq!(db.get_comment("c1").unwrap().text, "b");
}

#[test]
fn comments_are_kept_per_video() {
    let mut db = Database::new();
    db.save_comments("v", &[comment("c1", "v", "a"), comment("c2", "w", "b")]);
    assert_eq!(db.get_comments("w").unwrap()[0].comment_id, "c2");
    assert!(db.get_comments("u").is_none());
    db.mark_comment_replied("missing", true);
    assert!(db.get_comment("missing").is_none());
}

#[test]
fn account_query_is_newest_first_and_bounded() {
    let mut db = Database::new();
    db.record_interaction(&record("i1", "u1", "c1", 10));
    db.record_interaction(&record("i2", "u1", "c2", 30));
    db.record_interaction(&record("i3", "u2", "c1", 40));
    db.record_interaction(&record("i4", "u1", "c1", 20));
    let top = db.get_user_interactions("u1", 2);
    let ids: Vec<&str> = top.iter().map(|r| r.id.as_str()).collect();
    assert_eq!(ids, vec!["i2", "i4"]);
    assert_eq!(db.get_user_interactions("u1", 10).len(), 3);
    assert!(db.get_user_interactions("u1", 0).is_empty());
    assert!(db.get_user_interactions("nobody", 5).is_empty());
}

#[test]
fn comment_query_is_oldest_first() {
    let mut db = Database::new();
    db.record_interaction(&record("i1", "u1", "c1", 50));
    db.record_interaction(&record("i2", "u2", "c1", 5));
    db.record_interaction(&record("i3", "u1", "c2", 1));
    let ids: Vec<String> = db.get_comment_interactions("c1").into_iter().map(|r| r.id).collect();
    assert_eq!(ids, vec!["i2".to_string(), "i1".to_string()]);
}

#[test]
fn ledger_records_survive_every_operation() {
    let mut db = Database::new();
    db.record_interaction(&record("i1", "u1", "c1", 10));
    db.save_comments("v", &[comment("c1", "v", "a")]);
    db.mark_comment_replied("c1", true);
    db.end_session("s");
    db.record_interaction(&record("i2", "u1", "c1", 5));
    let log = db.get_comment_interactions("c1");
    assert_eq!(log.len(), 2);
    assert_eq!(log[1], record("i1", "u1", "c1", 10));
}
