use comment_sync::error::ServiceError;
use comment_sync::requests::{
    bearer, channel_id_from, channel_videos_url, comment_threads_url, frame_reply_body,
    replies_url, reply_request_body,
};

#[test]
fn page_addresses_are_exact() {
    assert_eq!(
        comment_threads_url("v1", None),
        "https://www.googleapis.com/youtube/v3/commentThreads?part=snippet&videoId=v1&maxResults=100"
    );
    assert_eq!(
        replies_url("c1", Some("tok")),
        "https://www.googleapis.com/youtube/v3/comments?part=snippet&parentId=c1&maxResults=100&pageToken=tok"
    );
    assert_eq!(
        channel_videos_url("ch", Some("page2")),
        "https://www.googleapis.com/youtube/v3/search?part=snippet&channelId=ch&maxResults=50&order=date&type=video&pageToken=page2"
    );
    assert_eq!(bearer("abc"), "Bearer abc");
}

#[test]
fn reply_body_quotes_its_texts() {
    assert_eq!(
        reply_request_body("c1", "thanks!"),
        "{\"snippet\":{\"parentId\":\"c1\",\"textOriginal\":\"thanks!\"}}"
    );
    assert_eq!(
        reply_request_body("c\"2", "a\nb"),
        "{\"snippet\":{\"parentId\":\"c\\\"2\",\"textOriginal\":\"a\\nb\"}}"
    );
    assert_eq!(frame_reply_body("1", "2"), "{\"snippet\":{\"parentId\":1,\"textOriginal\":2}}");
}

#[test]
fn first_channel_is_taken() {
    assert_eq!(channel_id_from(vec![]), Err(ServiceError::NotFound));
    assert_eq!(
        channel_id_from(vec!["a".to_string(), "b".to_string()]),
        Ok("a".to_string())
    );
}
