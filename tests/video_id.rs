use comment_sync::video_id::{extract_video_id, video_id_from_parts};

#[test]
fn test_extract_video_id() {
    // Direct ID
    assert_eq!(
        extract_video_id("dQw4w9WgXcQ"),
        Some("dQw4w9WgXcQ".to_string())
    );

    // youtu.be format
    assert_eq!(
        extract_video_id("https://youtu.be/dQw4w9WgXcQ"),
        Some("dQw4w9WgXcQ".to_string())
    );

    // youtube.com format
    assert_eq!(
        extract_video_id("https://www.youtube.com/watch?v=dQw4w9WgXcQ"),
        Some("dQw4w9WgXcQ".to_string())
    );

    // Invalid input
    assert_eq!(extract_video_id("not-a-video-id"), None);
}

#[test]
fn watch_link_without_www_and_other_params() {
    assert_eq!(
        extract_video_id("https://youtube.com/watch?t=10&v=abc&v=def"),
        Some("abc".to_string())
    );
}

#[test]
fn eleven_bytes_with_slash_is_not_bare() {
    assert_eq!(extract_video_id("abc/defghij"), None);
    assert_eq!(extract_video_id("abc?defghij"), None);
}

#[test]
fn other_hosts_name_no_video() {
    assert_eq!(extract_video_id("https://example.com/watch?v=abc"), None);
    assert_eq!(extract_video_id("https://www.youtube.com/watch"), None);
}

#[test]
fn short_link_takes_last_segment() {
    assert_eq!(
        extract_video_id("https://youtu.be/a/b"),
        Some("b".to_string())
    );
}

#[test]
fn parts_decide_the_id() {
    assert_eq!(
        video_id_from_parts(
            Some("youtu.be".to_string()),
            Some(vec!["x".to_string(), "id1".to_string()]),
            vec![]
        ),
        Some("id1".to_string())
    );
    assert_eq!(
        video_id_from_parts(
            Some("www.youtube.com".to_string()),
            None,
            vec![("a".to_string(), "1".to_string()), ("v".to_string(), "id2".to_string())]
        ),
        Some("id2".to_string())
    );
    assert_eq!(video_id_from_parts(None, None, vec![]), None);
    assert_eq!(
        video_id_from_parts(Some("youtu.be".to_string()), None, vec![]),
        None
    );
}
