use comment_sync::prompts::{build_system_message, build_user_message};

#[test]
fn system_message_has_the_tone() {
    let m = build_system_message("friendly");
    assert!(m.starts_with("You are an assistant helping a YouTube content creator"));
    assert!(m.ends_with("\n\nBe warm, casual, and conversational. Use a friendly tone as if chatting with someone you know well."));
    let other = build_system_message("sarcastic");
    assert!(other.ends_with("\n\nUse a balanced, friendly tone that's authentic and engaging."));
}

#[test]
fn user_message_without_history_or_instructions() {
    let m = build_user_message("My Video", "bob", "nice", &vec![], None);
    assert_eq!(
        m,
        "Please write a reply to the following comment on my YouTube video titled \"My Video\":\n\nComment from bob: \"nice\"\n\nWrite only the reply text without any additional formatting or explanation."
    );
}

#[test]
fn user_message_with_history_and_instructions() {
    let m = build_user_message(
        "T",
        "a",
        "c",
        &vec!["one".to_string(), "two".to_string()],
        Some("be brief"),
    );
    assert_eq!(
        m,
        "Please write a reply to the following comment on my YouTube video titled \"T\":\n\nComment from a: \"c\"\n\nPrevious interactions with this commenter:\n- one\n- two\n\nAdditional instructions: be brief\n\nWrite only the reply text without any additional formatting or explanation."
    );
}
