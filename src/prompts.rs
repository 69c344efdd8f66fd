//! The instructions handed to the language model that drafts replies.
use vstd::prelude::*;
use crate::oauth::texts;
use crate::text::same_text;

verus! {

/// What every draft is asked to be.
pub open spec fn base_instructions() -> Seq<char> {
    "You are an assistant helping a YouTube content creator respond to comments on their videos. Your goal is to write thoughtful, authentic replies that engage with the commenter and foster a positive community. Keep replies concise, friendly, and conversational. Avoid generic responses."@
}

/// How a tone is described to the model; an unknown tone gets a balanced one.
pub open spec fn tone_instructions(tone: Seq<char>) -> Seq<char> {
    if tone == "professional"@ {
        "Maintain a professional and informative tone. Be helpful and knowledgeable while remaining approachable."@
    } else if tone == "friendly"@ {
        "Be warm, casual, and conversational. Use a friendly tone as if chatting with someone you know well."@
    } else if tone == "enthusiastic"@ {
        "Be energetic and excited in your response. Show enthusiasm and appreciation for the commenter."@
    } else if tone == "helpful"@ {
        "Focus on being as helpful as possible. Provide useful information and address any questions thoroughly."@
    } else {
        "Use a balanced, friendly tone that's authentic and engaging."@
    }
}

/// The system message for a tone.
pub fn build_system_message(tone: &str) -> (r: String)
    ensures
        r@ == base_instructions() + "\n\n"@ + tone_instructions(tone@),
{
    let mut r = String::from_str("You are an assistant helping a YouTube content creator respond to comments on their videos. Your goal is to write thoughtful, authentic replies that engage with the commenter and foster a positive community. Keep replies concise, friendly, and conversational. Avoid generic responses.");
    r.append("\n\n");
    if same_text(tone, "professional") {
        r.append("Maintain a professional and informative tone. Be helpful and knowledgeable while remaining approachable.");
    } else if same_text(tone, "friendly") {
        r.append("Be warm, casual, and conversational. Use a friendly tone as if chatting with someone you know well.");
    } else if same_text(tone, "enthusiastic") {
        r.append("Be energetic and excited in your response. Show enthusiasm and appreciation for the commenter.");
    } else if same_text(tone, "helpful") {
        r.append("Focus on being as helpful as possible. Provide useful information and address any questions thoroughly.");
    } else {
        r.append("Use a balanced, friendly tone that's authentic and engaging.");
    }
    r
}

/// One line per earlier interaction, each as a list item.
pub open spec fn bullet_lines(items: Seq<Seq<char>>) -> Seq<char>
    decreases items.len(),
{
    if items.len() == 0 {
        Seq::empty()
    } else {
        bullet_lines(items.drop_last()) + "- "@ + items.last() + "\n"@
    }
}

/// The part of the user message on earlier interactions; none where there
/// were none.
pub open spec fn history_part(items: Seq<Seq<char>>) -> Seq<char> {
    if items.len() == 0 {
        Seq::empty()
    } else {
        "Previous interactions with this commenter:\n"@ + bullet_lines(items) + "\n"@
    }
}

/// The part of the user message with further instructions, if any.
pub open spec fn instructions_part(extra: Option<Seq<char>>) -> Seq<char> {
    match extra {
        Some(e) => "Additional instructions: "@ + e + "\n\n"@,
        None => Seq::empty(),
    }
}

/// The user message asking for a reply to a comment.
pub open spec fn user_message_spec(
    video_title: Seq<char>,
    comment_author: Seq<char>,
    comment_text: Seq<char>,
    previous: Seq<Seq<char>>,
    extra: Option<Seq<char>>,
) -> Seq<char> {
    "Please write a reply to the following comment on my YouTube video titled \""@ + video_title
        + "\":\n\n"@ + "Comment from "@ + comment_author + ": \""@ + comment_text + "\"\n\n"@
        + history_part(previous) + instructions_part(extra)
        + "Write only the reply text without any additional formatting or explanation."@
}

/// The user message asking for a reply to `comment_text` by
/// `comment_author` under the video `video_title`.
pub fn build_user_message(
    video_title: &str,
    comment_author: &str,
    comment_text: &str,
    previous_interactions: &Vec<String>,
    additional_instructions: Option<&str>,
) -> (r: String)
    ensures
        r@ == user_message_spec(
            video_title@,
            comment_author@,
            comment_text@,
            texts(previous_interactions@),
            match additional_instructions {
                Some(e) => Some(e@),
                None => None,
            },
        ),
{
    let mut r = String::from_str("Please write a reply to the following comment on my YouTube video titled \"");
    r.append(video_title);
    r.append("\":\n\n");
    r.append("Comment from ");
    r.append(comment_author);
    r.append(": \"");
    r.append(comment_text);
    r.append("\"\n\n");
    let ghost head = r@;
    if previous_interactions.len() > 0 {
        r.append("Previous interactions with this commenter:\n");
        let ghost start = r@;
        let mut i: usize = 0;
        while i < previous_interactions.len()
            invariant
                i <= previous_interactions@.len(),
                r@ == start + bullet_lines(texts(previous_interactions@).subrange(0, i as int)),
            decreases previous_interactions@.len() - i,
        {
            assert(texts(previous_interactions@).subrange(0, i + 1).drop_last() =~= texts(
                previous_interactions@,
            ).subrange(0, i as int));
            r.append("- ");
            r.append(previous_interactions[i].as_str());
            r.append("\n");
            i += 1;
        }
        assert(texts(previous_interactions@).subrange(0, previous_interactions@.len() as int)
            =~= texts(previous_interactions@));
        r.append("\n");
    } else {
        assert(history_part(texts(previous_interactions@)) =~= Seq::<char>::empty());
    }
    assert(r@ == head + history_part(texts(previous_interactions@)));
    match additional_instructions {
        Some(e) => {
            r.append("Additional instructions: ");
            r.append(e);
            r.append("\n\n");
        },
        None => {},
    }
    r.append("Write only the reply text without any additional formatting or explanation.");
    r
}

} // verus!
