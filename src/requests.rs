//! The requests made of the platform's data API: addresses, the
//! authorization header and the body of a posted reply.
use vstd::prelude::*;
use crate::error::ServiceError;
use crate::text::joined;

verus! {

/// The text that `serde_json` writes for the JSON string `s`.
pub uninterp spec fn json_quoted(s: Seq<char>) -> Seq<char>;

/// `s` as a JSON string literal. Relies on `serde_json::to_string` on a
/// `str`, which cannot fail: a `str` always serializes, into a `Vec`.
#[verifier::external_body]
fn json_string(s: &str) -> (r: String)
    ensures
        r@ == json_quoted(s@),
{
    serde_json::to_string(s).unwrap_or_default()
}

/// What follows a page address: the cursor of the page wanted, if any.
pub open spec fn page_suffix(cursor: Option<Seq<char>>) -> Seq<char> {
    match cursor {
        Some(c) => "&pageToken="@ + c,
        None => Seq::empty(),
    }
}

fn with_page(base: String, cursor: Option<&str>) -> (r: String)
    ensures
        r@ == base@ + page_suffix(
            match cursor {
                Some(c) => Some(c@),
                None => None,
            },
        ),
{
    let mut r = base;
    match cursor {
        Some(c) => {
            r.append("&pageToken=");
            r.append(c);
        },
        None => {
            assert(r@ =~= r@ + Seq::<char>::empty());
        },
    }
    r
}

/// The view of an optional cursor.
pub open spec fn cursor_view(cursor: Option<&str>) -> Option<Seq<char>> {
    match cursor {
        Some(c) => Some(c@),
        None => None,
    }
}

/// The address of a page of a video's comment threads.
pub fn comment_threads_url(video_id: &str, cursor: Option<&str>) -> (r: String)
    ensures
        r@ == "https://www.googleapis.com/youtube/v3/commentThreads?part=snippet&videoId="@
            + video_id@ + "&maxResults=100"@ + page_suffix(cursor_view(cursor)),
{
    let mut base = String::from_str("https://www.googleapis.com/youtube/v3/commentThreads?part=snippet&videoId=");
    base.append(video_id);
    base.append("&maxResults=100");
    with_page(base, cursor)
}

/// The address of a page of the replies under a comment.
pub fn replies_url(comment_id: &str, cursor: Option<&str>) -> (r: String)
    ensures
        r@ == "https://www.googleapis.com/youtube/v3/comments?part=snippet&parentId="@
            + comment_id@ + "&maxResults=100"@ + page_suffix(cursor_view(cursor)),
{
    let mut base = String::from_str("https://www.googleapis.com/youtube/v3/comments?part=snippet&parentId=");
    base.append(comment_id);
    base.append("&maxResults=100");
    with_page(base, cursor)
}

/// The address of a page of a channel's videos, newest first.
pub fn channel_videos_url(channel_id: &str, cursor: Option<&str>) -> (r: String)
    ensures
        r@ == "https://www.googleapis.com/youtube/v3/search?part=snippet&channelId="@
            + channel_id@ + "&maxResults=50&order=date&type=video"@ + page_suffix(
            cursor_view(cursor),
        ),
{
    let mut base = String::from_str("https://www.googleapis.com/youtube/v3/search?part=snippet&channelId=");
    base.append(channel_id);
    base.append("&maxResults=50&order=date&type=video");
    with_page(base, cursor)
}

/// The value of the authorization header for an access token.
pub fn bearer(access_token: &str) -> (r: String)
    ensures
        r@ == "Bearer "@ + access_token@,
{
    joined("Bearer ", access_token)
}

/// The body that posts a reply, from the JSON literals of the parent
/// comment's id and of the text.
pub fn frame_reply_body(parent_json: &str, text_json: &str) -> (r: String)
    ensures
        r@ == "{\"snippet\":{\"parentId\":"@ + parent_json@ + ",\"textOriginal\":"@ + text_json@
            + "}}"@,
{
    let mut r = String::from_str("{\"snippet\":{\"parentId\":");
    r.append(parent_json);
    r.append(",\"textOriginal\":");
    r.append(text_json);
    r.append("}}");
    r
}

/// The body that posts `text` as a reply under `comment_id`.
pub fn reply_request_body(comment_id: &str, text: &str) -> (r: String)
    ensures
        r@ == "{\"snippet\":{\"parentId\":"@ + json_quoted(comment_id@) + ",\"textOriginal\":"@
            + json_quoted(text@) + "}}"@,
{
    let parent = json_string(comment_id);
    let body = json_string(text);
    frame_reply_body(parent.as_str(), body.as_str())
}

/// The account's channel: the first the platform lists; an account without
/// one has nothing to sync.
pub fn channel_id_from(ids: Vec<String>) -> (r: Result<String, ServiceError>)
    ensures
        ids@.len() == 0 ==> r == Err::<String, ServiceError>(ServiceError::NotFound),
        ids@.len() > 0 ==> r == Ok::<String, ServiceError>(ids@[0]),
{
    let mut ids = ids;
    if ids.len() == 0 {
        Err(ServiceError::NotFound)
    } else {
        Ok(ids.swap_remove(0))
    }
}

} // verus!
