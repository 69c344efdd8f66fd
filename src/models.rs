//! The records that the library keeps and exchanges. Instants are
//! milliseconds since the Unix epoch.
use vstd::prelude::*;
use crate::text::copy_texts;

verus! {

/// A copy of an optional text.
pub fn copy_opt_text(v: &Option<String>) -> (r: Option<String>)
    ensures
        r == *v,
{
    match v {
        Some(s) => Some(s.clone()),
        None => None,
    }
}

/// Tone options for drafted replies.
#[derive(Debug, Clone, PartialEq, Eq)]
pub enum ReplyTone {
    Professional,
    Friendly,
    Enthusiastic,
    Helpful,
    /// A tone described in the owner's own words.
    Custom(String),
}

/// What an account owner has chosen for drafting and polling.
#[derive(Debug, Clone, PartialEq, Eq)]
pub struct UserPreferences {
    pub enable_ai_replies: bool,
    pub ai_model: String,
    pub reply_tone: ReplyTone,
    pub enable_notifications: bool,
    /// Seconds between polls for new comments.
    pub polling_interval: u32,
}

/// An account on the video platform, known to this system.
#[derive(Debug, Clone, PartialEq, Eq)]
pub struct User {
    pub id: String,
    pub name: String,
    pub email: Option<String>,
    pub profile_picture_url: Option<String>,
    pub created_at: i64,
    pub updated_at: i64,
    pub preferences: UserPreferences,
}

/// The OAuth credential of one account.
#[derive(Debug, Clone, PartialEq, Eq)]
pub struct AuthToken {
    pub access_token: String,
    pub refresh_token: String,
    pub expires_at: i64,
    pub token_type: String,
    pub scopes: Vec<String>,
}

/// A local login session.
#[derive(Debug, Clone, PartialEq, Eq)]
pub struct Session {
    pub id: String,
    pub user_id: String,
    pub created_at: i64,
    pub expires_at: i64,
    pub ip_address: String,
    pub user_agent: String,
    pub is_active: bool,
}

/// What an [`AuthToken`] holds, with its scopes as a sequence.
pub struct AuthTokenView {
    pub access_token: String,
    pub refresh_token: String,
    pub expires_at: i64,
    pub token_type: String,
    pub scopes: Seq<String>,
}

impl View for AuthToken {
    type V = AuthTokenView;

    open spec fn view(&self) -> AuthTokenView {
        AuthTokenView {
            access_token: self.access_token,
            refresh_token: self.refresh_token,
            expires_at: self.expires_at,
            token_type: self.token_type,
            scopes: self.scopes@,
        }
    }
}

/// A reply under a comment.
#[derive(Debug, Clone, PartialEq, Eq)]
pub struct Reply {
    pub reply_id: String,
    pub parent_id: String,
    pub author: String,
    pub author_channel_id: String,
    pub text: String,
    pub like_count: i32,
    pub published_at: i64,
    pub ai_generated: bool,
    pub ai_model: Option<String>,
}

/// A top-level comment on a video, with its replies. `replied_to` is kept
/// locally only: the platform never reports it.
#[derive(Debug, Clone, PartialEq, Eq)]
pub struct Comment {
    pub video_id: String,
    pub comment_id: String,
    pub author: String,
    pub author_channel_id: String,
    pub text: String,
    pub like_count: i32,
    pub published_at: i64,
    pub replies: Vec<Reply>,
    pub replied_to: bool,
    /// Further facts about the comment, as key and value.
    pub metadata: Vec<(String, String)>,
}

/// What a [`Comment`] holds, with its replies as a sequence.
pub struct CommentView {
    pub video_id: String,
    pub comment_id: String,
    pub author: String,
    pub author_channel_id: String,
    pub text: String,
    pub like_count: i32,
    pub published_at: i64,
    pub replies: Seq<Reply>,
    pub replied_to: bool,
    pub metadata: Seq<(String, String)>,
}

impl View for Comment {
    type V = CommentView;

    open spec fn view(&self) -> CommentView {
        CommentView {
            video_id: self.video_id,
            comment_id: self.comment_id,
            author: self.author,
            author_channel_id: self.author_channel_id,
            text: self.text,
            like_count: self.like_count,
            published_at: self.published_at,
            replies: self.replies@,
            replied_to: self.replied_to,
            metadata: self.metadata@,
        }
    }
}

/// The kinds of event that the ledger records.
#[derive(Debug, Clone, Copy, PartialEq, Eq)]
pub enum InteractionType {
    CommentObserved,
    ReplyGenerated,
    ReplyPosted,
}

/// One entry of the interaction ledger.
#[derive(Debug, Clone, PartialEq, Eq)]
pub struct InteractionRecord {
    pub id: String,
    pub user_id: String,
    pub video_id: String,
    pub comment_id: String,
    pub reply_id: Option<String>,
    pub interaction_type: InteractionType,
    pub timestamp: i64,
    /// Further facts about the event, as key and value.
    pub data: Vec<(String, String)>,
}

/// What an [`InteractionRecord`] holds, with its data as a sequence.
pub struct InteractionRecordView {
    pub id: String,
    pub user_id: String,
    pub video_id: String,
    pub comment_id: String,
    pub reply_id: Option<String>,
    pub interaction_type: InteractionType,
    pub timestamp: i64,
    pub data: Seq<(String, String)>,
}

impl View for InteractionRecord {
    type V = InteractionRecordView;

    open spec fn view(&self) -> InteractionRecordView {
        InteractionRecordView {
            id: self.id,
            user_id: self.user_id,
            video_id: self.video_id,
            comment_id: self.comment_id,
            reply_id: self.reply_id,
            interaction_type: self.interaction_type,
            timestamp: self.timestamp,
            data: self.data@,
        }
    }
}

/// A video of the account's channel.
#[derive(Debug, Clone, PartialEq, Eq)]
pub struct YouTubeVideo {
    pub id: String,
    pub title: String,
    pub description: String,
    pub published_at: i64,
    pub thumbnail_url: String,
}

/// Token counts and timing of one drafting call.
#[derive(Debug, Clone, Copy, PartialEq, Eq)]
pub struct AiUsageStats {
    pub prompt_tokens: usize,
    pub completion_tokens: usize,
    pub total_tokens: usize,
    pub generation_time_ms: u64,
}

impl ReplyTone {
    pub fn duplicate(&self) -> (r: Self)
        ensures
            r == *self,
    {
        match self {
            ReplyTone::Professional => ReplyTone::Professional,
            ReplyTone::Friendly => ReplyTone::Friendly,
            ReplyTone::Enthusiastic => ReplyTone::Enthusiastic,
            ReplyTone::Helpful => ReplyTone::Helpful,
            ReplyTone::Custom(s) => ReplyTone::Custom(s.clone()),
        }
    }
}

impl UserPreferences {
    pub fn duplicate(&self) -> (r: Self)
        ensures
            r == *self,
    {
        UserPreferences {
            enable_ai_replies: self.enable_ai_replies,
            ai_model: self.ai_model.clone(),
            reply_tone: self.reply_tone.duplicate(),
            enable_notifications: self.enable_notifications,
            polling_interval: self.polling_interval,
        }
    }
}

impl User {
    pub fn duplicate(&self) -> (r: Self)
        ensures
            r == *self,
    {
        User {
            id: self.id.clone(),
            name: self.name.clone(),
            email: copy_opt_text(&self.email),
            profile_picture_url: copy_opt_text(&self.profile_picture_url),
            created_at: self.created_at,
            updated_at: self.updated_at,
            preferences: self.preferences.duplicate(),
        }
    }
}

impl AuthToken {
    pub fn duplicate(&self) -> (r: Self)
        ensures
            r@ == self@,
    {
        let scopes = copy_texts(&self.scopes);
        let r = AuthToken {
            access_token: self.access_token.clone(),
            refresh_token: self.refresh_token.clone(),
            expires_at: self.expires_at,
            token_type: self.token_type.clone(),
            scopes,
        };
        r
    }
}

impl Session {
    pub fn duplicate(&self) -> (r: Self)
        ensures
            r == *self,
    {
        Session {
            id: self.id.clone(),
            user_id: self.user_id.clone(),
            created_at: self.created_at,
            expires_at: self.expires_at,
            ip_address: self.ip_address.clone(),
            user_agent: self.user_agent.clone(),
            is_active: self.is_active,
        }
    }
}

impl Reply {
    pub fn duplicate(&self) -> (r: Self)
        ensures
            r == *self,
    {
        Reply {
            reply_id: self.reply_id.clone(),
            parent_id: self.parent_id.clone(),
            author: self.author.clone(),
            author_channel_id: self.author_channel_id.clone(),
            text: self.text.clone(),
            like_count: self.like_count,
            published_at: self.published_at,
            ai_generated: self.ai_generated,
            ai_model: copy_opt_text(&self.ai_model),
        }
    }
}

/// A copy of a list of replies.
pub fn copy_replies(v: &Vec<Reply>) -> (r: Vec<Reply>)
    ensures
        r@ == v@,
{
    let mut r: Vec<Reply> = Vec::new();
    let mut i: usize = 0;
    while i < v.len()
        invariant
            i <= v@.len(),
            r@ == v@.subrange(0, i as int),
        decreases v@.len() - i,
    {
        r.push(v[i].duplicate());
        i += 1;
    }
    assert(r@ =~= v@);
    r
}

/// A copy of a list of key and value pairs.
pub fn copy_pairs(v: &Vec<(String, String)>) -> (r: Vec<(String, String)>)
    ensures
        r@ == v@,
{
    let mut r: Vec<(String, String)> = Vec::new();
    let mut i: usize = 0;
    while i < v.len()
        invariant
            i <= v@.len(),
            r@ == v@.subrange(0, i as int),
        decreases v@.len() - i,
    {
        let (k, x) = &v[i];
        r.push((k.clone(), x.clone()));
        i += 1;
    }
    assert(r@ =~= v@);
    r
}

impl Comment {
    pub fn duplicate(&self) -> (r: Self)
        ensures
            r@ == self@,
    {
        let replies = copy_replies(&self.replies);
        let r = Comment {
            video_id: self.video_id.clone(),
            comment_id: self.comment_id.clone(),
            author: self.author.clone(),
            author_channel_id: self.author_channel_id.clone(),
            text: self.text.clone(),
            like_count: self.like_count,
            published_at: self.published_at,
            replies,
            replied_to: self.replied_to,
            metadata: copy_pairs(&self.metadata),
        };
        r
    }
}

impl InteractionRecord {
    pub fn duplicate(&self) -> (r: Self)
        ensures
            r@ == self@,
    {
        InteractionRecord {
            id: self.id.clone(),
            user_id: self.user_id.clone(),
            video_id: self.video_id.clone(),
            comment_id: self.comment_id.clone(),
            reply_id: copy_opt_text(&self.reply_id),
            interaction_type: self.interaction_type,
            timestamp: self.timestamp,
            data: copy_pairs(&self.data),
        }
    }
}

} // verus!
