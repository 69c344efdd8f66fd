//! Credential lifecycle, session checks, paged fetching and comment
//! synchronisation for a video-hosting account, with an append-only
//! interaction ledger.

pub mod clock;
pub mod error;
pub mod ids;
pub mod text;
pub mod models;
pub mod table;
pub mod store;
pub mod ledger;
pub mod oauth;
pub mod credentials;
pub mod auth;
pub mod pager;
pub mod sync;
pub mod video_id;
pub mod requests;
pub mod prompts;
pub mod sync_run;
