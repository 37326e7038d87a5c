//! App-area data shapes: asset download, opening the desktop app, and the
//! combined chat/message search.

use vstd::prelude::*;
use crate::resources::shared::Chat;
use crate::resources::shared::Message;
use crate::resources::shared::User;

verus! {

/// Parameters for downloading an asset.
#[derive(Debug, Clone)]
pub struct AppDownloadAssetParams {
    pub asset_url: String,
}

/// The response from downloading an asset.
#[derive(Debug, Clone)]
pub struct AppDownloadAssetResponse {
    pub local_path: String,
    pub success: bool,
    pub error: Option<String>,
}

/// Parameters for opening the desktop app.
#[derive(Debug, Clone)]
pub struct AppOpenParams {
    pub chat_id: Option<String>,
    pub message_id: Option<String>,
    pub draft_text: Option<String>,
    pub draft_attachment: Option<String>,
}

/// The response from opening the desktop app.
#[derive(Debug, Clone)]
pub struct AppOpenResponse {
    pub success: bool,
    pub error: Option<String>,
}

/// Parameters for the combined search.
#[derive(Debug, Clone)]
pub struct AppSearchParams {
    pub query: String,
    pub account_ids: Option<Vec<String>>,
    pub chat_type: Option<String>,
    pub include_muted: Option<bool>,
    pub limit: Option<i32>,
    pub message_limit: Option<i32>,
    pub participant_limit: Option<i32>,
}

/// The response from the combined search.
#[derive(Debug, Clone)]
pub struct AppSearchResponse {
    pub chats: Vec<ChatSearchResult>,
    pub messages: Vec<MessageSearchResult>,
}

/// A chat in combined search results.
#[derive(Debug, Clone)]
pub struct ChatSearchResult {
    pub chat: Chat,
    pub participants: Vec<User>,
    pub messages: Vec<Message>,
}

/// A message in combined search results.
#[derive(Debug, Clone)]
pub struct MessageSearchResult {
    pub message: Message,
    pub chat: Chat,
}

} // verus!
