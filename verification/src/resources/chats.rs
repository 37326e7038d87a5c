//! Chat-area data shapes: creating, retrieving, archiving and searching
//! chats, and chat reminders.

use vstd::prelude::*;
use crate::resources::shared::Chat;
use crate::timestamp::Timestamp;

verus! {

/// Parameters for creating a chat.
#[derive(Debug, Clone)]
pub struct ChatCreateParams {
    pub account_id: String,
    pub participant_ids: Vec<String>,
    /// Type of chat (single, group).
    pub chat_type: String,
    pub title: Option<String>,
}

/// The response from creating a chat.
#[derive(Debug, Clone)]
pub struct ChatCreateResponse {
    pub chat: Chat,
    pub success: bool,
    pub error: Option<String>,
}

/// Parameters for retrieving a chat.
#[derive(Debug, Clone)]
pub struct ChatRetrieveParams {
    pub chat_id: String,
}

/// Parameters for archiving or unarchiving a chat.
#[derive(Debug, Clone)]
pub struct ChatArchiveParams {
    pub chat_id: String,
    pub archived: bool,
}

/// Parameters for searching chats; sent as a JSON body.
#[derive(Debug, Clone)]
pub struct ChatSearchParams {
    pub account_ids: Option<Vec<String>>,
    pub chat_type: Option<String>,
    pub include_muted: Option<bool>,
    pub limit: Option<i32>,
    pub cursor: Option<String>,
    pub scope: Option<String>,
    pub query: Option<String>,
}

impl ChatSearchParams {
    /// The search with nothing constrained.
    pub open spec fn spec_default() -> ChatSearchParams {
        ChatSearchParams {
            account_ids: None,
            chat_type: None,
            include_muted: None,
            limit: None,
            cursor: None,
            scope: None,
            query: None,
        }
    }

    /// Create search parameters with nothing constrained.
    pub fn new() -> (r: Self)
        ensures
            r == Self::spec_default(),
    {
        ChatSearchParams {
            account_ids: None,
            chat_type: None,
            include_muted: None,
            limit: None,
            cursor: None,
            scope: None,
            query: None,
        }
    }
}

impl Default for ChatSearchParams {
    /// The search with nothing constrained.
    fn default() -> (r: Self)
        ensures
            r == Self::spec_default(),
    {
        Self::new()
    }
}

/// Parameters for setting a chat reminder.
#[derive(Debug, Clone)]
pub struct ReminderCreateParams {
    pub chat_id: String,
    pub timestamp: Timestamp,
    pub message: Option<String>,
}

/// Parameters for clearing a chat reminder.
#[derive(Debug, Clone)]
pub struct ReminderDeleteParams {
    pub chat_id: String,
}

} // verus!
