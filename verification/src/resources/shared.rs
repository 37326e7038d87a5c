//! Records shared by several API areas: accounts, users, chats, messages,
//! attachments, reactions, and the pagination envelope.

use vstd::prelude::*;
use crate::timestamp::Timestamp;

verus! {

/// A sort key as the wire format carries it: either a string or a number.
/// Both are valid; the value is preserved as received.
#[derive(Debug, Clone)]
pub enum SortKey {
    Text(String),
    Number(i64),
}

/// A file attachment in a message.
#[derive(Debug, Clone)]
pub struct Attachment {
    /// Type of attachment (unknown, img, video, audio).
    pub attachment_type: String,
    pub duration: Option<i32>,
    pub file_name: Option<String>,
    pub file_size: Option<i64>,
    pub is_gif: Option<bool>,
    pub is_sticker: Option<bool>,
    pub is_voice_note: Option<bool>,
    pub mime_type: Option<String>,
    pub poster_img: Option<String>,
    pub size: Option<AttachmentSize>,
    pub src_url: Option<String>,
}

/// Pixel dimensions of an attachment.
#[derive(Debug, Clone, Copy)]
pub struct AttachmentSize {
    pub height: Option<i32>,
    pub width: Option<i32>,
}

/// A basic API response.
#[derive(Debug, Clone)]
pub struct BaseResponse {
    pub success: bool,
    pub error: Option<String>,
}

/// An API error response body.
#[derive(Debug, Clone)]
pub struct ErrorResponse {
    pub error: String,
    pub code: Option<String>,
    pub details: Option<Vec<(String, String)>>,
}

/// A chat message.
#[derive(Debug, Clone)]
pub struct Message {
    pub id: String,
    pub account_id: String,
    pub chat_id: String,
    pub message_id: String,
    pub sender_id: String,
    /// String or number; preserved as received.
    pub sort_key: SortKey,
    pub timestamp: Timestamp,
    pub attachments: Option<Vec<Attachment>>,
    pub is_sender: Option<bool>,
    pub is_unread: Option<bool>,
    pub reactions: Option<Vec<Reaction>>,
    pub sender_name: Option<String>,
    pub text: Option<String>,
}

/// A reaction on a message.
#[derive(Debug, Clone)]
pub struct Reaction {
    pub id: String,
    pub participant_id: String,
    pub reaction_key: String,
    pub emoji: Option<bool>,
    pub img_url: Option<String>,
}

/// A person on or reachable through the service.
#[derive(Debug, Clone)]
pub struct User {
    pub id: String,
    pub cannot_message: Option<bool>,
    pub email: Option<String>,
    pub full_name: Option<String>,
    pub img_url: Option<String>,
    pub is_self: Option<bool>,
    pub phone_number: Option<String>,
    pub username: Option<String>,
}

/// A paginated response: one page of items and the pagination metadata.
#[derive(Debug, Clone)]
pub struct Cursor<T> {
    pub items: Vec<T>,
    pub pagination: Option<PaginationInfo>,
}

/// Pagination metadata: the opaque token identifying where the next page
/// begins, and whether more pages exist.
#[derive(Debug, Clone)]
pub struct PaginationInfo {
    pub cursor: Option<String>,
    pub limit: Option<i32>,
    pub direction: Option<String>,
    pub has_more: bool,
}

/// One page of message results.
pub type MessagesCursor = Cursor<Message>;

/// One page of chat results.
#[derive(Debug, Clone)]
pub struct ChatsCursor {
    pub items: Vec<Chat>,
    pub pagination: Option<PaginationInfo>,
}

/// A chat or conversation.
#[derive(Debug, Clone)]
pub struct Chat {
    pub id: String,
    pub account_id: String,
    pub network: String,
    pub title: String,
    /// Type of chat (single, group).
    pub chat_type: String,
    pub unread_count: i32,
    pub participants: ChatParticipants,
    pub is_archived: Option<bool>,
    pub is_muted: Option<bool>,
    pub is_pinned: Option<bool>,
    pub last_activity: Option<String>,
    /// String or number; preserved as received.
    pub last_read_message_sort_key: Option<SortKey>,
    pub local_chat_id: Option<String>,
}

/// The participants of a chat.
#[derive(Debug, Clone)]
pub struct ChatParticipants {
    pub has_more: bool,
    pub items: Vec<User>,
    pub total: i32,
}

/// A chat account added to the service.
#[derive(Debug, Clone)]
pub struct Account {
    pub account_id: String,
    pub network: String,
    pub user: User,
}

} // verus!
