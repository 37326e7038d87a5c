//! The data shapes of each API area: shared records, and the parameter and
//! response types of the chat, message, contact, app and token operations.

pub mod app;
pub mod chats;
pub mod contacts;
pub mod messages;
pub mod shared;
pub mod token;

pub use app::AppDownloadAssetParams;
pub use app::AppDownloadAssetResponse;
pub use app::AppOpenParams;
pub use app::AppOpenResponse;
pub use app::AppSearchParams;
pub use app::AppSearchResponse;
pub use app::ChatSearchResult;
pub use app::MessageSearchResult;
pub use chats::ChatArchiveParams;
pub use chats::ChatCreateParams;
pub use chats::ChatCreateResponse;
pub use chats::ChatRetrieveParams;
pub use chats::ChatSearchParams;
pub use chats::ReminderCreateParams;
pub use chats::ReminderDeleteParams;
pub use contacts::ContactSearchParams;
pub use contacts::ContactSearchResponse;
pub use messages::MessageSearchParams;
pub use messages::MessageSendParams;
pub use messages::MessageSendResponse;
pub use shared::Account;
pub use shared::Attachment;
pub use shared::AttachmentSize;
pub use shared::BaseResponse;
pub use shared::Chat;
pub use shared::ChatParticipants;
pub use shared::ChatsCursor;
pub use shared::Cursor;
pub use shared::ErrorResponse;
pub use shared::Message;
pub use shared::MessagesCursor;
pub use shared::PaginationInfo;
pub use shared::Reaction;
pub use shared::SortKey;
pub use shared::User;
pub use token::RevokeRequest;
pub use token::UserInfo;
