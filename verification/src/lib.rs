//! Typed client library for the Beeper Desktop HTTP API.
//!
//! The heart of the library is the request execution engine: it turns a
//! logical operation (method, path, body or query parameters) into a request
//! plan, classifies failures into a typed error taxonomy, decides when a
//! failed exchange may be retried and with which backoff, and models the
//! cursor-based pagination protocol used by the list/search endpoints.
//! Everything here is ordinary data-to-data logic with contracts; the actual
//! HTTP transport is driven by the application around the library.

pub mod config;
pub mod engine;
pub mod error;
pub mod pagination;
pub mod render;
pub mod resources;
pub mod timestamp;
pub mod urls;
pub mod utils;

pub use config::Config;
pub use config::ConfigBuilder;
pub use error::Error;
pub use resources::Account;
pub use resources::AppDownloadAssetParams;
pub use resources::AppOpenParams;
pub use resources::AppSearchParams;
pub use resources::Chat;
pub use resources::ChatCreateParams;
pub use resources::ChatSearchParams;
pub use resources::ContactSearchParams;
pub use resources::Message;
pub use resources::MessageSearchParams;
pub use resources::MessageSendParams;
pub use resources::User;
pub use timestamp::Timestamp;
