//! Query encoding: indexed list expansion and the message/contact search
//! parameter encodings.

use beeper_desktop_api::resources::{ContactSearchParams, MessageSearchParams};
use beeper_desktop_api::timestamp::Timestamp;
use beeper_desktop_api::utils::slice_to_indexed_params;

fn pairs(v: &[(&str, &str)]) -> Vec<(String, String)> {
    v.iter().map(|(k, val)| (k.to_string(), val.to_string())).collect()
}

/// Encoding `["a", "b"]` under `"ids"` yields exactly
/// `[("ids[0]", "a"), ("ids[1]", "b")]`, in that order.
#[test]
fn indexed_params_round_trip() {
    let values = vec!["a".to_string(), "b".to_string()];
    let encoded = slice_to_indexed_params("ids", &values);
    assert_eq!(encoded, pairs(&[("ids[0]", "a"), ("ids[1]", "b")]));
}

/// An empty list yields no pairs.
#[test]
fn indexed_params_empty_list() {
    let encoded = slice_to_indexed_params("ids", &[]);
    assert_eq!(encoded, vec![]);
}

#[test]
fn indexed_params_ten_or_more_elements() {
    let values: Vec<String> = (0..12).map(|i| format!("v{}", i)).collect();
    let encoded = slice_to_indexed_params("k", &values);
    assert_eq!(encoded.len(), 12);
    assert_eq!(encoded[10], ("k[10]".to_string(), "v10".to_string()));
    assert_eq!(encoded[11], ("k[11]".to_string(), "v11".to_string()));
}

#[test]
fn message_search_query_encoding() {
    let mut params = MessageSearchParams::new();
    params.account_ids = vec!["account-1".to_string(), "account-2".to_string()];
    params.chat_ids = vec!["chat-1".to_string()];
    params.limit = Some(25);
    params.direction = Some("before".to_string());
    params.include_muted = Some(true);
    assert_eq!(
        params.query_pairs(),
        pairs(&[
            ("accountIDs[0]", "account-1"),
            ("accountIDs[1]", "account-2"),
            ("chatIDs[0]", "chat-1"),
            ("direction", "before"),
            ("includeMuted", "true"),
            ("limit", "25"),
        ])
    );
}

#[test]
fn complex_search_parameters_encode_in_declaration_order() {
    let mut params = MessageSearchParams::new();
    params.account_ids = vec!["acc1".to_string(), "acc2".to_string()];
    params.chat_ids = vec!["chat1".to_string()];
    params.sender_ids = vec!["user1".to_string()];
    params.media_types = vec!["image".to_string(), "video".to_string()];
    params.query = Some("hello world".to_string());
    params.limit = Some(10);
    params.direction = Some("before".to_string());
    params.include_muted = Some(true);
    params.exclude_low_priority = Some(false);
    assert_eq!(
        params.query_pairs(),
        pairs(&[
            ("accountIDs[0]", "acc1"),
            ("accountIDs[1]", "acc2"),
            ("chatIDs[0]", "chat1"),
            ("senderIDs[0]", "user1"),
            ("mediaTypes[0]", "image"),
            ("mediaTypes[1]", "video"),
            ("direction", "before"),
            ("excludeLowPriority", "false"),
            ("includeMuted", "true"),
            ("limit", "10"),
            ("query", "hello world"),
        ])
    );
}

#[test]
fn message_search_dates_use_fixed_rfc3339() {
    let mut params = MessageSearchParams::new();
    params.date_after = Some(Timestamp::new(2023, 1, 1, 12, 0, 0));
    params.date_before = Some(Timestamp::new(2023, 12, 31, 23, 59, 59));
    params.cursor = Some("cursor_page2".to_string());
    assert_eq!(
        params.query_pairs(),
        pairs(&[
            ("cursor", "cursor_page2"),
            ("dateAfter", "2023-01-01T12:00:00+00:00"),
            ("dateBefore", "2023-12-31T23:59:59+00:00"),
        ])
    );
}

#[test]
fn empty_message_search_encodes_to_nothing() {
    assert_eq!(MessageSearchParams::new().query_pairs(), vec![]);
}

#[test]
fn contact_search_query_encoding() {
    let params = ContactSearchParams {
        account_id: "discord_123".to_string(),
        query: "john".to_string(),
    };
    assert_eq!(
        params.query_pairs(),
        pairs(&[("accountID", "discord_123"), ("query", "john")])
    );
}
