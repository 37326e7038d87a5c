//! Message-area data shapes and the message search query encoding: every
//! set field becomes query pairs in declaration order, list fields expand
//! to indexed keys, and absent optional fields are omitted entirely.

use vstd::prelude::*;
use crate::render::bool_chars;
use crate::render::bool_to_string;
use crate::render::dec_int;
use crate::render::i64_to_string;
use crate::timestamp::Timestamp;
use crate::utils::slice_to_indexed_params;
use crate::utils::spec_indexed_params;

verus! {

/// The pairs an optional string field contributes: one, or none.
pub open spec fn spec_opt_str_pairs(key: Seq<char>, v: Option<String>) -> Seq<
    (Seq<char>, Seq<char>),
> {
    match v {
        Some(s) => seq![(key, s@)],
        None => Seq::empty(),
    }
}

/// The pairs an optional boolean field contributes: one, rendered
/// `true`/`false`, or none.
pub open spec fn spec_opt_bool_pairs(key: Seq<char>, v: Option<bool>) -> Seq<
    (Seq<char>, Seq<char>),
> {
    match v {
        Some(b) => seq![(key, bool_chars(b))],
        None => Seq::empty(),
    }
}

/// The pairs an optional integer field contributes: one, in base 10, or none.
pub open spec fn spec_opt_i32_pairs(key: Seq<char>, v: Option<i32>) -> Seq<(Seq<char>, Seq<char>)> {
    match v {
        Some(i) => seq![(key, dec_int(i as int))],
        None => Seq::empty(),
    }
}

/// The pairs an optional timestamp field contributes: one, in the fixed
/// RFC 3339 UTC representation, or none.
pub open spec fn spec_opt_time_pairs(key: Seq<char>, v: Option<Timestamp>) -> Seq<
    (Seq<char>, Seq<char>),
> {
    match v {
        Some(t) => seq![(key, t.spec_rfc3339())],
        None => Seq::empty(),
    }
}

fn push_opt_str(out: &mut Vec<(String, String)>, key: &str, v: &Option<String>)
    ensures
        final(out).deep_view() == old(out).deep_view() + spec_opt_str_pairs(key@, *v),
{
    match v {
        Some(s) => {
            out.push((String::from_str(key), s.clone()));
        },
        None => {},
    }
    proof {
        assert(out.deep_view() =~~= old(out).deep_view() + spec_opt_str_pairs(key@, *v));
    }
}

fn push_opt_bool(out: &mut Vec<(String, String)>, key: &str, v: &Option<bool>)
    ensures
        final(out).deep_view() == old(out).deep_view() + spec_opt_bool_pairs(key@, *v),
{
    match v {
        Some(b) => {
            out.push((String::from_str(key), bool_to_string(*b)));
        },
        None => {},
    }
    proof {
        assert(out.deep_view() =~~= old(out).deep_view() + spec_opt_bool_pairs(key@, *v));
    }
}

fn push_opt_i32(out: &mut Vec<(String, String)>, key: &str, v: &Option<i32>)
    ensures
        final(out).deep_view() == old(out).deep_view() + spec_opt_i32_pairs(key@, *v),
{
    match v {
        Some(i) => {
            out.push((String::from_str(key), i64_to_string(*i as i64)));
        },
        None => {},
    }
    proof {
        assert(out.deep_view() =~~= old(out).deep_view() + spec_opt_i32_pairs(key@, *v));
    }
}

fn push_opt_time(out: &mut Vec<(String, String)>, key: &str, v: &Option<Timestamp>)
    ensures
        final(out).deep_view() == old(out).deep_view() + spec_opt_time_pairs(key@, *v),
{
    match v {
        Some(t) => {
            out.push((String::from_str(key), t.to_rfc3339()));
        },
        None => {},
    }
    proof {
        assert(out.deep_view() =~~= old(out).deep_view() + spec_opt_time_pairs(key@, *v));
    }
}

fn push_indexed(out: &mut Vec<(String, String)>, key: &str, values: &Vec<String>)
    ensures
        final(out).deep_view() == old(out).deep_view() + spec_indexed_params(key@, values.deep_view()),
{
    let values_slice = values.as_slice();
    let mut pairs = slice_to_indexed_params(key, values_slice);
    proof {
        assert(values_slice.deep_view() =~~= values.deep_view());
    }
    out.append(&mut pairs);
    proof {
        assert(out.deep_view() =~~= old(out).deep_view() + spec_indexed_params(
            key@,
            values.deep_view(),
        ));
    }
}

/// Parameters for searching messages across chats.
#[derive(Debug, Clone)]
pub struct MessageSearchParams {
    pub account_ids: Vec<String>,
    pub chat_ids: Vec<String>,
    pub chat_type: Option<String>,
    pub cursor: Option<String>,
    pub date_after: Option<Timestamp>,
    pub date_before: Option<Timestamp>,
    pub direction: Option<String>,
    pub exclude_low_priority: Option<bool>,
    pub include_muted: Option<bool>,
    pub limit: Option<i32>,
    pub media_types: Vec<String>,
    pub query: Option<String>,
    pub sender_ids: Vec<String>,
}

impl MessageSearchParams {
    /// Create search parameters with nothing constrained.
    pub fn new() -> (r: Self)
        ensures
            r.account_ids@ == Seq::<String>::empty(),
            r.chat_ids@ == Seq::<String>::empty(),
            r.media_types@ == Seq::<String>::empty(),
            r.sender_ids@ == Seq::<String>::empty(),
            r.chat_type is None,
            r.cursor is None,
            r.date_after is None,
            r.date_before is None,
            r.direction is None,
            r.exclude_low_priority is None,
            r.include_muted is None,
            r.limit is None,
            r.query is None,
    {
        MessageSearchParams {
            account_ids: Vec::new(),
            chat_ids: Vec::new(),
            chat_type: None,
            cursor: None,
            date_after: None,
            date_before: None,
            direction: None,
            exclude_low_priority: None,
            include_muted: None,
            limit: None,
            media_types: Vec::new(),
            query: None,
            sender_ids: Vec::new(),
        }
    }

    /// Every pair a message search contributes, in declaration order: the
    /// four list fields expanded to indexed keys, then each optional scalar
    /// that is present.
    pub open spec fn spec_query_pairs(self) -> Seq<(Seq<char>, Seq<char>)> {
        spec_indexed_params("accountIDs"@, self.account_ids.deep_view()) + spec_indexed_params(
            "chatIDs"@,
            self.chat_ids.deep_view(),
        ) + spec_indexed_params("senderIDs"@, self.sender_ids.deep_view()) + spec_indexed_params(
            "mediaTypes"@,
            self.media_types.deep_view(),
        ) + spec_opt_str_pairs("chatType"@, self.chat_type) + spec_opt_str_pairs(
            "cursor"@,
            self.cursor,
        ) + spec_opt_time_pairs("dateAfter"@, self.date_after) + spec_opt_time_pairs(
            "dateBefore"@,
            self.date_before,
        ) + spec_opt_str_pairs("direction"@, self.direction) + spec_opt_bool_pairs(
            "excludeLowPriority"@,
            self.exclude_low_priority,
        ) + spec_opt_bool_pairs("includeMuted"@, self.include_muted) + spec_opt_i32_pairs(
            "limit"@,
            self.limit,
        ) + spec_opt_str_pairs("query"@, self.query)
    }

    /// Encode these parameters as ordered query pairs.
    pub fn query_pairs(&self) -> (r: Vec<(String, String)>)
        ensures
            r.deep_view() == self.spec_query_pairs(),
    {
        let mut out: Vec<(String, String)> = Vec::new();
        push_indexed(&mut out, "accountIDs", &self.account_ids);
        push_indexed(&mut out, "chatIDs", &self.chat_ids);
        push_indexed(&mut out, "senderIDs", &self.sender_ids);
        push_indexed(&mut out, "mediaTypes", &self.media_types);
        push_opt_str(&mut out, "chatType", &self.chat_type);
        push_opt_str(&mut out, "cursor", &self.cursor);
        push_opt_time(&mut out, "dateAfter", &self.date_after);
        push_opt_time(&mut out, "dateBefore", &self.date_before);
        push_opt_str(&mut out, "direction", &self.direction);
        push_opt_bool(&mut out, "excludeLowPriority", &self.exclude_low_priority);
        push_opt_bool(&mut out, "includeMuted", &self.include_muted);
        push_opt_i32(&mut out, "limit", &self.limit);
        push_opt_str(&mut out, "query", &self.query);
        proof {
            assert(out.deep_view() =~~= self.spec_query_pairs());
        }
        out
    }
}

/// Parameters for sending a text message to a chat.
#[derive(Debug, Clone)]
pub struct MessageSendParams {
    pub chat_id: String,
    pub text: String,
    pub reply_to_id: Option<String>,
    pub attachment: Option<String>,
}

/// The response from sending a message.
#[derive(Debug, Clone)]
pub struct MessageSendResponse {
    pub message_id: String,
    pub deeplink: String,
    pub success: bool,
    pub error: Option<String>,
}

} // verus!
