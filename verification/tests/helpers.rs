//! Value helpers, rendering, timestamps and base64.

use beeper_desktop_api::render::{bool_to_string, i64_to_string, u64_to_padded_string, u64_to_string};
use chrono::TimeZone;
use beeper_desktop_api::timestamp::Timestamp;
use beeper_desktop_api::utils::{
    base64_decode, base64_encode, join_optional_strings, optional_bool, optional_i32,
    optional_query_param, optional_string, optional_usize, query_param_to_string,
    sanitize_filename, QueryValue,
};

#[test]
fn optional_constructors() {
    assert_eq!(optional_string("".to_string()), None);
    assert_eq!(optional_string("x".to_string()), Some("x".to_string()));
    assert_eq!(optional_i32(0), None);
    assert_eq!(optional_i32(-3), Some(-3));
    assert_eq!(optional_usize(0), None);
    assert_eq!(optional_usize(9), Some(9));
    assert_eq!(optional_bool(false), None);
    assert_eq!(optional_bool(true), Some(true));
}

#[test]
fn join_strings_with_separator() {
    assert_eq!(join_optional_strings(&[], ", "), None);
    assert_eq!(
        join_optional_strings(&["a".to_string()], ", "),
        Some("a".to_string())
    );
    assert_eq!(
        join_optional_strings(&["a".to_string(), "b".to_string(), "c".to_string()], ", "),
        Some("a, b, c".to_string())
    );
}

#[test]
fn integer_rendering() {
    assert_eq!(u64_to_string(0), "0");
    assert_eq!(u64_to_string(7), "7");
    assert_eq!(u64_to_string(1234567890), "1234567890");
    assert_eq!(u64_to_string(u64::MAX), "18446744073709551615");
    assert_eq!(i64_to_string(0), "0");
    assert_eq!(i64_to_string(-1), "-1");
    assert_eq!(i64_to_string(-25), "-25");
    assert_eq!(i64_to_string(i64::MIN), "-9223372036854775808");
}

#[test]
fn padded_rendering() {
    assert_eq!(u64_to_padded_string(7, 4), "0007");
    assert_eq!(u64_to_padded_string(2023, 4), "2023");
    assert_eq!(u64_to_padded_string(12345, 4), "12345");
    assert_eq!(u64_to_padded_string(0, 2), "00");
}

#[test]
fn boolean_rendering() {
    assert_eq!(bool_to_string(true), "true");
    assert_eq!(bool_to_string(false), "false");
}

#[test]
fn query_value_rendering() {
    assert_eq!(
        query_param_to_string(&QueryValue::Str("hello".to_string())),
        "hello"
    );
    assert_eq!(query_param_to_string(&QueryValue::Int(-42)), "-42");
    assert_eq!(query_param_to_string(&QueryValue::Bool(true)), "true");
    assert_eq!(
        query_param_to_string(&QueryValue::Time(Timestamp::new(2023, 1, 1, 12, 0, 0))),
        "2023-01-01T12:00:00+00:00"
    );
    assert_eq!(optional_query_param(None), None);
    assert_eq!(
        optional_query_param(Some(QueryValue::Int(25))),
        Some("25".to_string())
    );
}

#[test]
fn timestamp_rendering_matches_chrono() {
    let cases = [
        (2023u16, 1u8, 1u8, 12u8, 0u8, 0u8),
        (1999, 12, 31, 23, 59, 59),
        (2024, 2, 29, 0, 0, 1),
        (7, 3, 9, 4, 5, 6),
    ];
    for (y, mo, d, h, mi, s) in cases {
        let ours = Timestamp::new(y, mo, d, h, mi, s).to_rfc3339();
        let theirs = chrono::Utc
            .with_ymd_and_hms(y as i32, mo as u32, d as u32, h as u32, mi as u32, s as u32)
            .unwrap()
            .to_rfc3339();
        assert_eq!(ours, theirs);
    }
}

#[test]
fn sanitize_filename_replaces_unsafe_characters() {
    assert_eq!(
        sanitize_filename("discord_My Chat: part/2.md"),
        "discord_My_Chat__part_2.md"
    );
    assert_eq!(sanitize_filename("safe-name_1.md"), "safe-name_1.md");
    assert_eq!(sanitize_filename(""), "");
}

#[test]
fn base64_round_trip() {
    let data = vec![0u8, 1, 2, 250, 251, 255];
    let encoded = base64_encode(&data);
    // URL-safe alphabet, no padding.
    assert!(!encoded.contains('='));
    assert!(!encoded.contains('+'));
    assert!(!encoded.contains('/'));
    assert_eq!(base64_decode(&encoded).unwrap(), data);
}

#[test]
fn base64_encode_known_value() {
    assert_eq!(base64_encode(b"f"), "Zg");
    assert_eq!(base64_encode(b"foobar"), "Zm9vYmFy");
    assert_eq!(base64_encode(&[0xfb, 0xff]), "-_8");
}

#[test]
fn base64_decode_rejects_invalid_text() {
    assert!(base64_decode("not base64!!!").is_err());
    assert!(base64_decode("+/==").is_err());
}
