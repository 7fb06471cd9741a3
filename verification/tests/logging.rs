use std::borrow::Cow;

use tauri_app_lib::logging::{field, is_sensitive_key, redact};

#[test]
fn redact_keeps_edges_and_hides_the_middle() {
    assert_eq!(redact("sk-abcdefghij"), "sk***ij");
}

#[test]
fn redact_fully_masks_short_values() {
    assert_eq!(redact("abcd"), "****");
    assert_eq!(redact("ab"), "**");
    assert_eq!(redact(""), "");
}

#[test]
fn redact_is_char_based_not_byte_based() {
    assert_eq!(redact("密钥一二三四五六"), "密钥***五六");
}

#[test]
fn redact_five_characters_and_equal_edges() {
    assert_eq!(redact("abcde"), "ab***de");
    assert_eq!(redact("ab1234de"), redact("abXYZWde"));
    assert_eq!(redact("abXde"), redact("ab12345678de"));
    assert_eq!(redact("中文"), "**");
}

#[test]
fn sensitive_keys_are_detected_case_insensitively() {
    for key in [
        "password",
        "PASSWORD",
        "user_token",
        "X-Authorization",
        "apiKey",
    ] {
        assert!(is_sensitive_key(key), "{key} 应被判为敏感字段");
    }
    for key in ["name", "quantity", "note", "id"] {
        assert!(!is_sensitive_key(key), "{key} 不该被判为敏感字段");
    }
}

#[test]
fn sensitive_key_hints_each_match() {
    for key in ["passwd", "MySecret", "TOKEN", "apikey_v2", "authorization"] {
        assert!(is_sensitive_key(key), "{key}");
    }
    for key in ["", "pass", "api_key", "tok", "secre"] {
        assert!(!is_sensitive_key(key), "{key}");
    }
}

#[test]
fn field_only_masks_sensitive_names() {
    assert!(matches!(field("name", "hello"), Cow::Borrowed("hello")));
    assert_eq!(field("token", "abcdefghij").as_ref(), "ab***ij");
}

#[test]
fn field_masks_on_case_variants() {
    assert!(matches!(field("X-API-KEY-ish", "value"), Cow::Borrowed("value")));
    assert!(matches!(field("Password", "hunter22"), Cow::Owned(ref s) if s == "hu***22"));
}
