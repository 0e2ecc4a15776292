use composite_llm::ids::{generate_chat_cmpl_id, generate_tool_call_id, timestamp_from_secs, unix_timestamp};
use composite_llm::json::{json_or_empty_object, json_or_result_object};
use composite_llm::text::join_with_newline;

#[test]
fn ids_have_prefix_and_hex_tail() {
    let a = generate_chat_cmpl_id();
    let b = generate_chat_cmpl_id();
    assert!(a.starts_with("chatcmpl-"));
    assert_eq!(a.len(), 41);
    assert!(a[9..].chars().all(|c| c.is_ascii_hexdigit()));
    assert_ne!(a, b);
    let t = generate_tool_call_id();
    assert!(t.starts_with("call_"));
    assert_eq!(t.len(), 37);
}

#[test]
fn timestamps() {
    assert_eq!(timestamp_from_secs(None), 0);
    assert_eq!(timestamp_from_secs(Some(1_700_000_000)), 1_700_000_000);
    assert_eq!(timestamp_from_secs(Some((1u64 << 32) + 5)), 5);
    assert!(unix_timestamp() > 1_600_000_000);
}

#[test]
fn json_fallbacks() {
    assert_eq!(json_or_empty_object(&"{\"a\":[1,2]}".to_string()), "{\"a\":[1,2]}");
    assert_eq!(json_or_empty_object(&"{\"a\":".to_string()), "{}");
    assert_eq!(json_or_empty_object(&"".to_string()), "{}");
    assert_eq!(json_or_result_object(&"42".to_string()), "42");
    assert_eq!(json_or_result_object(&"a\nb".to_string()), "{\"result\":\"a\\nb\"}");
}

#[test]
fn newline_join() {
    assert_eq!(join_with_newline(&vec![]), "");
    assert_eq!(join_with_newline(&vec!["a".to_string()]), "a");
    assert_eq!(join_with_newline(&vec!["a".to_string(), "".to_string(), "c".to_string()]), "a\n\nc");
}
