//! Tests for the pieces under the session: text, JSON documents, the keyed
//! table, the version of the program, and the gathering of a response.

use agents_sdk::codec::{decode_line, encode};
use agents_sdk::errors::ClaudeSDKError;
use agents_sdk::json::{clone_items, Json};
use agents_sdk::messages::{
    AssistantMessage, ContentBlock, Message, ResultMessage, SystemMessage, TextBlock,
};
use agents_sdk::response::{CollectStep, ResponseCollector};
use agents_sdk::table::KeyedTable;
use agents_sdk::text::{i64_to_string, join_chunks, parse_u64, str_eq, u64_to_string};
use agents_sdk::version::{is_below_minimum, version_from_output, MIN_CLI_VERSION, VERSION};

#[test]
fn test_str_eq() {
    assert!(str_eq("", ""));
    assert!(str_eq("type", "type"));
    assert!(!str_eq("type", "typo"));
    assert!(!str_eq("type", "types"));
    assert!(!str_eq("a", ""));
    assert!(str_eq("h\u{e9}llo \u{1f600}", "h\u{e9}llo \u{1f600}"));
    assert!(!str_eq("h\u{e9}llo", "hello"));
}

#[test]
fn test_decimal_numerals() {
    assert_eq!(u64_to_string(0), "0");
    assert_eq!(u64_to_string(7), "7");
    assert_eq!(u64_to_string(10), "10");
    assert_eq!(u64_to_string(1234567890), "1234567890");
    assert_eq!(u64_to_string(u64::MAX), "18446744073709551615");
    assert_eq!(i64_to_string(0), "0");
    assert_eq!(i64_to_string(-1), "-1");
    assert_eq!(i64_to_string(i64::MAX), "9223372036854775807");
    assert_eq!(i64_to_string(i64::MIN), "-9223372036854775808");
}

#[test]
fn test_parse_u64() {
    assert_eq!(parse_u64("0"), Some(0));
    assert_eq!(parse_u64("42"), Some(42));
    assert_eq!(parse_u64("18446744073709551615"), Some(u64::MAX));
    assert_eq!(parse_u64("18446744073709551616"), None);
    assert_eq!(parse_u64("99999999999999999999999"), None);
    assert_eq!(parse_u64(""), None);
    assert_eq!(parse_u64("007"), None);
    assert_eq!(parse_u64("00"), None);
    assert_eq!(parse_u64("-1"), None);
    assert_eq!(parse_u64("+1"), None);
    assert_eq!(parse_u64("1.0"), None);
    assert_eq!(parse_u64("1e3"), None);
    assert_eq!(parse_u64(" 1"), None);
    assert_eq!(parse_u64("\u{661}"), None);
    for n in [0u64, 9, 10, 99, 100, 65535, 4294967296, u64::MAX - 1] {
        assert_eq!(parse_u64(&u64_to_string(n)), Some(n));
    }
}

#[test]
fn test_concat_and_join() {
    assert_eq!(agents_sdk::text::concat("IO error: ", "x"), "IO error: x");
    assert_eq!(agents_sdk::text::concat("", ""), "");
    assert_eq!(join_chunks(&vec!["a", "", "bc"]), "abc");
}

#[test]
fn test_json_lookup() {
    let doc = decode_line(r#"{"a": 1, "b": "two", "c": [true, null], "d": {"e": false}}"#).unwrap();
    assert_eq!(doc.get_u64("a"), Some(1));
    assert_eq!(doc.get_str("b"), Some("two"));
    assert_eq!(doc.get_string("b"), Some("two".to_string()));
    assert_eq!(doc.get("c").unwrap().as_array().unwrap().len(), 2);
    assert_eq!(doc.get("d").unwrap().get_bool("e"), Some(false));
    assert!(doc.get("z").is_none());
    assert!(doc.get_str("a").is_none());
    assert!(doc.get_u64("b").is_none());
    assert!(doc.is_object());
    // a document that is no object has no members
    assert!(Json::string("x").get("a").is_none());
    assert!(Json::Array(vec![]).get("0").is_none());
    assert!(!Json::Null.is_object());
    assert!(Json::Null.is_null());
    assert!(!Json::Bool(false).is_null());
    assert_eq!(doc.get_either("a", "b").unwrap().as_u64(), Some(1));
    assert_eq!(doc.get_either("y", "b").unwrap().as_str(), Some("two"));
    assert!(doc.get_either("y", "z").is_none());
}

#[test]
fn test_json_later_member_hides_earlier() {
    let mut doc = Json::object();
    doc.insert("k", Json::from_u64(1));
    doc.insert("other", Json::Null);
    doc.insert("k", Json::from_u64(2));
    assert_eq!(doc.get_u64("k"), Some(2));
    assert_eq!(encode(&doc).unwrap(), r#"{"k":2,"other":null}"#);
    // inserting into a document that is no object changes nothing
    let mut text = Json::string("t");
    text.insert("k", Json::Null);
    assert_eq!(text, Json::string("t"));
    let mut with_opt = Json::object();
    with_opt.insert_opt("gone", None);
    with_opt.insert_opt("here", Some(Json::Bool(true)));
    assert_eq!(encode(&with_opt).unwrap(), r#"{"here":true}"#);
}

#[test]
fn test_json_optional_fields() {
    let doc = decode_line(r#"{"s": "x", "n": null, "b": true, "a": [1], "o": {}}"#).unwrap();
    assert_eq!(doc.opt_str_field("s"), Some(Some("x".to_string())));
    assert_eq!(doc.opt_str_field("n"), Some(None));
    assert_eq!(doc.opt_str_field("missing"), Some(None));
    assert_eq!(doc.opt_str_field("b"), None);
    assert_eq!(doc.opt_bool_field("b"), Some(Some(true)));
    assert_eq!(doc.opt_bool_field("n"), Some(None));
    assert_eq!(doc.opt_bool_field("s"), None);
    assert_eq!(doc.opt_array_field("a").unwrap().unwrap().len(), 1);
    assert_eq!(doc.opt_array_field("n"), Some(None));
    assert_eq!(doc.opt_array_field("o"), None);
    assert_eq!(doc.opt_field("o"), Some(Json::object()));
    assert_eq!(doc.opt_field("n"), None);
    assert_eq!(doc.opt_field("missing"), None);
    assert_eq!(Json::of_opt_str(&None), Json::Null);
    assert_eq!(Json::of_opt_str(&Some("v".to_string())), Json::string("v"));
    assert_eq!(Json::of_opt(&None), Json::Null);
    assert_eq!(Json::of_opt_array(&Some(vec![Json::Null])), Json::Array(vec![Json::Null]));
    assert_eq!(Json::of_opt_array(&None), Json::Null);
    assert_eq!(
        Json::of_strings(&vec!["a".to_string()]),
        Json::Array(vec![Json::string("a")])
    );
}

#[test]
fn test_json_rename_member() {
    let mut doc = decode_line(r#"{"async_": true, "keep": 1, "async": false}"#).unwrap();
    doc.rename_member("async_", "async");
    assert_eq!(encode(&doc).unwrap(), r#"{"async":true,"keep":1}"#);
    assert!(doc.get("async_").is_none());
    // without a member of that name nothing changes
    let before = doc.clone();
    doc.rename_member("continue_", "continue");
    assert_eq!(doc, before);
    let mut text = Json::string("async_");
    text.rename_member("async_", "async");
    assert_eq!(text, Json::string("async_"));
}

#[test]
fn test_json_numbers_and_copies() {
    let doc = decode_line(r#"[0, 12, -3, 1.5, 1e2, 18446744073709551615]"#).unwrap();
    let items = doc.as_array().unwrap();
    assert_eq!(items[0].as_u64(), Some(0));
    assert_eq!(items[1].as_u64(), Some(12));
    assert_eq!(items[2].as_u64(), None);
    assert_eq!(items[3].as_u64(), None);
    assert_eq!(items[4].as_u64(), None);
    assert_eq!(items[5].as_u64(), Some(u64::MAX));
    assert_eq!(items[3], Json::Number("1.5".to_string()));
    assert_eq!(encode(&doc).unwrap(), "[0,12,-3,1.5,100.0,18446744073709551615]");
    assert_eq!(clone_items(items), *items);
    assert_eq!(doc.clone(), doc);
    assert_eq!(Json::from_u64(77), Json::Number("77".to_string()));
    assert!(Json::Bool(true).as_bool().unwrap());
    assert!(Json::Null.as_bool().is_none());
    assert!(Json::Null.as_str().is_none());
    assert!(Json::Null.as_array().is_none());
}

#[test]
fn test_decode_and_encode_lines() {
    assert!(decode_line("").is_err());
    assert!(decode_line("{").is_err());
    assert!(decode_line(r#"{"a":1} trailing"#).is_err());
    assert_eq!(decode_line("null").unwrap(), Json::Null);
    assert_eq!(decode_line(" true ").unwrap(), Json::Bool(true));
    assert_eq!(
        decode_line(r#""aé\n""#).unwrap(),
        Json::string("a\u{e9}\n")
    );
    // members come back in the order of their names, each name once
    let doc = decode_line(r#"{"b": 1, "a": 2, "b": 3}"#).unwrap();
    assert_eq!(
        doc,
        Json::Object(vec![
            ("a".to_string(), Json::from_u64(2)),
            ("b".to_string(), Json::from_u64(3)),
        ])
    );
    assert_eq!(encode(&Json::Number("1.50".to_string())).unwrap(), "1.5");
    assert!(encode(&Json::Number("".to_string())).is_none());
    assert!(encode(&Json::Number("0x10".to_string())).is_none());
    assert!(encode(&Json::Array(vec![Json::Number("nope".to_string())])).is_none());
    assert_eq!(
        encode(&Json::string("quote\" slash\\ tab\t")).unwrap(),
        r#""quote\" slash\\ tab\t""#
    );
}

#[test]
fn test_keyed_table() {
    let mut table: KeyedTable<u32> = KeyedTable::new();
    assert!(table.is_empty());
    assert!(table.get("a").is_none());
    assert_eq!(table.insert("a".to_string(), 1), None);
    assert_eq!(table.insert("b".to_string(), 2), None);
    assert!(!table.is_empty());
    assert!(table.contains_key("a"));
    assert_eq!(table.get("b"), Some(&2));
    // a key stands once: the new value takes the place of the old
    assert_eq!(table.insert("a".to_string(), 10), Some(1));
    assert_eq!(table.get("a"), Some(&10));
    assert_eq!(table.remove("zz"), None);
    assert_eq!(table.remove("b"), Some(2));
    assert_eq!(table.remove("b"), None);
    assert!(!table.contains_key("b"));
    table.insert("c".to_string(), 3);
    let mut all = table.take_all();
    all.sort();
    assert_eq!(all, vec![("a".to_string(), 10), ("c".to_string(), 3)]);
    assert!(table.is_empty());
    assert!(table.take_all().is_empty());
}

#[test]
fn test_version_from_output() {
    assert_eq!(version_from_output("2.0.1 (Agent Code)\n"), "Code)");
    assert_eq!(version_from_output("agent 2.1.0"), "2.1.0");
    assert_eq!(version_from_output("tool version 1.4.2  \r\nnext line 9"), "1.4.2");
    assert_eq!(version_from_output("3.0.0\n"), "3.0.0");
    assert_eq!(version_from_output(""), "unknown");
    assert_eq!(version_from_output("\n2.0.0"), "unknown");
    assert_eq!(version_from_output("   \t "), "unknown");
    assert_eq!(version_from_output("a\u{a0}b\u{3000}c"), "c");
    assert_eq!(version_from_output("caf\u{e9} 1.0"), "1.0");
}

#[test]
fn test_is_below_minimum() {
    assert_eq!(MIN_CLI_VERSION, "2.0.0");
    assert!(!VERSION.is_empty());
    assert!(is_below_minimum("1.9.9"));
    assert!(is_below_minimum("0.0.1"));
    assert!(is_below_minimum("2.0.0-beta.1"));
    assert!(!is_below_minimum("2.0.0"));
    assert!(!is_below_minimum("2.0.1"));
    assert!(!is_below_minimum("10.0.0"));
    // a text that is no version is not held to be older
    assert!(!is_below_minimum("unknown"));
    assert!(!is_below_minimum("1.9"));
    assert!(!is_below_minimum(""));
}

fn assistant(text: &str) -> Result<Message, ClaudeSDKError> {
    Ok(Message::Assistant(AssistantMessage {
        content: vec![ContentBlock::Text(TextBlock {
            text: text.to_string(),
        })],
        model: "m".to_string(),
        parent_tool_use_id: None,
        error: None,
    }))
}

fn final_result() -> Result<Message, ClaudeSDKError> {
    Ok(Message::Result(ResultMessage {
        subtype: "success".to_string(),
        duration_ms: 1,
        duration_api_ms: 1,
        is_error: false,
        num_turns: 4,
        session_id: "s".to_string(),
        total_cost_usd: None,
        usage: None,
        result: None,
        structured_output: None,
    }))
}

#[test]
fn test_response_collector() {
    let mut collector = ResponseCollector::new();
    assert_eq!(collector.text(), "");
    assert!(matches!(collector.accept(assistant("Hello")), CollectStep::Continue));
    assert!(matches!(collector.accept(assistant("")), CollectStep::Continue));
    let system = Ok(Message::System(SystemMessage {
        subtype: "init".to_string(),
        data: agents_sdk::json::Json::Null,
    }));
    assert!(matches!(collector.accept(system), CollectStep::Continue));
    assert!(matches!(collector.accept(assistant(", world")), CollectStep::Continue));
    assert_eq!(collector.text(), "Hello, world");
    match collector.accept(final_result()) {
        CollectStep::Done(text, result) => {
            assert_eq!(text, "Hello, world");
            assert_eq!(result.num_turns, 4);
        }
        other => panic!("Expected the end of the run, got {:?}", other),
    }
}

#[test]
fn test_response_collector_failures() {
    let mut collector = ResponseCollector::new();
    collector.accept(assistant("partial"));
    match collector.accept(Err(ClaudeSDKError::timeout(9))) {
        CollectStep::Failed(e) => assert_eq!(e.to_string(), "Operation timed out after 9ms"),
        other => panic!("Expected a failure, got {:?}", other),
    }
    assert_eq!(collector.text(), "partial");
    assert_eq!(
        ResponseCollector::closed_without_result().to_string(),
        "Internal error: Connection closed without result"
    );
    assert_eq!(
        ResponseCollector::completed_without_result().to_string(),
        "Internal error: Query completed without result message"
    );
}
