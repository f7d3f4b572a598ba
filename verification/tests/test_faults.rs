//! Tests for what the session does with bad input: lines that are no JSON,
//! documents that cannot be read, a stopped session, and the time limit.

use agents_sdk::client::{InternalClient, QueryPlan};
use agents_sdk::codec::{decode_line, encode};
use agents_sdk::control::{ControlRequest, ControlResponse};
use agents_sdk::dispatch::{hook_reply, permission_reply, CallbackOutcome};
use agents_sdk::errors::ClaudeSDKError;
use agents_sdk::fault::{failure_text, field_fault, first, unknown_variant_text, FieldKind};
use agents_sdk::hooks::{HookCallback, HookEvent, HookInput, HookMatcher, HookOutput};
use agents_sdk::json::Json;
use agents_sdk::message_parser::{parse_control_request, parse_control_response};
use agents_sdk::messages::Message;
use agents_sdk::options::ClaudeAgentOptions;
use agents_sdk::permission::{CanUseTool, PermissionResult};
use agents_sdk::query::{Query, ReaderAction, ReaderInput};
use agents_sdk::registry::register_hooks;
use agents_sdk::table::KeyedTable;
use agents_sdk::version::is_older;

fn fault_doc(text: &str) -> Json {
    decode_line(text).unwrap()
}

fn reply_line(doc: &Json) -> String {
    encode(doc).unwrap()
}

#[test]
fn test_malformed_line_does_not_end_the_loop() {
    let mut session: Query<u32> = Query::new(&ClaudeAgentOptions::new());
    session.start().unwrap();
    let pending = session.interrupt(7).ok().unwrap().request_id;

    let failure = decode_line("{not json").unwrap_err();
    match session.read_step(false, ReaderInput::Failed(failure)) {
        ReaderAction::Forward(Err(ClaudeSDKError::JSONDecode { raw_data, .. })) => {
            assert_eq!(raw_data, Some("{not json".to_string()));
        }
        other => panic!("Expected the failure to be forwarded, got {:?}", other),
    }
    // nothing was aborted, and the next document is routed as ever
    assert!(session.is_pending(&pending));
    assert!(session.is_started());
    let next = fault_doc(r#"{"type":"system","subtype":"init"}"#);
    match session.read_step(false, ReaderInput::Value(next)) {
        ReaderAction::Forward(Ok(Message::System(m))) => assert_eq!(m.subtype, "init"),
        other => panic!("Expected the message to be forwarded, got {:?}", other),
    }
    assert!(session.is_pending(&pending));
}

#[test]
fn test_other_read_failures_end_the_loop() {
    let mut session: Query<u32> = Query::new(&ClaudeAgentOptions::new());
    let pending = session.interrupt(7).ok().unwrap().request_id;
    let failure = ClaudeSDKError::from(std::io::Error::new(
        std::io::ErrorKind::BrokenPipe,
        "pipe closed",
    ));
    match session.read_step(false, ReaderInput::Failed(failure)) {
        ReaderAction::Terminate { failure, aborted } => {
            assert_eq!(failure.to_string(), "IO error: pipe closed");
            assert_eq!(aborted, vec![(pending.clone(), 7)]);
        }
        other => panic!("Expected the loop to end, got {:?}", other),
    }
    assert!(!session.is_pending(&pending));
}

#[test]
fn test_stopped_session_routes_nothing() {
    let mut session: Query<u32> = Query::new(&ClaudeAgentOptions::new());
    session.start().unwrap();
    assert!(!session.is_stopped());
    let id = session.interrupt(3).ok().unwrap().request_id;
    let stop = session.stop();
    assert!(stop.signal_reader);
    assert_eq!(stop.aborted, vec![(id, 3)]);
    assert!(session.is_stopped());

    let message = fault_doc(r#"{"type":"system","subtype":"init"}"#);
    assert!(matches!(session.route(&message), ReaderAction::Exit));
    assert!(matches!(
        session.read_step(false, ReaderInput::Value(message)),
        ReaderAction::Exit
    ));
    assert!(matches!(
        session.read_step(false, ReaderInput::Ended),
        ReaderAction::Exit
    ));
    let request = fault_doc(
        r#"{"type":"control_request","request_id":"p","request":{"subtype":"interrupt"}}"#,
    );
    assert!(matches!(session.route(&request), ReaderAction::Exit));
}

#[test]
fn test_timeout_in_milliseconds() {
    let mut session: Query<u32> = Query::new(&ClaudeAgentOptions::new());
    session.set_timeout_millis(50);
    assert_eq!(session.timeout_duration(), Some(50));
    let id = session.interrupt(5).ok().unwrap().request_id;
    let (slot, error) = session.handle_timeout(&id);
    assert_eq!(slot, Some(5));
    assert!(matches!(error, ClaudeSDKError::Timeout { duration_ms: 50 }));
    assert_eq!(error.to_string(), "Operation timed out after 50ms");
    assert!(!session.is_pending(&id));
    // a second timeout of the same request finds nothing
    assert_eq!(session.handle_timeout(&id).0, None);

    session.set_timeout_millis(0);
    assert_eq!(session.timeout_duration(), None);
}

#[test]
fn test_fresh_id_is_not_pending() {
    let mut session: Query<u32> = Query::new(&ClaudeAgentOptions::new());
    let mut seen: Vec<String> = Vec::new();
    for slot in 0..50u32 {
        let out = session.set_model("m", slot).ok().unwrap();
        assert!(!seen.contains(&out.request_id));
        assert!(session.is_pending(&out.request_id));
        seen.push(out.request_id);
    }
    for id in &seen {
        assert!(session.is_pending(id));
    }
}

#[test]
fn test_plain_documents_are_always_written() {
    let session: Query<u32> = Query::new(&ClaudeAgentOptions::new());
    assert_eq!(
        session.send_message("hi \"there\"").unwrap(),
        r#"{"message":{"content":"hi \"there\"","role":"user"},"parent_tool_use_id":null,"session_id":"default","type":"user"}"#
    );
    let mut doc = Json::object();
    doc.insert("n", Json::from_u64(u64::MAX));
    doc.insert("list", Json::Array(vec![Json::from_u64(0), Json::Null]));
    assert_eq!(
        encode(&doc).unwrap(),
        r#"{"list":[0,null],"n":18446744073709551615}"#
    );
    // a number whose text is no JSON number is refused
    assert!(encode(&Json::Number("007".to_string())).is_none());
    assert!(encode(&Json::Number("".to_string())).is_none());
    assert!(encode(&Json::Array(vec![Json::Number("1e".to_string())])).is_none());
}

#[test]
fn test_field_faults() {
    let doc = fault_doc(r#"{"a":"x","b":true,"c":null,"d":5,"e":[1]}"#);
    assert_eq!(field_fault(&doc, "a", FieldKind::Str), None);
    assert_eq!(field_fault(&doc, "b", FieldKind::Bool), None);
    assert_eq!(field_fault(&doc, "c", FieldKind::Any), None);
    assert_eq!(field_fault(&doc, "c", FieldKind::OptStr), None);
    assert_eq!(field_fault(&doc, "zz", FieldKind::OptBool), None);
    assert_eq!(field_fault(&doc, "e", FieldKind::OptArray), None);
    assert_eq!(
        field_fault(&doc, "zz", FieldKind::Str),
        Some("missing field `zz`".to_string())
    );
    assert_eq!(
        field_fault(&doc, "zz", FieldKind::Any),
        Some("missing field `zz`".to_string())
    );
    assert_eq!(
        field_fault(&doc, "d", FieldKind::Str),
        Some("invalid type for field `d`: expected a string".to_string())
    );
    assert_eq!(
        field_fault(&doc, "a", FieldKind::Bool),
        Some("invalid type for field `a`: expected a boolean".to_string())
    );
    assert_eq!(
        field_fault(&doc, "d", FieldKind::OptStr),
        Some("invalid type for field `d`: expected a string or null".to_string())
    );
    assert_eq!(
        field_fault(&doc, "d", FieldKind::OptBool),
        Some("invalid type for field `d`: expected a boolean or null".to_string())
    );
    assert_eq!(
        field_fault(&doc, "d", FieldKind::OptArray),
        Some("invalid type for field `d`: expected an array or null".to_string())
    );
    // a document that is no object has no members
    assert_eq!(
        field_fault(&Json::Null, "a", FieldKind::Str),
        Some("missing field `a`".to_string())
    );
    assert_eq!(FieldKind::Any.as_str(), "a value");

    assert_eq!(unknown_variant_text("dance"), "unknown variant `dance`");
    assert_eq!(
        first(Some("one".to_string()), Some("two".to_string())),
        Some("one".to_string())
    );
    assert_eq!(first(None, Some("two".to_string())), Some("two".to_string()));
    assert_eq!(first(None, None), None);
    assert_eq!(failure_text("Failed: ", &Some("x".to_string())), "Failed: x");
    assert_eq!(failure_text("Failed: ", &None), "Failed: ");
}

#[test]
fn test_hook_input_faults() {
    let good = fault_doc(
        r#"{"hook_event_name":"Stop","session_id":"s","transcript_path":"t","cwd":"c",
            "stop_hook_active":true}"#,
    );
    assert_eq!(HookInput::fault(&good), None);
    assert!(HookInput::from_json(&good).is_some());

    let cases = [
        (r#"{}"#, "missing field `hook_event_name`"),
        (
            r#"{"hook_event_name":5}"#,
            "invalid type for field `hook_event_name`: expected a string",
        ),
        (r#"{"hook_event_name":"Dance"}"#, "unknown variant `Dance`"),
        (r#"{"hook_event_name":"Stop"}"#, "missing field `session_id`"),
        (
            r#"{"hook_event_name":"Stop","session_id":"s","transcript_path":"t"}"#,
            "missing field `cwd`",
        ),
        (
            r#"{"hook_event_name":"Stop","session_id":"s","transcript_path":"t","cwd":"c",
                "permission_mode":1}"#,
            "invalid type for field `permission_mode`: expected a string or null",
        ),
        (
            r#"{"hook_event_name":"Stop","session_id":"s","transcript_path":"t","cwd":"c"}"#,
            "missing field `stop_hook_active`",
        ),
        (
            r#"{"hook_event_name":"PreToolUse","session_id":"s","transcript_path":"t","cwd":"c",
                "tool_name":"Bash"}"#,
            "missing field `tool_input`",
        ),
        (
            r#"{"hook_event_name":"PostToolUseFailure","session_id":"s","transcript_path":"t",
                "cwd":"c","tool_name":"Bash","tool_input":{},"tool_use_id":"u","error":"e",
                "is_interrupt":"no"}"#,
            "invalid type for field `is_interrupt`: expected a boolean or null",
        ),
        (
            r#"{"hook_event_name":"PreCompact","session_id":"s","transcript_path":"t","cwd":"c",
                "trigger":"sometimes"}"#,
            "unknown variant `sometimes`",
        ),
    ];
    for (text, expected) in cases {
        let doc = fault_doc(text);
        assert!(HookInput::from_json(&doc).is_none(), "{}", text);
        assert_eq!(HookInput::fault(&doc), Some(expected.to_string()), "{}", text);
    }
}

#[test]
fn test_hook_input_keeps_the_event_name() {
    let doc = fault_doc(
        r#"{"hook_event_name":"SubagentStop","session_id":"s","transcript_path":"t","cwd":"c",
            "stop_hook_active":false}"#,
    );
    match HookInput::from_json(&doc) {
        Some(HookInput::SubagentStop(input)) => {
            assert_eq!(input.hook_event_name, "SubagentStop");
            assert!(!input.stop_hook_active);
        }
        other => panic!("Expected SubagentStop input, got {:?}", other),
    }
}

#[test]
fn test_control_envelope_faults() {
    let cases = [
        (r#"{}"#, "missing field `type`"),
        (r#"{"type":"control_request"}"#, "missing field `request_id`"),
        (
            r#"{"type":"control_request","request_id":"r"}"#,
            "missing field `request`",
        ),
        (
            r#"{"type":"control_request","request_id":"r","request":{}}"#,
            "missing field `subtype`",
        ),
        (
            r#"{"type":"control_request","request_id":"r","request":{"subtype":"dance"}}"#,
            "unknown variant `dance`",
        ),
        (
            r#"{"type":"control_request","request_id":"r","request":{"subtype":"set_model"}}"#,
            "missing field `model`",
        ),
        (
            r#"{"type":"control_request","request_id":"r","request":{"subtype":"hook_callback",
                "callback_id":"c","input":{},"tool_use_id":5}}"#,
            "invalid type for field `tool_use_id`: expected a string or null",
        ),
        (
            r#"{"type":"control_request","request_id":"r","request":{"subtype":"can_use_tool",
                "tool_name":"Bash","input":{},"permission_suggestions":{}}}"#,
            "invalid type for field `permission_suggestions`: expected an array or null",
        ),
    ];
    for (text, expected) in cases {
        let doc = fault_doc(text);
        assert_eq!(ControlRequest::fault(&doc), Some(expected.to_string()), "{}", text);
        let err = parse_control_request(&doc).unwrap_err();
        assert_eq!(
            err.to_string(),
            format!(
                "Message parse error: Failed to parse control request: {}",
                expected
            )
        );
        match err {
            ClaudeSDKError::MessageParse { raw_message, .. } => assert_eq!(raw_message, Some(doc)),
            other => panic!("Expected a parse error, got {:?}", other),
        }
    }
    let good = fault_doc(
        r#"{"type":"control_request","request_id":"r","request":{"subtype":"mcp_status"}}"#,
    );
    assert_eq!(ControlRequest::fault(&good), None);

    let cases = [
        (r#"{"type":"control_response"}"#, "missing field `response`"),
        (
            r#"{"type":"control_response","response":{"request_id":"r"}}"#,
            "missing field `subtype`",
        ),
        (
            r#"{"type":"control_response","response":{"subtype":"error","request_id":"r"}}"#,
            "missing field `error`",
        ),
        (
            r#"{"type":"control_response","response":{"subtype":"maybe","request_id":"r"}}"#,
            "unknown variant `maybe`",
        ),
    ];
    for (text, expected) in cases {
        let doc = fault_doc(text);
        assert_eq!(ControlResponse::fault(&doc), Some(expected.to_string()), "{}", text);
        assert_eq!(
            parse_control_response(&doc).unwrap_err().to_string(),
            format!(
                "Message parse error: Failed to parse control response: {}",
                expected
            )
        );
    }
}

#[test]
fn test_replies_for_ended_callbacks() {
    assert_eq!(
        reply_line(&permission_reply(
            "p1",
            &CallbackOutcome::Answered(PermissionResult::allow())
        )),
        r#"{"response":{"request_id":"p1","response":{"behavior":"allow"},"subtype":"success"},"type":"control_response"}"#
    );
    assert_eq!(
        reply_line(&permission_reply("p2", &CallbackOutcome::Failed)),
        r#"{"response":{"error":"Internal error: Tool permission callback failed","request_id":"p2","subtype":"error"},"type":"control_response"}"#
    );
    assert_eq!(
        reply_line(&permission_reply("p3", &CallbackOutcome::Missing)),
        r#"{"response":{"error":"Internal error: Tool permission callback not available","request_id":"p3","subtype":"error"},"type":"control_response"}"#
    );
    assert_eq!(
        reply_line(&hook_reply(
            "h1",
            &CallbackOutcome::Answered(HookOutput::default())
        )),
        r#"{"response":{"request_id":"h1","response":{},"subtype":"success"},"type":"control_response"}"#
    );
    assert_eq!(
        reply_line(&hook_reply("h2", &CallbackOutcome::Failed)),
        r#"{"response":{"error":"Internal error: Hook callback failed","request_id":"h2","subtype":"error"},"type":"control_response"}"#
    );
    assert_eq!(
        reply_line(&hook_reply("h3", &CallbackOutcome::Missing)),
        r#"{"response":{"error":"Internal error: Hook callback not available","request_id":"h3","subtype":"error"},"type":"control_response"}"#
    );
}

#[test]
fn test_plan_of_a_one_shot_query() {
    let plain = ClaudeAgentOptions::new();
    match InternalClient::<u32>::process_query(&plain, "hello") {
        Ok(QueryPlan::OneShot(config)) => {
            assert!(!config.is_streaming_mode());
            assert_eq!(config.initial_prompt, Some("hello".to_string()));
            assert_eq!(config.args.last(), Some(&"hello".to_string()));
        }
        other => panic!("Expected a one-shot run, got {:?}", other),
    }
    let with_callback = ClaudeAgentOptions::new().with_can_use_tool(CanUseTool {});
    assert!(matches!(
        InternalClient::<u32>::process_query(&with_callback, "hello"),
        Ok(QueryPlan::WithClient)
    ));
    let mut with_hooks = ClaudeAgentOptions::new();
    with_hooks.hooks = Some(Vec::new());
    assert!(matches!(
        InternalClient::<u32>::process_query(&with_hooks, "hello"),
        Ok(QueryPlan::WithClient)
    ));
    let mut conflicting = ClaudeAgentOptions::new().with_can_use_tool(CanUseTool {});
    conflicting.permission_prompt_tool_name = Some("tool".to_string());
    match InternalClient::<u32>::process_query(&conflicting, "hello") {
        Err(e) => assert_eq!(
            e.to_string(),
            "Configuration error: Cannot specify both 'can_use_tool' and 'permission_prompt_tool_name'"
        ),
        other => panic!("Expected a refusal, got {:?}", other),
    }
}

#[test]
fn test_event_that_stands_twice_in_the_hooks() {
    let first_list = vec![HookMatcher {
        matcher: Some("Bash".to_string()),
        hooks: vec![HookCallback { slot: 1 }, HookCallback { slot: 2 }],
        timeout: None,
    }];
    let second_list = vec![HookMatcher {
        matcher: Some("Edit".to_string()),
        hooks: vec![HookCallback { slot: 3 }],
        timeout: None,
    }];
    let hooks = vec![
        (HookEvent::PreToolUse, first_list),
        (HookEvent::PreToolUse, second_list),
    ];
    let mut table: KeyedTable<HookCallback> = KeyedTable::new();
    let config = register_hooks(&mut table, &hooks);
    // the peer is told of the later list
    assert_eq!(
        encode(&config).unwrap(),
        r#"{"PreToolUse":[{"callbackIds":["\"PreToolUse\"_0_0"],"matcher":"Edit"}]}"#
    );
    // and under an id that both give, the later callback is found
    assert_eq!(
        table.get("\"PreToolUse\"_0_0"),
        Some(&HookCallback { slot: 3 })
    );
}

#[test]
fn test_io_error_keeps_its_text() {
    let err = ClaudeSDKError::from(std::io::Error::new(
        std::io::ErrorKind::NotFound,
        "file not found",
    ));
    match &err {
        ClaudeSDKError::Io(text) => assert_eq!(text, "file not found"),
        other => panic!("Expected an input/output error, got {:?}", other),
    }
    assert!(!err.is_json_decode());
    assert!(decode_line("[").unwrap_err().is_json_decode());
}

#[test]
fn test_is_older_compares_parsed_versions() {
    let parse = |text: &str| semver::Version::parse(text).ok();
    assert!(is_older(&parse("1.9.9"), &parse("2.0.0")));
    assert!(is_older(&parse("2.0.0-rc.1"), &parse("2.0.0")));
    assert!(!is_older(&parse("2.0.0"), &parse("2.0.0")));
    assert!(!is_older(&parse("2.1.0"), &parse("2.0.0")));
    // a text that was refused is older than nothing
    assert!(!is_older(&parse("two"), &parse("2.0.0")));
    assert!(!is_older(&parse("1.0.0"), &parse("")));
    assert!(!is_older(&None, &None));
}
