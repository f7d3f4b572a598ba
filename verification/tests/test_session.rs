//! Tests for the session engine: correlation of requests and replies,
//! dispatch of the peer's requests, and the life of the read loop.

use agents_sdk::codec::{decode_line, encode};
use agents_sdk::control::{ControlRequest, ControlRequestPayload, ControlResponse};
use agents_sdk::errors::ClaudeSDKError;
use agents_sdk::hooks::{
    AsyncHookOutput, HookCallback, HookEvent, HookInput, HookMatcher, HookOutput, SyncHookOutput,
};
use agents_sdk::ids::{generate_request_id, request_id_from};
use agents_sdk::json::Json;
use agents_sdk::messages::Message;
use agents_sdk::options::ClaudeAgentOptions;
use agents_sdk::permission::{CanUseTool, PermissionMode, PermissionResult};
use agents_sdk::dispatch::{
    callback_failure_response, control_response_message, hook_response, permission_response,
    ControlAction, Dispatch,
};
use agents_sdk::query::{Query, ReaderAction, ReaderInput, DEFAULT_TIMEOUT_SECS};
use agents_sdk::registry::callback_id;

fn session_doc(text: &str) -> Json {
    decode_line(text).unwrap()
}

fn success_response(request_id: &str, data: &str) -> Json {
    session_doc(&format!(
        r#"{{"type":"control_response","response":{{"subtype":"success","request_id":"{}","response":{}}}}}"#,
        request_id, data
    ))
}

fn error_response(request_id: &str, message: &str) -> Json {
    session_doc(&format!(
        r#"{{"type":"control_response","response":{{"subtype":"error","request_id":"{}","error":"{}"}}}}"#,
        request_id, message
    ))
}

fn new_session() -> Query<u32> {
    Query::new(&ClaudeAgentOptions::new())
}

fn is_request_id_of(id: &str, count: u64) -> bool {
    let prefix = format!("req_{}_", count);
    id.starts_with(&prefix)
        && id.len() == prefix.len() + 8
        && id[prefix.len()..]
            .chars()
            .all(|c| c.is_ascii_hexdigit() && !c.is_ascii_uppercase())
}

#[test]
fn test_generate_request_id() {
    let mut counter = 0;
    let id1 = generate_request_id(&mut counter);
    let id2 = generate_request_id(&mut counter);

    assert!(id1.starts_with("req_"));
    assert!(id2.starts_with("req_"));
    assert_ne!(id1, id2);
    assert!(is_request_id_of(&id1, 0), "{}", id1);
    assert!(is_request_id_of(&id2, 1), "{}", id2);
    assert_eq!(counter, 2);
}

#[test]
fn test_request_id_from_count_and_random_text() {
    assert_eq!(
        request_id_from(42, "0123abcd-ffff-4fff-8fff-ffffffffffff"),
        "req_42_0123abcd"
    );
    assert_eq!(request_id_from(0, "deadbeef"), "req_0_deadbeef");
    // a random text of fewer than eight characters is taken whole
    assert_eq!(request_id_from(3, "abc"), "req_3_abc");
    assert_eq!(request_id_from(3, ""), "req_3_");
    assert_eq!(request_id_from(1, "h\u{e9}llo w\u{f6}rld"), "req_1_h\u{e9}llo w\u{f6}");
    assert_eq!(
        request_id_from(u64::MAX, "aaaaaaaabbbb"),
        "req_18446744073709551615_aaaaaaaa"
    );
}

#[test]
fn test_request_counter_goes_round() {
    let mut counter = u64::MAX;
    let id = generate_request_id(&mut counter);
    assert!(id.starts_with("req_18446744073709551615_"));
    assert_eq!(counter, 0);
}

#[test]
fn test_request_ids_are_unique_within_a_session() {
    let mut session = new_session();
    let mut seen = std::collections::HashSet::new();
    for n in 0..200u32 {
        let out = session
            .send_control_request(&ControlRequestPayload::Interrupt, n)
            .ok()
            .unwrap();
        assert!(is_request_id_of(&out.request_id, n as u64));
        assert!(seen.insert(out.request_id.clone()));
        assert!(session.is_pending(&out.request_id));
    }
    assert_eq!(seen.len(), 200);
}

#[test]
fn test_send_control_request_line() {
    let mut session = new_session();
    let out = session
        .send_control_request(
            &ControlRequestPayload::SetModel {
                model: "opus".to_string(),
            },
            7,
        )
        .ok()
        .unwrap();
    assert_eq!(
        out.line,
        format!(
            r#"{{"request":{{"model":"opus","subtype":"set_model"}},"request_id":"{}","type":"control_request"}}"#,
            out.request_id
        )
    );
    // the line reads back as the request that was sent
    let read = ControlRequest::from_json(&session_doc(&out.line)).unwrap();
    assert_eq!(read.request_type, "control_request");
    assert_eq!(read.request_id, out.request_id);
    assert!(matches!(
        read.request,
        ControlRequestPayload::SetModel { ref model } if model == "opus"
    ));
}

#[test]
fn test_send_control_request_that_cannot_be_written() {
    let mut session = new_session();
    let payload = ControlRequestPayload::McpMessage {
        server_name: "s".to_string(),
        message: Json::Number("not a number".to_string()),
    };
    match session.send_control_request(&payload, 3) {
        Err((e, slot)) => {
            assert_eq!(slot, 3);
            assert_eq!(
                e.to_string(),
                "Internal error: Failed to serialize control request"
            );
        }
        Ok(_) => panic!("Expected a failure"),
    }
    // nothing is pending, and the next request gets the next count
    let out = session
        .send_control_request(&ControlRequestPayload::Interrupt, 4)
        .ok()
        .unwrap();
    assert!(is_request_id_of(&out.request_id, 1));
}

#[test]
fn test_control_requests_of_each_kind() {
    let mut session = new_session();
    let request_of = |line: &str| session_doc(line).get("request").unwrap().clone();
    let out = session.interrupt(0).ok().unwrap();
    assert_eq!(
        encode(&request_of(&out.line)).unwrap(),
        r#"{"subtype":"interrupt"}"#
    );
    let out = session
        .set_permission_mode(PermissionMode::BypassPermissions, 1)
        .ok()
        .unwrap();
    assert_eq!(
        encode(&request_of(&out.line)).unwrap(),
        r#"{"mode":"bypassPermissions","subtype":"set_permission_mode"}"#
    );
    let out = session.set_model("haiku", 2).ok().unwrap();
    assert_eq!(
        encode(&request_of(&out.line)).unwrap(),
        r#"{"model":"haiku","subtype":"set_model"}"#
    );
    let out = session.rewind_files("msg-1", 3).ok().unwrap();
    assert_eq!(
        encode(&request_of(&out.line)).unwrap(),
        r#"{"subtype":"rewind_files","user_message_id":"msg-1"}"#
    );
    let out = session.get_mcp_status(4).ok().unwrap();
    assert_eq!(
        encode(&request_of(&out.line)).unwrap(),
        r#"{"subtype":"mcp_status"}"#
    );
    assert!(session.is_pending(&out.request_id));
}

#[test]
fn test_responses_out_of_order_reach_their_own_requests() {
    let mut session = new_session();
    let a = session.interrupt(100).ok().unwrap().request_id;
    let b = session.interrupt(200).ok().unwrap().request_id;
    let c = session.interrupt(300).ok().unwrap().request_id;

    match session.route(&success_response(&c, r#"{"who":"c"}"#)) {
        ReaderAction::Resolve { slot, outcome } => {
            assert_eq!(slot, 300);
            assert_eq!(outcome.unwrap().get_str("who"), Some("c"));
        }
        other => panic!("Expected a resolution, got {:?}", other),
    }
    assert!(session.is_pending(&a));
    assert!(session.is_pending(&b));
    assert!(!session.is_pending(&c));

    match session.route(&error_response(&a, "refused")) {
        ReaderAction::Resolve { slot, outcome } => {
            assert_eq!(slot, 100);
            match outcome.unwrap_err() {
                ClaudeSDKError::ControlProtocol {
                    message,
                    request_id,
                } => {
                    assert_eq!(message, "refused");
                    assert_eq!(request_id, Some(a.clone()));
                }
                other => panic!("Expected a protocol error, got {:?}", other),
            }
        }
        other => panic!("Expected a resolution, got {:?}", other),
    }
    match session.route(&success_response(&b, "null")) {
        ReaderAction::Resolve { slot, outcome } => {
            assert_eq!(slot, 200);
            assert_eq!(outcome.unwrap(), Json::Null);
        }
        other => panic!("Expected a resolution, got {:?}", other),
    }
    assert!(!session.is_pending(&a));
    assert!(!session.is_pending(&b));
}

#[test]
fn test_request_is_resolved_once() {
    let mut session = new_session();
    let id = session.interrupt(1).ok().unwrap().request_id;
    assert!(matches!(
        session.route(&success_response(&id, "1")),
        ReaderAction::Resolve { slot: 1, .. }
    ));
    // a second response, a late timeout and a stop find nothing to resolve
    assert!(matches!(
        session.route(&success_response(&id, "2")),
        ReaderAction::Skip
    ));
    assert!(session.handle_timeout(&id).0.is_none());
    assert!(session.cancel(&id).is_none());
    assert!(session.stop().aborted.is_empty());
}

#[test]
fn test_unknown_response_resolves_nothing() {
    let mut session = new_session();
    let id = session.interrupt(9).ok().unwrap().request_id;
    assert!(matches!(
        session.route(&success_response("req_999_ffffffff", "1")),
        ReaderAction::Skip
    ));
    assert!(session.is_pending(&id));
    // a document that says it is a control response and is none
    assert!(matches!(
        session.route(&session_doc(r#"{"type":"control_response"}"#)),
        ReaderAction::Skip
    ));
    assert!(session.is_pending(&id));
    assert!(session
        .handle_control_response(&session_doc(r#"{"type":"control_response","response":5}"#))
        .is_none());
    match session.handle_control_response(&success_response(&id, "true")) {
        Some((slot, outcome)) => {
            assert_eq!(slot, 9);
            assert_eq!(outcome.unwrap(), Json::Bool(true));
        }
        None => panic!("Expected a resolution"),
    }
}

#[test]
fn test_timeout_removes_the_request() {
    let options = ClaudeAgentOptions::new().with_timeout_secs(1);
    let mut session: Query<u32> = Query::new(&options);
    assert_eq!(session.timeout_duration(), Some(1000));
    let id = session.interrupt(5).ok().unwrap().request_id;
    let (slot, error) = session.handle_timeout(&id);
    assert_eq!(slot, Some(5));
    assert!(matches!(error, ClaudeSDKError::Timeout { duration_ms: 1000 }));
    assert_eq!(error.to_string(), "Operation timed out after 1000ms");
    assert!(error.is_recoverable());
    assert!(!session.is_pending(&id));
    // the reply that comes too late is passed over
    assert!(matches!(
        session.route(&success_response(&id, "1")),
        ReaderAction::Skip
    ));
}

#[test]
fn test_timeout_settings() {
    let default_session = new_session();
    assert_eq!(DEFAULT_TIMEOUT_SECS, 300);
    assert_eq!(default_session.timeout_duration(), Some(300_000));
    let mut unlimited: Query<u32> = Query::new(&ClaudeAgentOptions::new().with_timeout_secs(0));
    assert_eq!(unlimited.timeout_duration(), None);
    assert!(matches!(
        unlimited.handle_timeout("none").1,
        ClaudeSDKError::Timeout { duration_ms: 0 }
    ));
    let mut huge: Query<u32> = Query::new(&ClaudeAgentOptions::new().with_timeout_secs(u64::MAX));
    assert!(matches!(
        huge.handle_timeout("none").1,
        ClaudeSDKError::Timeout {
            duration_ms: u64::MAX
        }
    ));
    let mut edge: Query<u32> =
        Query::new(&ClaudeAgentOptions::new().with_timeout_secs(u64::MAX / 1000));
    assert!(matches!(
        edge.handle_timeout("none").1,
        ClaudeSDKError::Timeout {
            duration_ms: 18446744073709551000
        }
    ));
}

#[test]
fn test_stop_aborts_pending_requests() {
    let mut session = new_session();
    assert_eq!(session.start().unwrap(), true);
    let a = session.interrupt(1).ok().unwrap().request_id;
    let b = session.interrupt(2).ok().unwrap().request_id;

    let action = session.stop();
    assert!(action.signal_reader);
    let mut aborted = action.aborted;
    aborted.sort();
    let mut expected = vec![(a.clone(), 1), (b.clone(), 2)];
    expected.sort();
    assert_eq!(aborted, expected);
    assert!(!session.is_pending(&a));
    assert!(!session.is_pending(&b));
    assert!(!session.is_started());
    assert_eq!(
        Query::<u32>::closed_error().to_string(),
        "Internal error: Control request receiver dropped"
    );
    assert!(!Query::<u32>::closed_error().is_recoverable());

    // once the shutdown signal was given the reader routes nothing more
    let late = ReaderInput::Value(success_response(&a, "1"));
    assert!(matches!(session.read_step(true, late), ReaderAction::Exit));
    // stopping again changes nothing and signals no reader
    let again = session.stop();
    assert!(!again.signal_reader);
    assert!(again.aborted.is_empty());
}

#[test]
fn test_session_states() {
    let mut session = new_session();
    assert!(!session.is_started());
    // stopping a session that has not started leaves it ready to start
    assert!(!session.stop().signal_reader);
    assert_eq!(session.start().unwrap(), true);
    assert!(session.is_started());
    // starting twice is no error, and asks for no second reader
    assert_eq!(session.start().unwrap(), false);
    assert!(session.is_started());
    assert!(session.stop().signal_reader);
    assert!(!session.is_started());
    // a stopped session does not start again
    let err = session.start().unwrap_err();
    assert_eq!(
        err.to_string(),
        "Internal error: Transport stdout receiver already taken"
    );
    assert!(!session.is_started());
}

#[test]
fn test_result_line_is_forwarded_as_event_message() {
    let mut session = new_session();
    let pending = session.interrupt(1).ok().unwrap().request_id;
    let raw = session_doc(r#"{"type":"result","subtype":"success","num_turns":2}"#);
    match session.route(&raw) {
        ReaderAction::Forward(Ok(Message::Result(result))) => {
            assert_eq!(result.subtype, "success");
            assert_eq!(result.num_turns, 2);
        }
        other => panic!("Expected a forwarded result, got {:?}", other),
    }
    assert!(session.is_pending(&pending));
}

#[test]
fn test_event_message_that_cannot_be_read_is_forwarded_as_failure() {
    let mut session = new_session();
    match session.route(&session_doc(r#"{"type":"mystery"}"#)) {
        ReaderAction::Forward(Err(e)) => assert_eq!(
            e.to_string(),
            "Message parse error: Unknown message type: mystery"
        ),
        other => panic!("Expected a forwarded failure, got {:?}", other),
    }
    match session.route(&session_doc(r#"{"type":"user"}"#)) {
        ReaderAction::Forward(Err(e)) => assert_eq!(
            e.to_string(),
            "Message parse error: User message missing 'message' field"
        ),
        other => panic!("Expected a forwarded failure, got {:?}", other),
    }
}

#[test]
fn test_document_without_type_is_passed_over() {
    let mut session = new_session();
    let pending = session.interrupt(1).ok().unwrap().request_id;
    assert!(matches!(
        session.route(&session_doc(r#"{"no_type":true}"#)),
        ReaderAction::Skip
    ));
    assert!(matches!(
        session.route(&session_doc(r#"{"type":5}"#)),
        ReaderAction::Skip
    ));
    assert!(matches!(
        session.route(&session_doc(r#"[1,2]"#)),
        ReaderAction::Skip
    ));
    assert!(session.is_pending(&pending));
    // the session goes on: the next message is routed as ever
    assert!(matches!(
        session.route(&session_doc(r#"{"type":"system"}"#)),
        ReaderAction::Forward(Ok(Message::System(_)))
    ));
}

#[test]
fn test_read_step_on_a_broken_channel() {
    let mut session = new_session();
    let a = session.interrupt(1).ok().unwrap().request_id;
    let failure = ClaudeSDKError::cli_connection("Failed to read from CLI stdout");
    match session.read_step(false, ReaderInput::Failed(failure)) {
        ReaderAction::Terminate { failure, aborted } => {
            assert_eq!(
                failure.to_string(),
                "CLI connection error: Failed to read from CLI stdout"
            );
            assert_eq!(aborted, vec![(a.clone(), 1)]);
        }
        other => panic!("Expected the loop to end, got {:?}", other),
    }
    assert!(!session.is_pending(&a));

    let b = session.interrupt(2).ok().unwrap().request_id;
    match session.read_step(false, ReaderInput::Ended) {
        ReaderAction::Terminate { failure, aborted } => {
            assert_eq!(
                failure.to_string(),
                "CLI connection error: Transport stream ended"
            );
            assert_eq!(aborted, vec![(b.clone(), 2)]);
        }
        other => panic!("Expected the loop to end, got {:?}", other),
    }
    // the shutdown signal comes before a failure too
    assert!(matches!(
        session.read_step(true, ReaderInput::Ended),
        ReaderAction::Exit
    ));
    // and without it a document is routed
    let value = ReaderInput::Value(session_doc(r#"{"type":"system","subtype":"init"}"#));
    assert!(matches!(
        session.read_step(false, value),
        ReaderAction::Forward(Ok(Message::System(_)))
    ));
}

#[test]
fn test_tool_permission_defaults_to_allow() {
    let mut session = new_session();
    let raw = session_doc(
        r#"{"type":"control_request","request_id":"peer_1",
            "request":{"subtype":"can_use_tool","tool_name":"Bash","input":{"command":"ls"}}}"#,
    );
    match session.route(&raw) {
        ReaderAction::Write { line } => assert_eq!(
            line,
            r#"{"response":{"request_id":"peer_1","response":{"behavior":"allow"},"subtype":"success"},"type":"control_response"}"#
        ),
        other => panic!("Expected a reply, got {:?}", other),
    }
}

#[test]
fn test_tool_permission_goes_to_the_callback() {
    let options = ClaudeAgentOptions::new().with_can_use_tool(CanUseTool {});
    let mut session: Query<u32> = Query::new(&options);
    let raw = session_doc(
        r#"{"type":"control_request","request_id":"peer_2",
            "request":{"subtype":"can_use_tool","tool_name":"Write","input":{"path":"/x"},
                       "permission_suggestions":[{"type":"addRules"},{"type":"bogus"},
                                                 {"type":"setMode","mode":"plan"}],
                       "blocked_path":"/x"}}"#,
    );
    match session.route(&raw) {
        ReaderAction::AskPermission {
            request_id,
            tool_name,
            input,
            context,
        } => {
            assert_eq!(request_id, "peer_2");
            assert_eq!(tool_name, "Write");
            assert_eq!(input.get_str("path"), Some("/x"));
            // the suggestion that cannot be read is left out
            assert_eq!(context.suggestions.len(), 2);
            assert_eq!(context.suggestions[1].mode, Some(PermissionMode::Plan));
        }
        other => panic!("Expected a question for the callback, got {:?}", other),
    }
    let reply = permission_response("peer_2", &PermissionResult::deny_with_message("no"));
    assert_eq!(
        encode(&reply).unwrap(),
        r#"{"response":{"request_id":"peer_2","response":{"behavior":"deny","interrupt":false,"message":"no"},"subtype":"success"},"type":"control_response"}"#
    );
}

#[test]
fn test_unregistered_hook_gets_empty_success() {
    let mut session = new_session();
    let raw = session_doc(
        r#"{"type":"control_request","request_id":"peer_3",
            "request":{"subtype":"hook_callback","callback_id":"stale","input":{}}}"#,
    );
    match session.route(&raw) {
        ReaderAction::Write { line } => assert_eq!(
            line,
            r#"{"response":{"request_id":"peer_3","response":{},"subtype":"success"},"type":"control_response"}"#
        ),
        other => panic!("Expected a reply, got {:?}", other),
    }
}

fn session_with_hooks() -> Query<u32> {
    let mut options = ClaudeAgentOptions::new();
    options.hooks = Some(vec![
        (
            HookEvent::PreToolUse,
            vec![
                HookMatcher {
                    matcher: Some("Bash".to_string()),
                    hooks: vec![HookCallback { slot: 10 }, HookCallback { slot: 11 }],
                    timeout: Some(Json::Number("2.5".to_string())),
                },
                HookMatcher {
                    matcher: None,
                    hooks: vec![HookCallback { slot: 12 }],
                    timeout: None,
                },
            ],
        ),
        (
            HookEvent::Stop,
            vec![HookMatcher {
                matcher: None,
                hooks: vec![],
                timeout: None,
            }],
        ),
    ]);
    Query::new(&options)
}

#[test]
fn test_initialize_registers_hooks() {
    let mut session = session_with_hooks();
    let out = session.initialize(1).ok().unwrap();
    assert!(session.is_pending(&out.request_id));
    let request = session_doc(&out.line).get("request").unwrap().clone();
    assert_eq!(
        encode(&request).unwrap(),
        [
            r#"{"hooks":{"PreToolUse":["#,
            r#"{"callbackIds":["\"PreToolUse\"_0_0","\"PreToolUse\"_0_1"],"matcher":"Bash","timeout":2.5},"#,
            r#"{"callbackIds":["\"PreToolUse\"_1_0"]}],"#,
            r#""Stop":[{}]},"subtype":"initialize"}"#,
        ]
        .concat()
    );
    assert_eq!(callback_id(HookEvent::PreToolUse, 0, 1), "\"PreToolUse\"_0_1");
    assert_eq!(
        callback_id(HookEvent::SubagentStop, 12, 345),
        "\"SubagentStop\"_12_345"
    );

    // the peer's answer is kept
    assert!(session.get_server_info().is_none());
    match session.route(&success_response(&out.request_id, r#"{"commands":[]}"#)) {
        ReaderAction::Resolve { slot, outcome } => {
            assert_eq!(slot, 1);
            session.complete_initialize(&outcome.unwrap());
        }
        other => panic!("Expected a resolution, got {:?}", other),
    }
    assert!(session.get_server_info().unwrap().get("commands").is_some());

    // a registered callback is run with the input that the request holds
    let raw = session_doc(
        r#"{"type":"control_request","request_id":"peer_4","request":{
            "subtype":"hook_callback","callback_id":"\"PreToolUse\"_1_0","tool_use_id":"tu_1",
            "input":{"hook_event_name":"PreToolUse","session_id":"s","transcript_path":"/t",
                     "cwd":"/w","tool_name":"Bash","tool_input":{"command":"ls"}}}}"#,
    );
    match session.route(&raw) {
        ReaderAction::RunHook {
            request_id,
            callback,
            input,
            tool_use_id,
            ..
        } => {
            assert_eq!(request_id, "peer_4");
            assert_eq!(callback, HookCallback { slot: 12 });
            assert_eq!(tool_use_id, Some("tu_1".to_string()));
            match input {
                HookInput::PreToolUse(pre) => assert_eq!(pre.tool_name, "Bash"),
                other => panic!("Expected PreToolUse input, got {:?}", other),
            }
        }
        other => panic!("Expected a hook to run, got {:?}", other),
    }
    // an input that cannot be read is answered with a failure
    let raw = session_doc(
        r#"{"type":"control_request","request_id":"peer_5","request":{
            "subtype":"hook_callback","callback_id":"\"PreToolUse\"_0_0","input":{"x":1}}}"#,
    );
    match session.route(&raw) {
        ReaderAction::Write { line } => assert_eq!(
            line,
            r#"{"response":{"error":"Message parse error: Failed to parse hook input: missing field `hook_event_name`","request_id":"peer_5","subtype":"error"},"type":"control_response"}"#
        ),
        other => panic!("Expected a reply, got {:?}", other),
    }
}

#[test]
fn test_initialize_without_hooks() {
    let mut session = new_session();
    assert!(session.build_hooks_config().is_none());
    let out = session.initialize(1).ok().unwrap();
    let request = session_doc(&out.line).get("request").unwrap().clone();
    assert_eq!(
        encode(&request).unwrap(),
        r#"{"hooks":null,"subtype":"initialize"}"#
    );
}

#[test]
fn test_other_requests_of_the_peer() {
    let session = new_session();
    let reply_to = |request: &str| {
        let raw = session_doc(&format!(
            r#"{{"type":"control_request","request_id":"p","request":{}}}"#,
            request
        ));
        match session.handle_control_request(&raw) {
            ControlAction::Respond(doc) => encode(&doc).unwrap(),
            other => panic!("Expected a reply, got {:?}", other),
        }
    };
    assert_eq!(
        reply_to(r#"{"subtype":"initialize"}"#),
        r#"{"response":{"request_id":"p","response":{"initialized":true},"subtype":"success"},"type":"control_response"}"#
    );
    assert_eq!(
        reply_to(r#"{"subtype":"mcp_message","server_name":"calc","message":{}}"#),
        r#"{"response":{"error":"Internal error: MCP server 'calc' not found (SDK MCP not yet implemented)","request_id":"p","subtype":"error"},"type":"control_response"}"#
    );
    assert_eq!(
        reply_to(r#"{"subtype":"interrupt"}"#),
        r#"{"response":{"request_id":"p","response":null,"subtype":"success"},"type":"control_response"}"#
    );
    assert_eq!(
        reply_to(r#"{"subtype":"mcp_status"}"#),
        r#"{"response":{"request_id":"p","response":null,"subtype":"success"},"type":"control_response"}"#
    );
    // a document that says it is a control request and is none is passed over
    let bad = session_doc(r#"{"type":"control_request","request_id":"p"}"#);
    assert!(matches!(
        session.handle_control_request(&bad),
        ControlAction::Ignore
    ));
    match session.process_control_request(&ControlRequestPayload::McpStatus) {
        Dispatch::Reply(Ok(Json::Null)) => {}
        other => panic!("Expected null, got {:?}", other),
    }
}

#[test]
fn test_hook_answers_use_the_wire_names() {
    let sync = HookOutput::Sync(SyncHookOutput {
        continue_: Some(false),
        stop_reason: Some("done".to_string()),
        ..Default::default()
    });
    let reply = hook_response("peer_6", &sync);
    let written = encode(&reply).unwrap();
    assert_eq!(
        written,
        r#"{"response":{"request_id":"peer_6","response":{"continue":false,"stopReason":"done"},"subtype":"success"},"type":"control_response"}"#
    );
    // read back, the reply names the request and carries the answer
    let read = ControlResponse::from_json(&session_doc(&written)).unwrap();
    assert!(read.is_success());
    assert_eq!(read.request_id(), "peer_6");
    assert_eq!(read.data().unwrap().get_bool("continue"), Some(false));
    assert!(read.data().unwrap().get("continue_").is_none());

    let deferred = HookOutput::Async(AsyncHookOutput {
        async_: true,
        async_timeout: None,
    });
    let reply = hook_response("peer_7", &deferred);
    let data = reply.get("response").unwrap().get("response").unwrap();
    assert_eq!(data.get_bool("async"), Some(true));
    assert!(data.get("async_").is_none());
}

#[test]
fn test_replies_for_failures() {
    let reply = callback_failure_response("peer_8", "callback panicked");
    assert_eq!(
        encode(&reply).unwrap(),
        r#"{"response":{"error":"Internal error: callback panicked","request_id":"peer_8","subtype":"error"},"type":"control_response"}"#
    );
    let reply = control_response_message("peer_9", &Err(ClaudeSDKError::timeout(5)));
    assert_eq!(
        reply
            .get("response")
            .unwrap()
            .get_str("error"),
        Some("Operation timed out after 5ms")
    );
    let reply = control_response_message("peer_9", &Ok(Json::from_u64(12)));
    assert_eq!(
        encode(&reply).unwrap(),
        r#"{"response":{"request_id":"peer_9","response":12,"subtype":"success"},"type":"control_response"}"#
    );
}

#[test]
fn test_reply_that_cannot_be_written_is_passed_over() {
    let options = ClaudeAgentOptions::new();
    let mut session: Query<u32> = Query::new(&options);
    let doc = Json::Object(vec![
        ("type".to_string(), Json::string("control_request")),
        (
            "request_id".to_string(),
            Json::Number("1e999999".to_string()),
        ),
    ]);
    // no request id that is a string: passed over
    assert!(matches!(session.route(&doc), ReaderAction::Skip));
}

#[test]
fn test_send_message_line() {
    let session = new_session();
    assert_eq!(
        session.send_message("Hello \"there\"\n").unwrap(),
        r#"{"message":{"content":"Hello \"there\"\n","role":"user"},"parent_tool_use_id":null,"session_id":"default","type":"user"}"#
    );
}

#[test]
fn test_control_request_round_trip() {
    let payloads = vec![
        ControlRequestPayload::Interrupt,
        ControlRequestPayload::CanUseTool {
            tool_name: "Bash".to_string(),
            input: session_doc(r#"{"command":"ls","n":[1,2.5,null]}"#),
            permission_suggestions: Some(vec![session_doc(r#"{"type":"addRules"}"#)]),
            blocked_path: None,
        },
        ControlRequestPayload::CanUseTool {
            tool_name: "Read".to_string(),
            input: Json::Null,
            permission_suggestions: None,
            blocked_path: Some("/etc".to_string()),
        },
        ControlRequestPayload::Initialize { hooks: None },
        ControlRequestPayload::Initialize {
            hooks: Some(session_doc(r#"{"Stop":[]}"#)),
        },
        ControlRequestPayload::SetPermissionMode {
            mode: "plan".to_string(),
        },
        ControlRequestPayload::SetModel {
            model: "opus".to_string(),
        },
        ControlRequestPayload::HookCallback {
            callback_id: "cb".to_string(),
            input: session_doc("{}"),
            tool_use_id: Some("tu".to_string()),
        },
        ControlRequestPayload::McpMessage {
            server_name: "s".to_string(),
            message: session_doc(r#"{"jsonrpc":"2.0"}"#),
        },
        ControlRequestPayload::McpStatus,
        ControlRequestPayload::RewindFiles {
            user_message_id: "m".to_string(),
        },
    ];
    for payload in payloads {
        let request = ControlRequest::new("req_1_00000000", payload);
        let line = encode(&request.to_json()).unwrap();
        let read = ControlRequest::from_json(&session_doc(&line)).unwrap();
        assert_eq!(format!("{:?}", read), format!("{:?}", request), "{}", line);
    }
    // `null` stands for an absent field: it comes back as none
    let with_null = ControlRequestPayload::Initialize {
        hooks: Some(Json::Null),
    };
    let read = ControlRequestPayload::from_json(&with_null.to_json()).unwrap();
    assert!(matches!(
        read,
        ControlRequestPayload::Initialize { hooks: None }
    ));
}
