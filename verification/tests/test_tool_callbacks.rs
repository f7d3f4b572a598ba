//! Tests for tool permission callbacks and hook callbacks.

use agents_sdk::codec::{decode_line, encode};
use agents_sdk::hooks::{
    AsyncHookOutput, BaseHookInput, HookCallback, HookContext, HookEvent, HookInput, HookMatcher,
    HookOutput, HookSpecificOutput, PostToolUseHookSpecificOutput, PreToolUseHookInput,
    PreToolUseHookSpecificOutput, SyncHookOutput,
};
use agents_sdk::json::Json;
use agents_sdk::options::ClaudeAgentOptions;
use agents_sdk::permission::{
    CanUseTool, PermissionBehavior, PermissionMode, PermissionResult, PermissionResultAllow,
    PermissionResultDeny, PermissionRuleValue, PermissionUpdate, PermissionUpdateDestination,
    PermissionUpdateType, ToolPermissionContext,
};
use std::collections::HashMap;

#[test]
fn test_tool_callbacks_test_permission_result_allow() {
    let result = PermissionResult::allow();

    match result {
        PermissionResult::Allow(allow) => {
            assert_eq!(allow.behavior, "allow");
            assert!(allow.updated_input.is_none());
            assert!(allow.updated_permissions.is_none());
        }
        _ => panic!("Expected allow result"),
    }
}

#[test]
fn test_tool_callbacks_test_permission_result_deny() {
    let result = PermissionResult::deny();

    match result {
        PermissionResult::Deny(deny) => {
            assert_eq!(deny.behavior, "deny");
            assert!(deny.message.is_empty());
            assert!(!deny.interrupt);
        }
        _ => panic!("Expected deny result"),
    }
}

#[test]
fn test_permission_result_deny_with_message() {
    let result = PermissionResult::deny_with_message("Security policy violation");

    match result {
        PermissionResult::Deny(deny) => {
            assert_eq!(deny.behavior, "deny");
            assert_eq!(deny.message, "Security policy violation");
            assert!(!deny.interrupt);
        }
        _ => panic!("Expected deny result"),
    }
}

#[test]
fn test_permission_result_deny_with_interrupt() {
    let result = PermissionResultDeny::with_interrupt("Critical security violation");

    assert_eq!(result.behavior, "deny");
    assert_eq!(result.message, "Critical security violation");
    assert!(result.interrupt);
}

#[test]
fn test_tool_permission_context() {
    let context = ToolPermissionContext {
        suggestions: vec![],
    };

    assert!(context.suggestions.is_empty());
}

#[test]
fn test_tool_permission_context_with_suggestions() {
    let context = ToolPermissionContext {
        suggestions: vec![PermissionUpdate {
            update_type: PermissionUpdateType::AddRules,
            rules: None,
            behavior: None,
            mode: None,
            directories: None,
            destination: None,
        }],
    };

    assert_eq!(context.suggestions.len(), 1);
}

#[test]
fn test_hook_event_variants() {
    let events = vec![
        HookEvent::PreToolUse,
        HookEvent::PostToolUse,
        HookEvent::UserPromptSubmit,
        HookEvent::Stop,
        HookEvent::SubagentStop,
        HookEvent::PreCompact,
    ];

    let mut map: HashMap<HookEvent, String> = HashMap::new();
    for event in events {
        map.insert(event, format!("{:?}", event));
    }

    assert_eq!(map.len(), 6);
    assert!(map.contains_key(&HookEvent::PreToolUse));
    assert!(map.contains_key(&HookEvent::PostToolUse));
}

#[test]
fn test_hook_context_default() {
    let context = HookContext::default();
    let _ = context;
}

#[test]
fn test_tool_callbacks_test_permission_result_allow_with_updated_input() {
    let updated_input = decode_line(r#"{"safe_mode": true, "param": "value"}"#).unwrap();
    let result =
        PermissionResult::Allow(PermissionResultAllow::with_updated_input(updated_input.clone()));

    match result {
        PermissionResult::Allow(allow) => {
            assert_eq!(allow.behavior, "allow");
            assert!(allow.updated_input.is_some());
            let input = allow.updated_input.unwrap();
            assert_eq!(input.get_bool("safe_mode"), Some(true));
            assert_eq!(input.get_str("param"), Some("value"));
        }
        _ => panic!("Expected allow result"),
    }
}

#[test]
fn test_permission_result_defaults() {
    let allow = PermissionResultAllow::default();
    assert_eq!(allow.behavior, "allow");
    assert!(allow.updated_input.is_none());
    let deny = PermissionResultDeny::default();
    assert_eq!(deny.behavior, "deny");
    assert_eq!(deny.message, "");
    assert!(!deny.interrupt);
    let said = PermissionResultDeny::with_message("no");
    assert_eq!(said.message, "no");
    assert!(!said.interrupt);
    assert!(ToolPermissionContext::default().suggestions.is_empty());
}

#[test]
fn test_hook_matcher_creation() {
    let callback = HookCallback { slot: 0 };

    let matcher = HookMatcher {
        matcher: Some("Bash".to_string()),
        hooks: vec![callback],
        timeout: Some(Json::Number("30.0".to_string())),
    };

    assert_eq!(matcher.matcher, Some("Bash".to_string()));
    assert_eq!(matcher.hooks.len(), 1);
    let seconds = match &matcher.timeout {
        Some(Json::Number(text)) => Some(text.parse::<f64>().unwrap()),
        _ => None,
    };
    assert_eq!(seconds, Some(30.0));
}

#[test]
fn test_hook_matcher_without_matcher() {
    let callback = HookCallback { slot: 0 };

    let matcher = HookMatcher {
        matcher: None,
        hooks: vec![callback],
        timeout: None,
    };

    assert!(matcher.matcher.is_none());
    assert_eq!(matcher.hooks.len(), 1);
    assert!(matcher.timeout.is_none());

    let empty = HookMatcher::default();
    assert!(empty.matcher.is_none());
    assert!(empty.hooks.is_empty());
    assert!(empty.timeout.is_none());
    let copy = matcher.clone();
    assert_eq!(copy.hooks, vec![HookCallback { slot: 0 }]);
}

#[test]
fn test_sync_hook_output_default() {
    let output = SyncHookOutput::default();

    assert!(output.continue_.is_none());
    assert!(output.suppress_output.is_none());
    assert!(output.stop_reason.is_none());
    assert!(output.decision.is_none());
    assert!(output.system_message.is_none());
    assert!(output.reason.is_none());
    assert!(output.hook_specific_output.is_none());
}

#[test]
fn test_sync_hook_output_with_block() {
    let output = SyncHookOutput {
        continue_: Some(false),
        suppress_output: None,
        stop_reason: None,
        decision: Some("block".to_string()),
        system_message: None,
        reason: Some("Security policy violation".to_string()),
        hook_specific_output: None,
    };

    assert_eq!(output.continue_, Some(false));
    assert_eq!(output.decision, Some("block".to_string()));
    assert_eq!(output.reason, Some("Security policy violation".to_string()));
}

#[test]
fn test_hook_output_sync() {
    let output = HookOutput::Sync(SyncHookOutput::default());

    match output {
        HookOutput::Sync(sync) => {
            assert!(sync.continue_.is_none());
        }
        _ => panic!("Expected sync output"),
    }
    assert!(matches!(HookOutput::default(), HookOutput::Sync(_)));
}

#[test]
fn test_hook_output_async() {
    let output = HookOutput::Async(AsyncHookOutput {
        async_: true,
        async_timeout: Some(5000),
    });

    match output {
        HookOutput::Async(async_out) => {
            assert!(async_out.async_);
            assert_eq!(async_out.async_timeout, Some(5000));
        }
        _ => panic!("Expected async output"),
    }
}

#[test]
fn test_options_with_hooks() {
    let callback = HookCallback { slot: 0 };

    let hooks = vec![(
        HookEvent::PreToolUse,
        vec![HookMatcher {
            matcher: Some("Bash".to_string()),
            hooks: vec![callback],
            timeout: None,
        }],
    )];

    let mut options = ClaudeAgentOptions::new();
    options.hooks = Some(hooks);

    assert!(options.hooks.is_some());
    let hooks = options.hooks.unwrap();
    let found = hooks.iter().find(|(event, _)| *event == HookEvent::PreToolUse);
    assert!(found.is_some());
    assert_eq!(found.unwrap().1.len(), 1);
}

#[test]
fn test_options_with_can_use_tool() {
    let mut options = ClaudeAgentOptions::new();
    options.can_use_tool = Some(CanUseTool {});

    assert!(options.can_use_tool.is_some());
}

#[test]
fn test_permission_result_serialization() {
    let allow = PermissionResult::allow();
    let json = encode(&allow.to_json()).unwrap();
    assert!(json.contains("allow"));

    let deny = PermissionResult::deny_with_message("Not allowed");
    let json = encode(&deny.to_json()).unwrap();
    assert!(json.contains("deny"));
    assert!(json.contains("Not allowed"));
    assert_eq!(
        json,
        r#"{"behavior":"deny","interrupt":false,"message":"Not allowed"}"#
    );
}

#[test]
fn test_permission_result_with_updates_wire_form() {
    let result = PermissionResult::Allow(PermissionResultAllow {
        behavior: "allow".to_string(),
        updated_input: None,
        updated_permissions: Some(vec![PermissionUpdate {
            update_type: PermissionUpdateType::AddRules,
            rules: Some(vec![
                PermissionRuleValue {
                    tool_name: "Bash".to_string(),
                    rule_content: Some("ls:*".to_string()),
                },
                PermissionRuleValue {
                    tool_name: "Read".to_string(),
                    rule_content: None,
                },
            ]),
            behavior: Some(PermissionBehavior::Allow),
            mode: Some(PermissionMode::Plan),
            directories: Some(vec!["/src".to_string()]),
            destination: Some(PermissionUpdateDestination::ProjectSettings),
        }]),
    });
    assert_eq!(
        encode(&result.to_json()).unwrap(),
        [
            r#"{"behavior":"allow","updatedPermissions":[{"behavior":"allow","#,
            r#""destination":"projectSettings","directories":["/src"],"mode":"plan","#,
            r#""rules":[{"ruleContent":"ls:*","toolName":"Bash"},{"toolName":"Read"}],"#,
            r#""type":"addRules"}]}"#,
        ]
        .concat()
    );
}

#[test]
fn test_permission_update_read_back() {
    let update = PermissionUpdate {
        update_type: PermissionUpdateType::RemoveDirectories,
        rules: None,
        behavior: Some(PermissionBehavior::Ask),
        mode: None,
        directories: Some(vec!["/a".to_string(), "/b".to_string()]),
        destination: Some(PermissionUpdateDestination::Session),
    };
    let read = PermissionUpdate::from_json(&update.to_json()).unwrap();
    assert_eq!(read.update_type, PermissionUpdateType::RemoveDirectories);
    assert!(read.rules.is_none());
    assert_eq!(read.behavior, Some(PermissionBehavior::Ask));
    assert_eq!(read.mode, None);
    assert_eq!(read.directories, Some(vec!["/a".to_string(), "/b".to_string()]));
    assert_eq!(read.destination, Some(PermissionUpdateDestination::Session));

    // an unknown kind, a rule without a tool, a directory that is no string
    let bad = |text: &str| PermissionUpdate::from_json(&decode_line(text).unwrap()).is_none();
    assert!(bad(r#"{"type": "dropRules"}"#));
    assert!(bad(r#"{"type": "addRules", "rules": [{"ruleContent": "x"}]}"#));
    assert!(bad(r#"{"type": "addDirectories", "directories": ["/a", 5]}"#));
    assert!(bad(r#"{"type": "setMode", "mode": "sideways"}"#));
    assert!(bad(r#"{"rules": []}"#));
    // `null` stands for an absent field
    assert!(!bad(r#"{"type": "setMode", "mode": null, "rules": null}"#));
}

#[test]
fn test_permission_wire_names() {
    let behaviors = [
        (PermissionBehavior::Allow, "allow"),
        (PermissionBehavior::Deny, "deny"),
        (PermissionBehavior::Ask, "ask"),
    ];
    for (b, name) in behaviors {
        assert_eq!(b.as_str(), name);
        assert_eq!(PermissionBehavior::parse(name), Some(b));
    }
    let destinations = [
        (PermissionUpdateDestination::UserSettings, "userSettings"),
        (PermissionUpdateDestination::ProjectSettings, "projectSettings"),
        (PermissionUpdateDestination::LocalSettings, "localSettings"),
        (PermissionUpdateDestination::Session, "session"),
    ];
    for (d, name) in destinations {
        assert_eq!(d.as_str(), name);
        assert_eq!(PermissionUpdateDestination::parse(name), Some(d));
    }
    let kinds = [
        (PermissionUpdateType::AddRules, "addRules"),
        (PermissionUpdateType::ReplaceRules, "replaceRules"),
        (PermissionUpdateType::RemoveRules, "removeRules"),
        (PermissionUpdateType::SetMode, "setMode"),
        (PermissionUpdateType::AddDirectories, "addDirectories"),
        (PermissionUpdateType::RemoveDirectories, "removeDirectories"),
    ];
    for (k, name) in kinds {
        assert_eq!(k.as_str(), name);
        assert_eq!(PermissionUpdateType::parse(name), Some(k));
    }
    assert_eq!(PermissionBehavior::parse("Allow"), None);
}

#[test]
fn test_sync_hook_output_serialization() {
    let output = SyncHookOutput {
        continue_: Some(true),
        suppress_output: Some(false),
        stop_reason: Some("Test reason".to_string()),
        decision: Some("allow".to_string()),
        system_message: Some("Test message".to_string()),
        reason: Some("Test reason detail".to_string()),
        hook_specific_output: None,
    };

    let json = encode(&output.to_json()).unwrap();

    assert!(json.contains("\"continue\""));
    assert!(!json.contains("\"continue_\""));
    assert!(json.contains("\"stopReason\""));
    assert!(json.contains("\"systemMessage\""));
    assert_eq!(
        json,
        [
            r#"{"continue":true,"decision":"allow","reason":"Test reason detail","#,
            r#""stopReason":"Test reason","suppressOutput":false,"#,
            r#""systemMessage":"Test message"}"#,
        ]
        .concat()
    );
}

#[test]
fn test_hook_specific_output_wire_form() {
    let pre = HookOutput::Sync(SyncHookOutput {
        hook_specific_output: Some(HookSpecificOutput::PreToolUse(
            PreToolUseHookSpecificOutput {
                hook_event_name: "PreToolUse".to_string(),
                permission_decision: Some(PermissionBehavior::Deny),
                permission_decision_reason: Some("unsafe".to_string()),
                updated_input: Some(decode_line(r#"{"command": "ls"}"#).unwrap()),
            },
        )),
        ..Default::default()
    });
    assert_eq!(
        encode(&pre.to_json()).unwrap(),
        [
            r#"{"hookSpecificOutput":{"hookEventName":"PreToolUse","#,
            r#""permissionDecision":"deny","permissionDecisionReason":"unsafe","#,
            r#""updatedInput":{"command":"ls"}}}"#,
        ]
        .concat()
    );
    let post = HookOutput::Sync(SyncHookOutput {
        hook_specific_output: Some(HookSpecificOutput::PostToolUse(
            PostToolUseHookSpecificOutput {
                hook_event_name: "PostToolUse".to_string(),
                additional_context: Some("seen".to_string()),
            },
        )),
        ..Default::default()
    });
    assert_eq!(
        encode(&post.to_json()).unwrap(),
        r#"{"hookSpecificOutput":{"additionalContext":"seen","hookEventName":"PostToolUse"}}"#
    );
    let deferred = HookOutput::Async(AsyncHookOutput {
        async_: true,
        async_timeout: Some(250),
    });
    assert_eq!(
        encode(&deferred.to_json()).unwrap(),
        r#"{"async":true,"asyncTimeout":250}"#
    );
}

#[test]
fn test_hook_input_from_wire() {
    let read = |text: &str| HookInput::from_json(&decode_line(text).unwrap());
    let input = read(
        r#"{"hook_event_name": "PreToolUse", "session_id": "s", "transcript_path": "/t",
            "cwd": "/w", "tool_name": "TestTool", "tool_input": {"param": "value"}}"#,
    );
    match input {
        Some(HookInput::PreToolUse(pre)) => {
            assert_eq!(pre.tool_name, "TestTool");
            assert_eq!(pre.hook_event_name, "PreToolUse");
            assert_eq!(pre.base.session_id, "s");
            assert_eq!(pre.base.transcript_path, "/t");
            assert_eq!(pre.base.cwd, "/w");
            assert!(pre.base.permission_mode.is_none());
            assert_eq!(pre.tool_input.get_str("param"), Some("value"));
        }
        _ => panic!("Expected PreToolUse input"),
    }
    let base = r#""session_id": "s", "transcript_path": "/t", "cwd": "/w", "permission_mode": "plan""#;
    let with = |rest: &str| read(&format!("{{{}, {}}}", base, rest));
    assert!(matches!(
        with(r#""hook_event_name": "PostToolUse", "tool_name": "T", "tool_input": 1, "tool_response": 2"#),
        Some(HookInput::PostToolUse(_))
    ));
    match with(
        r#""hook_event_name": "PostToolUseFailure", "tool_name": "T", "tool_input": 1,
           "tool_use_id": "u", "error": "boom", "is_interrupt": true"#,
    ) {
        Some(HookInput::PostToolUseFailure(f)) => {
            assert_eq!(f.error, "boom");
            assert_eq!(f.tool_use_id, "u");
            assert_eq!(f.is_interrupt, Some(true));
            assert_eq!(f.base.permission_mode, Some("plan".to_string()));
        }
        _ => panic!("Expected PostToolUseFailure input"),
    }
    match with(r#""hook_event_name": "UserPromptSubmit", "prompt": "hi""#) {
        Some(HookInput::UserPromptSubmit(p)) => assert_eq!(p.prompt, "hi"),
        _ => panic!("Expected UserPromptSubmit input"),
    }
    match with(r#""hook_event_name": "Stop", "stop_hook_active": true"#) {
        Some(HookInput::Stop(s)) => assert!(s.stop_hook_active),
        _ => panic!("Expected Stop input"),
    }
    match with(r#""hook_event_name": "SubagentStop", "stop_hook_active": false"#) {
        Some(HookInput::SubagentStop(s)) => assert!(!s.stop_hook_active),
        _ => panic!("Expected SubagentStop input"),
    }
    match with(r#""hook_event_name": "PreCompact", "trigger": "auto", "custom_instructions": null"#) {
        Some(HookInput::PreCompact(c)) => {
            assert_eq!(c.trigger.as_str(), "auto");
            assert!(c.custom_instructions.is_none());
        }
        _ => panic!("Expected PreCompact input"),
    }
    // an unknown event, a missing field, a field of the wrong type
    assert!(with(r#""hook_event_name": "Sunrise""#).is_none());
    assert!(with(r#""hook_event_name": "Stop""#).is_none());
    assert!(with(r#""hook_event_name": "PreCompact", "trigger": "now""#).is_none());
    assert!(with(r#""hook_event_name": "UserPromptSubmit", "prompt": 5"#).is_none());
    assert!(read(r#"{"hook_event_name": "Stop", "stop_hook_active": true}"#).is_none());
}

#[test]
fn test_hook_input_literal() {
    let input = HookInput::PreToolUse(PreToolUseHookInput {
        base: BaseHookInput {
            session_id: "test-session".to_string(),
            transcript_path: "/tmp/transcript".to_string(),
            cwd: "/test".to_string(),
            permission_mode: None,
        },
        hook_event_name: "PreToolUse".to_string(),
        tool_name: "TestTool".to_string(),
        tool_input: decode_line(r#"{"param": "value"}"#).unwrap(),
    });
    match input {
        HookInput::PreToolUse(pre) => assert_eq!(pre.tool_name, "TestTool"),
        _ => panic!("Expected PreToolUse input"),
    }
}
