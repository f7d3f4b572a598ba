//! Tests for type definitions.

use agents_sdk::codec::{decode_line, encode};
use agents_sdk::control::{ControlResponse, ControlResponsePayload};
use agents_sdk::hooks::{HookEvent, SyncHookOutput};
use agents_sdk::json::Json;
use agents_sdk::messages::{
    AssistantMessage, ContentBlock, Message, ResultMessage, TextBlock, ToolUseBlock, UserMessage,
    UserMessageContent,
};
use agents_sdk::options::{
    default_stdio, default_true, AgentDefinition, AgentModel, ClaudeAgentOptions, McpServerConfig,
    McpStdioServerConfig, SandboxNetworkConfig, SandboxSettings, StderrCallback,
};
use agents_sdk::permission::{PermissionMode, PermissionResult, PermissionResultAllow};

fn types_doc(text: &str) -> Json {
    decode_line(text).unwrap()
}

#[test]
fn test_types_test_permission_mode_serialization() {
    let mode = PermissionMode::AcceptEdits;
    let json = encode(&Json::string(mode.as_str())).unwrap();
    assert_eq!(json, r#""acceptEdits""#);

    let read = types_doc(r#""bypassPermissions""#);
    let mode = PermissionMode::parse(read.as_str().unwrap()).unwrap();
    assert_eq!(mode, PermissionMode::BypassPermissions);
    assert_eq!(PermissionMode::parse("bypass"), None);
    assert_eq!(PermissionMode::default(), PermissionMode::Default);
}

#[test]
fn test_types_test_permission_result_allow() {
    let result = PermissionResult::allow();
    let json = result.to_json();
    assert_eq!(json.get_str("behavior"), Some("allow"));
}

#[test]
fn types_test_permission_result_allow() {
    let result = PermissionResult::allow();
    let json = encode(&result.to_json()).unwrap();
    assert!(json.contains("allow"));
    assert_eq!(json, r#"{"behavior":"allow"}"#);
}

#[test]
fn test_types_test_permission_result_deny() {
    let result = PermissionResult::deny_with_message("Not allowed");
    let json = result.to_json();
    assert_eq!(json.get_str("behavior"), Some("deny"));
    assert_eq!(json.get_str("message"), Some("Not allowed"));
    assert_eq!(json.get_bool("interrupt"), Some(false));
}

#[test]
fn test_types_test_permission_result_allow_with_updated_input() {
    let result = PermissionResult::Allow(PermissionResultAllow {
        behavior: "allow".to_string(),
        updated_input: Some(types_doc(r#"{"modified": true}"#)),
        updated_permissions: None,
    });
    let json = result.to_json();
    assert_eq!(json.get_str("behavior"), Some("allow"));
    assert_eq!(
        json.get("updatedInput").unwrap().get_bool("modified"),
        Some(true)
    );
    assert!(json.get("updatedPermissions").is_none());
}

#[test]
fn test_types_test_content_block_text() {
    let block = ContentBlock::Text(TextBlock {
        text: "Hello, world!".to_string(),
    });
    assert_eq!(block.as_text(), Some("Hello, world!"));
    assert!(!block.is_tool_use());
}

#[test]
fn types_test_content_block_text() {
    let block = ContentBlock::Text(TextBlock {
        text: "Hello".to_string(),
    });
    assert_eq!(block.as_text(), Some("Hello"));
}

#[test]
fn test_content_block_tool_use() {
    let block = ContentBlock::ToolUse(ToolUseBlock {
        id: "tool_123".to_string(),
        name: "Bash".to_string(),
        input: types_doc(r#"{"command": "ls"}"#),
    });
    assert!(block.is_tool_use());
    assert!(block.as_text().is_none());
}

#[test]
fn test_user_message_text() {
    let msg = UserMessage {
        content: UserMessageContent::Text("Hello".to_string()),
        uuid: None,
        parent_tool_use_id: None,
    };
    assert_eq!(msg.text(), Some("Hello"));
}

#[test]
fn test_user_message_text_of_blocks() {
    let text = |t: &str| {
        ContentBlock::Text(TextBlock {
            text: t.to_string(),
        })
    };
    let of = |blocks: Vec<ContentBlock>| UserMessage {
        content: UserMessageContent::Blocks(blocks),
        uuid: None,
        parent_tool_use_id: None,
    };
    // one text block is the text of the message
    assert_eq!(of(vec![text("only")]).text(), Some("only"));
    // no block, two blocks, or a block that is no text: no text
    assert_eq!(of(vec![]).text(), None);
    assert_eq!(of(vec![text("a"), text("b")]).text(), None);
    let tool = ContentBlock::ToolUse(ToolUseBlock {
        id: "t".to_string(),
        name: "Bash".to_string(),
        input: Json::Null,
    });
    assert_eq!(of(vec![tool]).text(), None);
}

#[test]
fn test_types_test_assistant_message_text() {
    let msg = AssistantMessage {
        content: vec![
            ContentBlock::Text(TextBlock {
                text: "Hello ".to_string(),
            }),
            ContentBlock::Text(TextBlock {
                text: "world!".to_string(),
            }),
        ],
        model: "sonnet-3".to_string(),
        parent_tool_use_id: None,
        error: None,
    };
    assert_eq!(msg.text(), "Hello world!");
}

#[test]
fn test_types_test_assistant_message_tool_uses() {
    let msg = AssistantMessage {
        content: vec![
            ContentBlock::Text(TextBlock {
                text: "Let me run a command".to_string(),
            }),
            ContentBlock::ToolUse(ToolUseBlock {
                id: "tool_1".to_string(),
                name: "Bash".to_string(),
                input: types_doc(r#"{"command": "ls"}"#),
            }),
            ContentBlock::ToolUse(ToolUseBlock {
                id: "tool_2".to_string(),
                name: "Read".to_string(),
                input: types_doc(r#"{"path": "/tmp/file.txt"}"#),
            }),
        ],
        model: "model-3".to_string(),
        parent_tool_use_id: None,
        error: None,
    };

    let tool_uses = msg.tool_uses();
    assert_eq!(tool_uses.len(), 2);
    assert_eq!(tool_uses[0].name, "Bash");
    assert_eq!(tool_uses[1].name, "Read");
    // the text of the message passes over the blocks that are no text
    assert_eq!(msg.text(), "Let me run a command");
}

#[test]
fn test_message_is_result() {
    let msg = Message::Result(ResultMessage {
        subtype: "success".to_string(),
        duration_ms: 1000,
        duration_api_ms: 500,
        is_error: false,
        num_turns: 3,
        session_id: "sess_123".to_string(),
        total_cost_usd: Some("0.05".to_string()),
        usage: None,
        result: Some("Done".to_string()),
        structured_output: None,
    });
    assert!(msg.is_result());
    assert!(!msg.is_assistant());
}

#[test]
fn test_types_test_message_as_assistant() {
    let msg = Message::Assistant(AssistantMessage {
        content: vec![ContentBlock::Text(TextBlock {
            text: "Hi".to_string(),
        })],
        model: "model-3".to_string(),
        parent_tool_use_id: None,
        error: None,
    });

    assert!(msg.is_assistant());
    assert!(msg.as_assistant().is_some());
    assert!(msg.as_result().is_none());
}

#[test]
fn test_claude_agent_options_builder() {
    let options = ClaudeAgentOptions::new()
        .with_model("model-3-opus")
        .with_max_turns(10)
        .with_system_prompt("You are a helpful assistant.")
        .with_permission_mode(PermissionMode::AcceptEdits)
        .with_partial_messages();

    assert_eq!(options.model, Some("model-3-opus".to_string()));
    assert_eq!(options.max_turns, Some(10));
    assert!(options.include_partial_messages);
    assert_eq!(options.permission_mode, Some(PermissionMode::AcceptEdits));
}

#[test]
fn test_claude_agent_options_with_allowed_tools() {
    let options =
        ClaudeAgentOptions::new().with_allowed_tools(vec!["Bash".to_string(), "Read".to_string()]);

    assert_eq!(options.allowed_tools.len(), 2);
    assert!(options.allowed_tools.contains(&"Bash".to_string()));
}

#[test]
fn test_options_builder() {
    let opts = ClaudeAgentOptions::new()
        .with_model("sonnet-3")
        .with_max_turns(5)
        .with_permission_mode(PermissionMode::AcceptEdits);

    assert_eq!(opts.model, Some("sonnet-3".to_string()));
    assert_eq!(opts.max_turns, Some(5));
    assert_eq!(opts.permission_mode, Some(PermissionMode::AcceptEdits));
}

#[test]
fn test_options_with_timeout() {
    let options = ClaudeAgentOptions::new().with_timeout_secs(30);
    assert_eq!(options.timeout_secs, Some(30));
    assert!(ClaudeAgentOptions::new().timeout_secs.is_none());
}

#[test]
fn test_hook_event_serialization() {
    let event = HookEvent::PreToolUse;
    let json = encode(&Json::string(event.as_str())).unwrap();
    assert_eq!(json, r#""PreToolUse""#);
    let names = [
        (HookEvent::PreToolUse, "PreToolUse"),
        (HookEvent::PostToolUse, "PostToolUse"),
        (HookEvent::PostToolUseFailure, "PostToolUseFailure"),
        (HookEvent::UserPromptSubmit, "UserPromptSubmit"),
        (HookEvent::Stop, "Stop"),
        (HookEvent::SubagentStop, "SubagentStop"),
        (HookEvent::PreCompact, "PreCompact"),
    ];
    for (event, name) in names {
        assert_eq!(event.as_str(), name);
        assert_eq!(HookEvent::parse(name), Some(event));
    }
    assert_eq!(HookEvent::parse("pretooluse"), None);
}

#[test]
fn test_sandbox_settings() {
    let settings = SandboxSettings {
        enabled: true,
        auto_allow_bash_if_sandboxed: true,
        excluded_commands: vec!["docker".to_string()],
        allow_unsandboxed_commands: false,
        network: Some(SandboxNetworkConfig {
            allow_unix_sockets: vec!["/var/run/docker.sock".to_string()],
            allow_local_binding: true,
            ..Default::default()
        }),
        ..Default::default()
    };

    let json = settings.to_json();
    assert_eq!(json.get_bool("enabled"), Some(true));
    let excluded = json.get("excludedCommands").unwrap().as_array().unwrap();
    assert_eq!(excluded[0].as_str(), Some("docker"));
    assert_eq!(
        encode(&json).unwrap(),
        concat_parts(&[
            r#"{"allowUnsandboxedCommands":false,"autoAllowBashIfSandboxed":true,"#,
            r#""enableWeakerNestedSandbox":false,"enabled":true,"excludedCommands":["docker"],"#,
            r#""network":{"allowAllUnixSockets":false,"allowLocalBinding":true,"#,
            r#""allowUnixSockets":["/var/run/docker.sock"]}}"#,
        ])
    );
}

fn concat_parts(parts: &[&str]) -> String {
    parts.concat()
}

#[test]
fn test_mcp_server_config_stdio() {
    let config = McpServerConfig::Stdio(McpStdioServerConfig {
        server_type: "stdio".to_string(),
        command: "node".to_string(),
        args: vec!["server.js".to_string()],
        env: vec![],
    });

    let json = config.to_json();
    assert_eq!(json.get_str("type"), Some("stdio"));
    assert_eq!(json.get_str("command"), Some("node"));
    assert!(json.get("env").is_none());
    assert_eq!(
        encode(&json).unwrap(),
        r#"{"args":["server.js"],"command":"node","type":"stdio"}"#
    );
}

#[test]
fn test_agent_definition() {
    let agent = AgentDefinition {
        description: "A coding agent".to_string(),
        prompt: "You are a coding assistant.".to_string(),
        tools: Some(vec!["Bash".to_string(), "Read".to_string()]),
        model: Some(AgentModel::Sonnet),
    };

    let json = agent.to_json();
    assert_eq!(json.get_str("description"), Some("A coding agent"));
    assert_eq!(json.get_str("model"), Some("sonnet"));
}

#[test]
fn test_control_response_success() {
    let response = ControlResponse {
        response_type: "control_response".to_string(),
        response: ControlResponsePayload::Success {
            request_id: "req_123".to_string(),
            response: Some(types_doc(r#"{"initialized": true}"#)),
        },
    };

    assert!(response.is_success());
    assert_eq!(response.request_id(), "req_123");
    assert!(response.data().is_some());
    assert!(response.error().is_none());
}

#[test]
fn test_control_response_error() {
    let response = ControlResponse {
        response_type: "control_response".to_string(),
        response: ControlResponsePayload::Error {
            request_id: "req_456".to_string(),
            error: "Something went wrong".to_string(),
        },
    };

    assert!(!response.is_success());
    assert_eq!(response.error(), Some("Something went wrong"));
    assert!(response.data().is_none());
    assert_eq!(response.request_id(), "req_456");
}

#[test]
fn test_sync_hook_output() {
    let output = SyncHookOutput {
        continue_: Some(true),
        suppress_output: Some(false),
        ..Default::default()
    };

    let json = output.to_json();
    // the member goes by the name "continue", not by the name of the field
    assert_eq!(json.get_bool("continue"), Some(true));
    assert!(json.get("continue_").is_none());
    assert_eq!(json.get_bool("suppressOutput"), Some(false));
}

#[test]
fn test_client_builder_chain() {
    let options = ClaudeAgentOptions::new()
        .with_model("sonnet-3")
        .with_max_turns(5)
        .with_system_prompt("Test prompt")
        .with_permission_mode(PermissionMode::AcceptEdits);

    assert_eq!(options.model, Some("sonnet-3".to_string()));
    assert_eq!(options.max_turns, Some(5));
    assert_eq!(options.permission_mode, Some(PermissionMode::AcceptEdits));
}

#[test]
fn test_options_with_stderr_callback() {
    let mut options = ClaudeAgentOptions::new();
    options.stderr = Some(StderrCallback {});
    assert!(options.stderr.is_some());
}

#[test]
fn test_types_test_options_with_allowed_tools() {
    let options =
        ClaudeAgentOptions::new().with_allowed_tools(vec!["Read".to_string(), "Write".to_string()]);

    assert_eq!(options.allowed_tools.len(), 2);
    assert!(options.allowed_tools.contains(&"Read".to_string()));
}

#[test]
fn test_types_test_options_with_cwd() {
    let options = ClaudeAgentOptions::new().with_cwd("/tmp/test");

    assert_eq!(options.cwd, Some("/tmp/test".to_string()));
}

#[test]
fn test_config_defaults() {
    assert_eq!(default_stdio(), "stdio");
    assert!(default_true());
}
