//! Tests for the transport layer: options, command line and environment.

use agents_sdk::codec::encode;
use agents_sdk::json::Json;
use agents_sdk::options::{
    AgentDefinition, AgentModel, ClaudeAgentOptions, McpHttpServerConfig, McpSSEServerConfig,
    McpServerConfig, McpServersConfig, McpStdioServerConfig, SandboxIgnoreViolations,
    SandboxNetworkConfig, SandboxSettings, SdkBeta, SettingSource, SystemPromptConfig,
    SystemPromptPreset, ToolsConfig, ToolsPreset,
};
use agents_sdk::permission::PermissionMode;
use agents_sdk::transport::{build_args, build_env, TransportConfig, DEFAULT_MAX_BUFFER_SIZE};

fn strings(items: &[&str]) -> Vec<String> {
    items.iter().map(|s| s.to_string()).collect()
}

#[test]
fn test_options_for_basic_command() {
    let options = ClaudeAgentOptions::new();

    assert!(options.model.is_none());
    assert!(options.system_prompt.is_none());
    assert!(options.permission_mode.is_none());
    assert!(options.max_turns.is_none());
}

#[test]
fn test_options_with_system_prompt_string() {
    let options = ClaudeAgentOptions::new().with_system_prompt("Be helpful");

    match options.system_prompt {
        Some(SystemPromptConfig::Text(text)) => {
            assert_eq!(text, "Be helpful");
        }
        _ => panic!("Expected text system prompt"),
    }
}

#[test]
fn test_options_with_system_prompt_preset() {
    let mut options = ClaudeAgentOptions::new();
    options.system_prompt = Some(SystemPromptConfig::Preset(SystemPromptPreset {
        preset_type: "preset".to_string(),
        preset: "claude_code".to_string(),
        append: None,
    }));

    match options.system_prompt {
        Some(SystemPromptConfig::Preset(preset)) => {
            assert_eq!(preset.preset, "claude_code");
            assert!(preset.append.is_none());
        }
        _ => panic!("Expected preset system prompt"),
    }
}

#[test]
fn test_options_with_system_prompt_preset_and_append() {
    let mut options = ClaudeAgentOptions::new();
    options.system_prompt = Some(SystemPromptConfig::Preset(SystemPromptPreset {
        preset_type: "preset".to_string(),
        preset: "claude_code".to_string(),
        append: Some("Be concise.".to_string()),
    }));

    match options.system_prompt {
        Some(SystemPromptConfig::Preset(preset)) => {
            assert_eq!(preset.preset, "claude_code");
            assert_eq!(preset.append, Some("Be concise.".to_string()));
        }
        _ => panic!("Expected preset system prompt"),
    }
}

#[test]
fn test_options_with_model_and_permission_mode() {
    let options = ClaudeAgentOptions::new()
        .with_model("sonnet-4-5")
        .with_permission_mode(PermissionMode::AcceptEdits)
        .with_max_turns(5);

    assert_eq!(options.model, Some("sonnet-4-5".to_string()));
    assert_eq!(options.permission_mode, Some(PermissionMode::AcceptEdits));
    assert_eq!(options.max_turns, Some(5));
}

#[test]
fn test_options_with_allowed_and_disallowed_tools() {
    let mut options = ClaudeAgentOptions::new();
    options.allowed_tools = vec!["Read".to_string(), "Write".to_string()];
    options.disallowed_tools = vec!["Bash".to_string()];

    assert_eq!(options.allowed_tools, vec!["Read", "Write"]);
    assert_eq!(options.disallowed_tools, vec!["Bash"]);
}

#[test]
fn test_transport_test_options_with_fallback_model() {
    let mut options = ClaudeAgentOptions::new();
    options.model = Some("opus".to_string());
    options.fallback_model = Some("sonnet".to_string());

    assert_eq!(options.model, Some("opus".to_string()));
    assert_eq!(options.fallback_model, Some("sonnet".to_string()));
}

#[test]
fn test_transport_test_options_with_max_thinking_tokens() {
    let mut options = ClaudeAgentOptions::new();
    options.max_thinking_tokens = Some(5000);

    assert_eq!(options.max_thinking_tokens, Some(5000));
}

#[test]
fn test_transport_test_options_with_add_dirs() {
    let mut options = ClaudeAgentOptions::new();
    options.add_dirs = vec!["/path/to/dir1".to_string(), "/path/to/dir2".to_string()];

    assert_eq!(options.add_dirs.len(), 2);
}

#[test]
fn test_transport_test_options_with_session_continuation() {
    let mut options = ClaudeAgentOptions::new();
    options.continue_conversation = true;
    options.resume = Some("session-123".to_string());

    assert!(options.continue_conversation);
    assert_eq!(options.resume, Some("session-123".to_string()));
}

#[test]
fn test_options_with_settings_string() {
    let mut options = ClaudeAgentOptions::new();
    options.settings = Some(r#"{"permissions": {"allow": ["Bash(ls:*)"]}}"#.to_string());

    assert!(options.settings.is_some());
}

#[test]
fn test_transport_test_options_with_extra_args() {
    let mut options = ClaudeAgentOptions::new();
    options.extra_args = vec![
        ("new-flag".to_string(), Some("value".to_string())),
        ("boolean-flag".to_string(), None),
        ("another-option".to_string(), Some("test-value".to_string())),
    ];

    assert_eq!(options.extra_args.len(), 3);
    assert_eq!(
        options.extra_args[0],
        ("new-flag".to_string(), Some("value".to_string()))
    );
    assert_eq!(options.extra_args[1], ("boolean-flag".to_string(), None));
}

#[test]
fn test_options_with_mcp_servers_map() {
    let servers = vec![(
        "test-server".to_string(),
        McpServerConfig::Stdio(McpStdioServerConfig {
            server_type: "stdio".to_string(),
            command: "/path/to/server".to_string(),
            args: vec!["--option".to_string(), "value".to_string()],
            env: vec![],
        }),
    )];

    let mut options = ClaudeAgentOptions::new();
    options.mcp_servers = McpServersConfig::Servers(servers);

    match options.mcp_servers {
        McpServersConfig::Servers(servers) => {
            assert!(servers.iter().any(|(name, _)| name == "test-server"));
        }
        _ => panic!("Expected map config"),
    }
}

#[test]
fn test_options_with_mcp_servers_path() {
    let mut options = ClaudeAgentOptions::new();
    options.mcp_servers = McpServersConfig::Path("/path/to/mcp-config.json".to_string());

    match options.mcp_servers {
        McpServersConfig::Path(path) => {
            assert_eq!(path, "/path/to/mcp-config.json");
        }
        _ => panic!("Expected path config"),
    }
}

#[test]
fn test_transport_test_options_with_env_vars() {
    let mut options = ClaudeAgentOptions::new();
    options.env = vec![
        ("MY_TEST_VAR".to_string(), "test-value".to_string()),
        ("ANOTHER_VAR".to_string(), "another-value".to_string()),
    ];

    assert_eq!(options.env.len(), 2);
    let found = options.env.iter().find(|(name, _)| name == "MY_TEST_VAR");
    assert_eq!(found.map(|(_, v)| v), Some(&"test-value".to_string()));
}

#[test]
fn test_options_with_user() {
    let mut options = ClaudeAgentOptions::new();
    options.user = Some("operator".to_string());

    assert_eq!(options.user, Some("operator".to_string()));
}

#[test]
fn test_options_with_sandbox() {
    let mut options = ClaudeAgentOptions::new();
    options.sandbox = Some(SandboxSettings {
        enabled: true,
        auto_allow_bash_if_sandboxed: true,
        excluded_commands: vec![],
        allow_unsandboxed_commands: true,
        network: Some(SandboxNetworkConfig {
            allow_unix_sockets: vec!["/var/run/docker.sock".to_string()],
            allow_all_unix_sockets: false,
            allow_local_binding: true,
            http_proxy_port: None,
            socks_proxy_port: None,
        }),
        ignore_violations: None,
        enable_weaker_nested_sandbox: false,
    });

    assert!(options.sandbox.is_some());
    let sandbox = options.sandbox.unwrap();
    assert!(sandbox.enabled);
    assert!(sandbox.auto_allow_bash_if_sandboxed);
    assert!(sandbox.network.is_some());
}

#[test]
fn test_options_with_tools_array() {
    let mut options = ClaudeAgentOptions::new();
    options.tools = Some(ToolsConfig::List(vec![
        "Read".to_string(),
        "Edit".to_string(),
        "Bash".to_string(),
    ]));

    match options.tools {
        Some(ToolsConfig::List(tools)) => {
            assert_eq!(tools.len(), 3);
            assert!(tools.contains(&"Read".to_string()));
        }
        _ => panic!("Expected tools list"),
    }
}

#[test]
fn test_options_with_tools_empty_array() {
    let mut options = ClaudeAgentOptions::new();
    options.tools = Some(ToolsConfig::List(vec![]));

    match options.tools {
        Some(ToolsConfig::List(tools)) => {
            assert!(tools.is_empty());
        }
        _ => panic!("Expected empty tools list"),
    }
}

#[test]
fn test_transport_test_options_with_tools_preset() {
    let mut options = ClaudeAgentOptions::new();
    options.tools = Some(ToolsConfig::Preset(ToolsPreset {
        preset_type: "preset".to_string(),
        preset: "claude_code".to_string(),
    }));

    match options.tools {
        Some(ToolsConfig::Preset(preset)) => {
            assert_eq!(preset.preset, "claude_code");
        }
        _ => panic!("Expected tools preset"),
    }
}

#[test]
fn test_options_with_setting_sources() {
    let mut options = ClaudeAgentOptions::new();
    options.setting_sources = Some(vec![SettingSource::User, SettingSource::Project]);

    assert!(options.setting_sources.is_some());
    let sources = options.setting_sources.unwrap();
    assert_eq!(sources.len(), 2);
    assert!(sources.contains(&SettingSource::User));
    assert!(sources.contains(&SettingSource::Project));
}

#[test]
fn test_options_with_agents() {
    let agents = vec![(
        "test-agent".to_string(),
        AgentDefinition {
            description: "A test agent".to_string(),
            prompt: "You are a test agent".to_string(),
            tools: Some(vec!["Read".to_string()]),
            model: None,
        },
    )];

    let mut options = ClaudeAgentOptions::new();
    options.agents = Some(agents);

    assert!(options.agents.is_some());
    let agents = options.agents.unwrap();
    assert!(agents.iter().any(|(name, _)| name == "test-agent"));
}

#[test]
fn test_transport_test_permission_mode_serialization() {
    let written = |mode: PermissionMode| encode(&Json::string(mode.as_str())).unwrap();
    assert_eq!(written(PermissionMode::AcceptEdits), "\"acceptEdits\"");
    assert_eq!(
        written(PermissionMode::BypassPermissions),
        "\"bypassPermissions\""
    );
    assert_eq!(written(PermissionMode::Plan), "\"plan\"");
    assert_eq!(written(PermissionMode::Default), "\"default\"");
}

#[test]
fn test_setting_source_serialization() {
    let written = |source: SettingSource| encode(&Json::string(source.as_str())).unwrap();
    assert_eq!(written(SettingSource::User), "\"user\"");
    assert_eq!(written(SettingSource::Project), "\"project\"");
    assert_eq!(written(SettingSource::Local), "\"local\"");
}

#[test]
fn test_cli_path_option() {
    let mut options = ClaudeAgentOptions::new();
    options.cli_path = Some("/usr/local/bin/agent".to_string());

    assert_eq!(options.cli_path, Some("/usr/local/bin/agent".to_string()));
}

#[test]
fn test_cwd_option() {
    let options = ClaudeAgentOptions::new().with_cwd("/custom/path");

    assert_eq!(options.cwd, Some("/custom/path".to_string()));
}

#[test]
fn test_max_buffer_size_option() {
    let mut options = ClaudeAgentOptions::new();
    options.max_buffer_size = Some(1024 * 1024);

    assert_eq!(options.max_buffer_size, Some(1024 * 1024));
}

#[test]
fn test_build_args_basic() {
    let options = ClaudeAgentOptions::default();
    let args = build_args(&options, true, &None).unwrap();

    assert!(args.contains(&"--output-format".to_string()));
    assert!(args.contains(&"stream-json".to_string()));
    assert!(args.contains(&"--verbose".to_string()));
    assert!(args.contains(&"--input-format".to_string()));
    assert_eq!(
        args,
        strings(&[
            "--output-format",
            "stream-json",
            "--verbose",
            "--input-format",
            "stream-json",
            "--system-prompt",
            "",
        ])
    );
}

#[test]
fn test_build_args_with_model() {
    let options = ClaudeAgentOptions::new().with_model("sonnet-3");
    let args = build_args(&options, true, &None).unwrap();

    assert!(args.contains(&"--model".to_string()));
    assert!(args.contains(&"sonnet-3".to_string()));
}

#[test]
fn test_build_args_non_streaming() {
    let options = ClaudeAgentOptions::default();
    let args = build_args(&options, false, &Some("Hello".to_string())).unwrap();

    assert!(args.contains(&"--print".to_string()));
    assert!(args.contains(&"Hello".to_string()));
    assert!(!args.contains(&"--input-format".to_string()));
    assert_eq!(
        args,
        strings(&[
            "--output-format",
            "stream-json",
            "--verbose",
            "--system-prompt",
            "",
            "--print",
            "--",
            "Hello",
        ])
    );
}

#[test]
fn test_build_args_prompt_of_a_streaming_run_is_left_out() {
    let options = ClaudeAgentOptions::default();
    let args = build_args(&options, true, &Some("Hello".to_string())).unwrap();
    assert!(!args.contains(&"--print".to_string()));
    assert!(!args.contains(&"Hello".to_string()));
}

#[test]
fn test_build_env() {
    let mut options = ClaudeAgentOptions::default();
    options
        .env
        .push(("CUSTOM_VAR".to_string(), "value".to_string()));

    let inherited = vec![
        ("PATH".to_string(), "/bin".to_string()),
        ("CUSTOM_VAR".to_string(), "old".to_string()),
    ];
    let env = build_env(&inherited, &options);

    let last = |name: &str| {
        env.iter()
            .rev()
            .find(|(n, _)| n == name)
            .map(|(_, v)| v.clone())
    };
    assert_eq!(last("CLAUDE_SDK"), Some("true".to_string()));
    assert_eq!(last("CUSTOM_VAR"), Some("value".to_string()));
    assert_eq!(last("PATH"), Some("/bin".to_string()));
    assert_eq!(
        env,
        vec![
            ("PATH".to_string(), "/bin".to_string()),
            ("CUSTOM_VAR".to_string(), "old".to_string()),
            ("CUSTOM_VAR".to_string(), "value".to_string()),
            ("CLAUDE_SDK".to_string(), "true".to_string()),
        ]
    );
}

#[test]
fn test_build_args_system_prompt_none() {
    let options = ClaudeAgentOptions::default();
    let args = build_args(&options, true, &None).unwrap();

    let sp_idx = args.iter().position(|a| a == "--system-prompt");
    assert!(sp_idx.is_some(), "Should have --system-prompt flag");
    assert_eq!(
        args[sp_idx.unwrap() + 1],
        "",
        "System prompt should be empty string"
    );
}

#[test]
fn test_build_args_system_prompt_string() {
    let options = ClaudeAgentOptions::new().with_system_prompt("You are a pirate.");
    let args = build_args(&options, true, &None).unwrap();

    let sp_idx = args.iter().position(|a| a == "--system-prompt");
    assert!(sp_idx.is_some(), "Should have --system-prompt flag");
    assert_eq!(
        args[sp_idx.unwrap() + 1],
        "You are a pirate.",
        "System prompt should match"
    );
}

#[test]
fn test_build_args_system_prompt_preset_no_append() {
    let mut options = ClaudeAgentOptions::new();
    options.system_prompt = Some(SystemPromptConfig::Preset(SystemPromptPreset {
        preset_type: "preset".to_string(),
        preset: "claude_code".to_string(),
        append: None,
    }));
    let args = build_args(&options, true, &None).unwrap();

    assert!(
        !args.contains(&"--system-prompt".to_string()),
        "Should NOT have --system-prompt flag for preset"
    );
    assert!(
        !args.contains(&"--append-system-prompt".to_string()),
        "Should NOT have --append-system-prompt flag without append"
    );
}

#[test]
fn test_build_args_system_prompt_preset_with_append() {
    let mut options = ClaudeAgentOptions::new();
    options.system_prompt = Some(SystemPromptConfig::Preset(SystemPromptPreset {
        preset_type: "preset".to_string(),
        preset: "claude_code".to_string(),
        append: Some("Be concise.".to_string()),
    }));
    let args = build_args(&options, true, &None).unwrap();

    assert!(
        !args.contains(&"--system-prompt".to_string()),
        "Should NOT have --system-prompt flag for preset"
    );

    let append_idx = args.iter().position(|a| a == "--append-system-prompt");
    assert!(
        append_idx.is_some(),
        "Should have --append-system-prompt flag"
    );
    assert_eq!(
        args[append_idx.unwrap() + 1],
        "Be concise.",
        "Append text should match"
    );
}

#[test]
fn test_build_args_every_flag_in_order() {
    let mut options = ClaudeAgentOptions::new()
        .with_system_prompt("Be brief")
        .with_permission_mode(PermissionMode::Plan)
        .with_model("opus")
        .with_max_turns(7)
        .with_allowed_tools(strings(&["Read", "Write"]))
        .with_partial_messages();
    options.fallback_model = Some("sonnet".to_string());
    options.max_budget_usd = Some("1.5".to_string());
    options.max_thinking_tokens = Some(4294967295);
    options.continue_conversation = true;
    options.resume = Some("sess-1".to_string());
    options.fork_session = true;
    options.disallowed_tools = strings(&["Bash"]);
    options.tools = Some(ToolsConfig::List(strings(&["Edit", "Glob"])));
    options.mcp_servers = McpServersConfig::Path("/etc/mcp.json".to_string());
    options.user = Some("operator".to_string());
    options.settings = Some("{}".to_string());
    options.setting_sources = Some(vec![SettingSource::Local, SettingSource::User]);
    options.add_dirs = strings(&["/a", "/b"]);
    options.enable_file_checkpointing = true;
    options.betas = vec![SdkBeta::Context1m];
    options.extra_args = vec![
        ("debug".to_string(), None),
        ("level".to_string(), Some("3".to_string())),
    ];
    options.output_format = Some(Json::object());

    let args = build_args(&options, true, &None).unwrap();
    assert_eq!(
        args,
        strings(&[
            "--output-format",
            "stream-json",
            "--verbose",
            "--input-format",
            "stream-json",
            "--system-prompt",
            "Be brief",
            "--permission-mode",
            "plan",
            "--model",
            "opus",
            "--fallback-model",
            "sonnet",
            "--max-turns",
            "7",
            "--max-budget-usd",
            "1.5",
            "--max-thinking-tokens",
            "4294967295",
            "--continue",
            "--resume",
            "sess-1",
            "--fork-session",
            "--allowed-tools",
            "Read",
            "--allowed-tools",
            "Write",
            "--disallowed-tools",
            "Bash",
            "--tools",
            "Edit",
            "--tools",
            "Glob",
            "--mcp-config",
            "/etc/mcp.json",
            "--user",
            "operator",
            "--settings",
            "{}",
            "--setting-source",
            "local",
            "--setting-source",
            "user",
            "--add-dir",
            "/a",
            "--add-dir",
            "/b",
            "--include-partial-messages",
            "--enable-file-checkpointing",
            "--output-format-schema",
            "{}",
            "--beta",
            "context-1m-2025-08-07",
            "--debug",
            "--level",
            "3",
        ])
    );
}

#[test]
fn test_build_args_tools_preset_and_json_parts() {
    let mut options = ClaudeAgentOptions::new();
    options.tools = Some(ToolsConfig::Preset(ToolsPreset {
        preset_type: "preset".to_string(),
        preset: "claude_code".to_string(),
    }));
    options.mcp_servers = McpServersConfig::Servers(vec![
        (
            "files".to_string(),
            McpServerConfig::Stdio(McpStdioServerConfig {
                server_type: "stdio".to_string(),
                command: "/bin/files".to_string(),
                args: strings(&["--root", "/"]),
                env: vec![("MODE".to_string(), "ro".to_string())],
            }),
        ),
        (
            "events".to_string(),
            McpServerConfig::SSE(McpSSEServerConfig {
                server_type: "sse".to_string(),
                url: "http://localhost/sse".to_string(),
                headers: vec![],
            }),
        ),
        (
            "web".to_string(),
            McpServerConfig::Http(McpHttpServerConfig {
                server_type: "http".to_string(),
                url: "http://localhost/".to_string(),
                headers: vec![("X-Key".to_string(), "k".to_string())],
            }),
        ),
    ]);
    options.sandbox = Some(SandboxSettings {
        enabled: true,
        auto_allow_bash_if_sandboxed: false,
        excluded_commands: strings(&["rm"]),
        allow_unsandboxed_commands: true,
        network: Some(SandboxNetworkConfig {
            allow_unix_sockets: vec![],
            allow_all_unix_sockets: false,
            allow_local_binding: true,
            http_proxy_port: Some(8080),
            socks_proxy_port: None,
        }),
        ignore_violations: Some(SandboxIgnoreViolations {
            file: strings(&["/tmp"]),
            network: vec![],
        }),
        enable_weaker_nested_sandbox: false,
    });
    options.agents = Some(vec![(
        "helper".to_string(),
        AgentDefinition {
            description: "Helps".to_string(),
            prompt: "Help".to_string(),
            tools: Some(strings(&["Read"])),
            model: Some(AgentModel::Haiku),
        },
    )]);

    let args = build_args(&options, true, &None).unwrap();
    let value_after = |flag: &str| {
        let at = args.iter().position(|a| a == flag).unwrap();
        args[at + 1].clone()
    };
    assert_eq!(value_after("--tools-preset"), "claude_code");
    assert_eq!(
        value_after("--mcp-servers"),
        concat_all(&[
            r#"{"events":{"type":"sse","url":"http://localhost/sse"},"#,
            r#""files":{"args":["--root","/"],"command":"/bin/files","env":{"MODE":"ro"},"type":"stdio"},"#,
            r#""web":{"headers":{"X-Key":"k"},"type":"http","url":"http://localhost/"}}"#,
        ])
    );
    assert_eq!(
        value_after("--sandbox"),
        concat_all(&[
            r#"{"allowUnsandboxedCommands":true,"autoAllowBashIfSandboxed":false,"#,
            r#""enableWeakerNestedSandbox":false,"enabled":true,"excludedCommands":["rm"],"#,
            r#""ignoreViolations":{"file":["/tmp"]},"#,
            r#""network":{"allowAllUnixSockets":false,"allowLocalBinding":true,"httpProxyPort":8080}}"#,
        ])
    );
    assert_eq!(
        value_after("--agents"),
        r#"{"helper":{"description":"Helps","model":"haiku","prompt":"Help","tools":["Read"]}}"#
    );
    // the order of the parts that are written as JSON
    let place = |flag: &str| args.iter().position(|a| a == flag).unwrap();
    assert!(place("--tools-preset") < place("--mcp-servers"));
    assert!(place("--mcp-servers") < place("--sandbox"));
    assert!(place("--sandbox") < place("--agents"));
}

fn concat_all(parts: &[&str]) -> String {
    parts.concat()
}

#[test]
fn test_build_args_part_that_cannot_be_written() {
    // a number whose text is no JSON number cannot be written
    let mut options = ClaudeAgentOptions::new();
    options.output_format = Some(Json::Number("twelve".to_string()));
    let err = build_args(&options, true, &None).unwrap_err();
    assert_eq!(
        err.to_string(),
        "Configuration error: Failed to serialize output format"
    );
}

#[test]
fn test_transport_config() {
    let options = ClaudeAgentOptions::new().with_cwd("/work");
    let streaming = TransportConfig::new(&options, None).unwrap();
    assert!(streaming.is_streaming_mode());
    assert_eq!(streaming.max_buffer_size, DEFAULT_MAX_BUFFER_SIZE);
    assert_eq!(streaming.max_buffer_size, 1024 * 1024);
    assert_eq!(streaming.cwd, Some("/work".to_string()));
    assert!(streaming.args.contains(&"--input-format".to_string()));

    let mut sized = ClaudeAgentOptions::new();
    sized.max_buffer_size = Some(64);
    let one_shot = TransportConfig::new(&sized, Some("Hi".to_string())).unwrap();
    assert!(!one_shot.is_streaming_mode());
    assert_eq!(one_shot.max_buffer_size, 64);
    assert_eq!(one_shot.initial_prompt, Some("Hi".to_string()));
    assert_eq!(one_shot.args.last(), Some(&"Hi".to_string()));
}
