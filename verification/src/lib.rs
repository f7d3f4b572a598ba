//! The protocol of a session with an agent process that speaks
//! newline-delimited JSON over its standard input and output.
//!
//! The library holds everything about such a session that can be decided
//! without doing input or output: what a line from the peer is and where it
//! goes, which request a reply belongs to, what answers the peer's own
//! requests, how a session starts and stops, how the peer's command line is
//! put together. The caller runs the process, the tasks and the callbacks,
//! and asks the library at every step what is to be done.
//!
//! - [`json`]: JSON documents and their model; [`fault`]: why one could
//!   not be read; [`codec`]: lines to
//!   documents and back, through `serde_json`.
//! - [`control`], [`permission`], [`hooks`], [`messages`]: the records of
//!   the protocol and their wire forms; [`message_parser`] and
//!   [`message_wire`]: reading messages.
//! - [`query`]: the engine of a session; [`dispatch`], [`registry`],
//!   [`table`] and [`ids`] under it; [`laws`]: what holds of it.
//! - [`options`], [`transport`], [`client`], [`response`], [`version`],
//!   [`mcp`]: what stands around a session.
//!
//! Every function is verified against its contract. The few calls into
//! other crates stand behind small functions whose contracts are taken on
//! trust; each says which call it makes.

pub mod client;
pub mod codec;
pub mod control;
pub mod dispatch;
pub mod errors;
pub mod fault;
pub mod hooks;
pub mod ids;
pub mod json;
pub mod laws;
pub mod mcp;
pub mod message_parser;
pub mod message_wire;
pub mod messages;
pub mod options;
pub mod permission;
pub mod query;
pub mod registry;
pub mod response;
pub mod table;
pub mod text;
pub mod transport;
pub mod version;

pub use client::{ClaudeClient, ClaudeClientBuilder, InternalClient};
pub use control::{
    ControlErrorResponse, ControlRequest, ControlRequestPayload, ControlResponse,
    ControlResponsePayload, ControlSuccessResponse,
};
pub use errors::ClaudeSDKError;
pub use hooks::{
    AsyncHookOutput, BaseHookInput, CompactTrigger, HookCallback, HookContext, HookEvent,
    HookInput, HookMatcher, HookOutput, HookSpecificOutput, PostToolUseFailureHookInput,
    PostToolUseFailureHookSpecificOutput, PostToolUseHookInput, PostToolUseHookSpecificOutput,
    PreCompactHookInput, PreToolUseHookInput, PreToolUseHookSpecificOutput, StopHookInput,
    SubagentStopHookInput, SyncHookOutput, UserPromptSubmitHookInput,
    UserPromptSubmitHookSpecificOutput,
};
pub use json::Json;
pub use mcp::{
    create_sdk_mcp_server, McpSdkServerConfig, SdkMcpTool, ToolContent, ToolInputSchema, ToolResult,
};
pub use message_parser::parse_message;
pub use messages::{
    AssistantMessage, AssistantMessageError, ContentBlock, Message, ResultMessage, StreamEvent,
    SystemMessage, TextBlock, ThinkingBlock, ToolResultBlock, ToolUseBlock, UserMessage,
    UserMessageContent,
};
pub use options::{
    AgentDefinition, AgentModel, ClaudeAgentOptions, McpHttpServerConfig, McpSSEServerConfig,
    McpServerConfig, McpServersConfig, McpStdioServerConfig, SandboxIgnoreViolations,
    SandboxNetworkConfig, SandboxSettings, SdkBeta, SdkPluginConfig, SettingSource,
    SystemPromptConfig, SystemPromptPreset, ToolsConfig, ToolsPreset,
};
pub use permission::{
    CanUseTool, PermissionBehavior, PermissionMode, PermissionResult, PermissionResultAllow,
    PermissionResultDeny, PermissionRuleValue, PermissionUpdate, PermissionUpdateDestination,
    PermissionUpdateType, ToolPermissionContext,
};
pub use query::Query;
pub use version::{MIN_CLI_VERSION, VERSION};
