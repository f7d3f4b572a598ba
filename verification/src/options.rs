//! The options of a session and the configuration records they hold.

use crate::errors::{ClaudeSDKError, ErrorValue};
use crate::hooks::{HookEvent, HookMatcher};
use crate::json::{members_view, opt_json_view, Json, JsonValue};
use crate::permission::{CanUseTool, PermissionMode};
use crate::text::{opt_view, views};
use vstd::prelude::*;
use vstd::string::StringExecFns;

verus! {

/// A preset system prompt, with an optional text to append.
#[derive(Debug, Clone)]
pub struct SystemPromptPreset {
    /// Always `preset`.
    pub preset_type: String,
    pub preset: String,
    pub append: Option<String>,
}

/// A preset of tools.
#[derive(Debug, Clone)]
pub struct ToolsPreset {
    /// Always `preset`.
    pub preset_type: String,
    pub preset: String,
}

/// The system prompt: a text of one's own, or a preset.
#[derive(Debug, Clone)]
pub enum SystemPromptConfig {
    Text(String),
    Preset(SystemPromptPreset),
}

/// The tools: a list of names, or a preset.
#[derive(Debug, Clone)]
pub enum ToolsConfig {
    List(Vec<String>),
    Preset(ToolsPreset),
}

/// The model of an agent.
#[derive(Debug, Clone, Copy, PartialEq, Eq, Structural)]
pub enum AgentModel {
    Sonnet,
    Opus,
    Haiku,
    Inherit,
}

impl AgentModel {
    /// The name on the wire.
    pub open spec fn wire_name(self) -> Seq<char> {
        match self {
            AgentModel::Sonnet => "sonnet"@,
            AgentModel::Opus => "opus"@,
            AgentModel::Haiku => "haiku"@,
            AgentModel::Inherit => "inherit"@,
        }
    }

    /// The name on the wire.
    pub fn as_str(&self) -> (r: &'static str)
        ensures
            r@ == self.wire_name(),
    {
        match self {
            AgentModel::Sonnet => "sonnet",
            AgentModel::Opus => "opus",
            AgentModel::Haiku => "haiku",
            AgentModel::Inherit => "inherit",
        }
    }
}

/// The definition of an agent.
#[derive(Debug, Clone)]
pub struct AgentDefinition {
    pub description: String,
    pub prompt: String,
    pub tools: Option<Vec<String>>,
    pub model: Option<AgentModel>,
}

/// Where settings are read from.
#[derive(Debug, Clone, Copy, PartialEq, Eq, Structural)]
pub enum SettingSource {
    User,
    Project,
    Local,
}

impl SettingSource {
    /// The name on the wire.
    pub open spec fn wire_name(self) -> Seq<char> {
        match self {
            SettingSource::User => "user"@,
            SettingSource::Project => "project"@,
            SettingSource::Local => "local"@,
        }
    }

    /// The name on the wire.
    pub fn as_str(&self) -> (r: &'static str)
        ensures
            r@ == self.wire_name(),
    {
        match self {
            SettingSource::User => "user",
            SettingSource::Project => "project",
            SettingSource::Local => "local",
        }
    }
}

/// A beta feature.
#[derive(Debug, Clone, Copy, PartialEq, Eq, Structural)]
pub enum SdkBeta {
    /// The extended context.
    Context1m,
}

impl SdkBeta {
    /// The name on the wire.
    pub open spec fn wire_name(self) -> Seq<char> {
        match self {
            SdkBeta::Context1m => "context-1m-2025-08-07"@,
        }
    }

    /// The name on the wire.
    pub fn as_str(&self) -> (r: &'static str)
        ensures
            r@ == self.wire_name(),
    {
        match self {
            SdkBeta::Context1m => "context-1m-2025-08-07",
        }
    }
}

/// A tool server reached over standard input and output.
#[derive(Debug, Clone)]
pub struct McpStdioServerConfig {
    /// Always `stdio`.
    pub server_type: String,
    pub command: String,
    pub args: Vec<String>,
    pub env: Vec<(String, String)>,
}

/// A tool server reached over server-sent events.
#[derive(Debug, Clone)]
pub struct McpSSEServerConfig {
    /// Always `sse`.
    pub server_type: String,
    pub url: String,
    pub headers: Vec<(String, String)>,
}

/// A tool server reached over HTTP.
#[derive(Debug, Clone)]
pub struct McpHttpServerConfig {
    /// Always `http`.
    pub server_type: String,
    pub url: String,
    pub headers: Vec<(String, String)>,
}

/// The configuration of a tool server.
#[derive(Debug, Clone)]
pub enum McpServerConfig {
    Stdio(McpStdioServerConfig),
    SSE(McpSSEServerConfig),
    Http(McpHttpServerConfig),
}

/// The tool servers: by name, or the path of a file that lists them.
#[derive(Debug, Clone)]
pub enum McpServersConfig {
    Servers(Vec<(String, McpServerConfig)>),
    Path(String),
}

impl Default for McpServersConfig {
    fn default() -> (r: Self)
        ensures
            r matches McpServersConfig::Servers(servers) && servers@.len() == 0,
    {
        McpServersConfig::Servers(Vec::new())
    }
}

/// A plugin.
#[derive(Debug, Clone)]
pub struct SdkPluginConfig {
    pub plugin_type: String,
    pub path: String,
}

/// What of the network a sandbox may reach.
#[derive(Debug, Clone)]
pub struct SandboxNetworkConfig {
    pub allow_unix_sockets: Vec<String>,
    pub allow_all_unix_sockets: bool,
    pub allow_local_binding: bool,
    pub http_proxy_port: Option<u16>,
    pub socks_proxy_port: Option<u16>,
}

/// The violations that a sandbox passes over.
#[derive(Debug, Clone)]
pub struct SandboxIgnoreViolations {
    pub file: Vec<String>,
    pub network: Vec<String>,
}

/// The settings of the sandbox.
#[derive(Debug, Clone)]
pub struct SandboxSettings {
    pub enabled: bool,
    pub auto_allow_bash_if_sandboxed: bool,
    pub excluded_commands: Vec<String>,
    pub allow_unsandboxed_commands: bool,
    pub network: Option<SandboxNetworkConfig>,
    pub ignore_violations: Option<SandboxIgnoreViolations>,
    pub enable_weaker_nested_sandbox: bool,
}

/// The type of a tool server that no type was written for.
pub fn default_stdio() -> (r: String)
    ensures
        r@ == "stdio"@,
{
    String::from_str("stdio")
}

/// The value of a switch that is on unless it is turned off.
pub fn default_true() -> (r: bool)
    ensures
        r,
{
    true
}

impl Default for SandboxNetworkConfig {
    fn default() -> (r: Self)
        ensures
            r.allow_unix_sockets@.len() == 0,
            !r.allow_all_unix_sockets,
            !r.allow_local_binding,
            r.http_proxy_port is None,
            r.socks_proxy_port is None,
    {
        SandboxNetworkConfig {
            allow_unix_sockets: Vec::new(),
            allow_all_unix_sockets: false,
            allow_local_binding: false,
            http_proxy_port: None,
            socks_proxy_port: None,
        }
    }
}

impl Default for SandboxIgnoreViolations {
    fn default() -> (r: Self)
        ensures
            r.file@.len() == 0,
            r.network@.len() == 0,
    {
        SandboxIgnoreViolations { file: Vec::new(), network: Vec::new() }
    }
}

impl Default for SandboxSettings {
    fn default() -> (r: Self)
        ensures
            !r.enabled,
            !r.auto_allow_bash_if_sandboxed,
            r.excluded_commands@.len() == 0,
            !r.allow_unsandboxed_commands,
            r.network is None,
            r.ignore_violations is None,
            !r.enable_weaker_nested_sandbox,
    {
        SandboxSettings {
            enabled: false,
            auto_allow_bash_if_sandboxed: false,
            excluded_commands: Vec::new(),
            allow_unsandboxed_commands: false,
            network: None,
            ignore_violations: None,
            enable_weaker_nested_sandbox: false,
        }
    }
}

/// An object with a string member for each pair, in order.
pub open spec fn pairs_wire(pairs: Seq<(String, String)>) -> JsonValue {
    JsonValue::Object(Seq::new(pairs.len(), |i: int| (pairs[i].0@, JsonValue::String(pairs[i].1@))))
}

/// An array of the strings, where there are any.
pub open spec fn nonempty_strings(items: Seq<String>) -> Option<JsonValue> {
    if items.len() > 0 {
        Some(JsonValue::of_strings(views(items)))
    } else {
        None
    }
}

/// An object with a string member for each pair, where there are any.
pub open spec fn nonempty_pairs(pairs: Seq<(String, String)>) -> Option<JsonValue> {
    if pairs.len() > 0 {
        Some(pairs_wire(pairs))
    } else {
        None
    }
}

fn pairs_json(pairs: &Vec<(String, String)>) -> (r: Json)
    ensures
        r@ == pairs_wire(pairs@),
{
    let mut members: Vec<(String, Json)> = Vec::new();
    let mut i: usize = 0;
    while i < pairs.len()
        invariant
            0 <= i <= pairs.len(),
            members@.len() == i,
            forall|k: int|
                0 <= k < i ==> (#[trigger] members@[k]).0@ == pairs@[k].0@ && members@[k].1@
                    == JsonValue::String(pairs@[k].1@),
        decreases pairs.len() - i,
    {
        members.push((pairs[i].0.clone(), Json::String(pairs[i].1.clone())));
        i += 1;
    }
    proof {
        assert(members_view(members@) =~= Seq::new(
            pairs@.len(),
            |i: int| (pairs@[i].0@, JsonValue::String(pairs@[i].1@)),
        ));
    }
    Json::Object(members)
}

fn nonempty_strings_json(items: &Vec<String>) -> (r: Option<Json>)
    ensures
        opt_json_view(r) == nonempty_strings(items@),
{
    if items.len() > 0 {
        Some(Json::of_strings(items))
    } else {
        None
    }
}

fn nonempty_pairs_json(pairs: &Vec<(String, String)>) -> (r: Option<Json>)
    ensures
        opt_json_view(r) == nonempty_pairs(pairs@),
{
    if pairs.len() > 0 {
        Some(pairs_json(pairs))
    } else {
        None
    }
}

impl McpServerConfig {
    /// The tag that tells the kinds of server apart on the wire.
    pub open spec fn tag(&self) -> Seq<char> {
        match self {
            McpServerConfig::Stdio(_) => "stdio"@,
            McpServerConfig::SSE(_) => "sse"@,
            McpServerConfig::Http(_) => "http"@,
        }
    }

    /// The wire form: the tag under `type`, then the fields of the kind, its
    /// own `type` among them; an empty list or table is left out.
    pub open spec fn wire(&self) -> JsonValue {
        let head = JsonValue::empty_object().with("type"@, JsonValue::String(self.tag()));
        match self {
            McpServerConfig::Stdio(c) => head.with("type"@, JsonValue::String(c.server_type@)).with(
                "command"@,
                JsonValue::String(c.command@),
            ).with_opt("args"@, nonempty_strings(c.args@)).with_opt("env"@, nonempty_pairs(c.env@)),
            McpServerConfig::SSE(c) => head.with("type"@, JsonValue::String(c.server_type@)).with(
                "url"@,
                JsonValue::String(c.url@),
            ).with_opt("headers"@, nonempty_pairs(c.headers@)),
            McpServerConfig::Http(c) => head.with("type"@, JsonValue::String(c.server_type@)).with(
                "url"@,
                JsonValue::String(c.url@),
            ).with_opt("headers"@, nonempty_pairs(c.headers@)),
        }
    }

    /// The wire form of the configuration.
    pub fn to_json(&self) -> (r: Json)
        ensures
            r@ == self.wire(),
    {
        let mut o = Json::object();
        match self {
            McpServerConfig::Stdio(c) => {
                o.insert("type", Json::string("stdio"));
                o.insert("type", Json::String(c.server_type.clone()));
                o.insert("command", Json::String(c.command.clone()));
                o.insert_opt("args", nonempty_strings_json(&c.args));
                o.insert_opt("env", nonempty_pairs_json(&c.env));
            },
            McpServerConfig::SSE(c) => {
                o.insert("type", Json::string("sse"));
                o.insert("type", Json::String(c.server_type.clone()));
                o.insert("url", Json::String(c.url.clone()));
                o.insert_opt("headers", nonempty_pairs_json(&c.headers));
            },
            McpServerConfig::Http(c) => {
                o.insert("type", Json::string("http"));
                o.insert("type", Json::String(c.server_type.clone()));
                o.insert("url", Json::String(c.url.clone()));
                o.insert_opt("headers", nonempty_pairs_json(&c.headers));
            },
        }
        o
    }
}

/// The wire form of the tool servers: an object with a member for each
/// server, in order, under the server's name.
pub open spec fn servers_wire(servers: Seq<(String, McpServerConfig)>) -> JsonValue {
    JsonValue::Object(Seq::new(servers.len(), |i: int| (servers[i].0@, servers[i].1.wire())))
}

/// The wire form of the tool servers.
pub fn servers_to_json(servers: &Vec<(String, McpServerConfig)>) -> (r: Json)
    ensures
        r@ == servers_wire(servers@),
{
    let mut members: Vec<(String, Json)> = Vec::new();
    let mut i: usize = 0;
    while i < servers.len()
        invariant
            0 <= i <= servers.len(),
            members@.len() == i,
            forall|k: int|
                0 <= k < i ==> (#[trigger] members@[k]).0@ == servers@[k].0@ && members@[k].1@
                    == servers@[k].1.wire(),
        decreases servers.len() - i,
    {
        members.push((servers[i].0.clone(), servers[i].1.to_json()));
        i += 1;
    }
    proof {
        assert(members_view(members@) =~= Seq::new(
            servers@.len(),
            |i: int| (servers@[i].0@, servers@[i].1.wire()),
        ));
    }
    Json::Object(members)
}

/// A port number member, where there is a port.
pub open spec fn opt_port(port: Option<u16>) -> Option<JsonValue> {
    match port {
        Some(p) => Some(JsonValue::of_u64(p as u64)),
        None => None,
    }
}

fn opt_port_json(port: Option<u16>) -> (r: Option<Json>)
    ensures
        opt_json_view(r) == opt_port(port),
{
    match port {
        Some(p) => Some(Json::from_u64(p as u64)),
        None => None,
    }
}

impl SandboxNetworkConfig {
    /// The wire form, in camel case; an empty list and an absent port are left out.
    pub open spec fn wire(&self) -> JsonValue {
        JsonValue::empty_object().with_opt(
            "allowUnixSockets"@,
            nonempty_strings(self.allow_unix_sockets@),
        ).with("allowAllUnixSockets"@, JsonValue::Bool(self.allow_all_unix_sockets)).with(
            "allowLocalBinding"@,
            JsonValue::Bool(self.allow_local_binding),
        ).with_opt("httpProxyPort"@, opt_port(self.http_proxy_port)).with_opt(
            "socksProxyPort"@,
            opt_port(self.socks_proxy_port),
        )
    }

    /// The wire form.
    pub fn to_json(&self) -> (r: Json)
        ensures
            r@ == self.wire(),
    {
        let mut o = Json::object();
        o.insert_opt("allowUnixSockets", nonempty_strings_json(&self.allow_unix_sockets));
        o.insert("allowAllUnixSockets", Json::Bool(self.allow_all_unix_sockets));
        o.insert("allowLocalBinding", Json::Bool(self.allow_local_binding));
        o.insert_opt("httpProxyPort", opt_port_json(self.http_proxy_port));
        o.insert_opt("socksProxyPort", opt_port_json(self.socks_proxy_port));
        o
    }
}

impl SandboxIgnoreViolations {
    /// The wire form; an empty list is left out.
    pub open spec fn wire(&self) -> JsonValue {
        JsonValue::empty_object().with_opt("file"@, nonempty_strings(self.file@)).with_opt(
            "network"@,
            nonempty_strings(self.network@),
        )
    }

    /// The wire form.
    pub fn to_json(&self) -> (r: Json)
        ensures
            r@ == self.wire(),
    {
        let mut o = Json::object();
        o.insert_opt("file", nonempty_strings_json(&self.file));
        o.insert_opt("network", nonempty_strings_json(&self.network));
        o
    }
}

impl SandboxSettings {
    /// The wire form, in camel case; an empty list and an absent record are left out.
    pub open spec fn wire(&self) -> JsonValue {
        JsonValue::empty_object().with("enabled"@, JsonValue::Bool(self.enabled)).with(
            "autoAllowBashIfSandboxed"@,
            JsonValue::Bool(self.auto_allow_bash_if_sandboxed),
        ).with_opt("excludedCommands"@, nonempty_strings(self.excluded_commands@)).with(
            "allowUnsandboxedCommands"@,
            JsonValue::Bool(self.allow_unsandboxed_commands),
        ).with_opt(
            "network"@,
            match self.network {
                Some(n) => Some(n.wire()),
                None => None,
            },
        ).with_opt(
            "ignoreViolations"@,
            match self.ignore_violations {
                Some(v) => Some(v.wire()),
                None => None,
            },
        ).with("enableWeakerNestedSandbox"@, JsonValue::Bool(self.enable_weaker_nested_sandbox))
    }

    /// The wire form.
    pub fn to_json(&self) -> (r: Json)
        ensures
            r@ == self.wire(),
    {
        let mut o = Json::object();
        o.insert("enabled", Json::Bool(self.enabled));
        o.insert("autoAllowBashIfSandboxed", Json::Bool(self.auto_allow_bash_if_sandboxed));
        o.insert_opt("excludedCommands", nonempty_strings_json(&self.excluded_commands));
        o.insert("allowUnsandboxedCommands", Json::Bool(self.allow_unsandboxed_commands));
        match &self.network {
            Some(n) => o.insert("network", n.to_json()),
            None => {},
        }
        match &self.ignore_violations {
            Some(v) => o.insert("ignoreViolations", v.to_json()),
            None => {},
        }
        o.insert("enableWeakerNestedSandbox", Json::Bool(self.enable_weaker_nested_sandbox));
        o
    }
}

impl AgentDefinition {
    /// The wire form; the tools and the model are left out where there are none.
    pub open spec fn wire(&self) -> JsonValue {
        JsonValue::empty_object().with("description"@, JsonValue::String(self.description@)).with(
            "prompt"@,
            JsonValue::String(self.prompt@),
        ).with_opt(
            "tools"@,
            match self.tools {
                Some(tools) => Some(JsonValue::of_strings(views(tools@))),
                None => None,
            },
        ).with_opt(
            "model"@,
            match self.model {
                Some(m) => Some(JsonValue::String(m.wire_name())),
                None => None,
            },
        )
    }

    /// The wire form.
    pub fn to_json(&self) -> (r: Json)
        ensures
            r@ == self.wire(),
    {
        let mut o = Json::object();
        o.insert("description", Json::String(self.description.clone()));
        o.insert("prompt", Json::String(self.prompt.clone()));
        match &self.tools {
            Some(tools) => o.insert("tools", Json::of_strings(tools)),
            None => {},
        }
        match &self.model {
            Some(m) => o.insert("model", Json::string(m.as_str())),
            None => {},
        }
        o
    }
}

/// The wire form of the agents: an object with a member for each agent, in
/// order, under the agent's name.
pub open spec fn agents_wire(agents: Seq<(String, AgentDefinition)>) -> JsonValue {
    JsonValue::Object(Seq::new(agents.len(), |i: int| (agents[i].0@, agents[i].1.wire())))
}

/// The wire form of the agents.
pub fn agents_to_json(agents: &Vec<(String, AgentDefinition)>) -> (r: Json)
    ensures
        r@ == agents_wire(agents@),
{
    let mut members: Vec<(String, Json)> = Vec::new();
    let mut i: usize = 0;
    while i < agents.len()
        invariant
            0 <= i <= agents.len(),
            members@.len() == i,
            forall|k: int|
                0 <= k < i ==> (#[trigger] members@[k]).0@ == agents@[k].0@ && members@[k].1@
                    == agents@[k].1.wire(),
        decreases agents.len() - i,
    {
        members.push((agents[i].0.clone(), agents[i].1.to_json()));
        i += 1;
    }
    proof {
        assert(members_view(members@) =~= Seq::new(
            agents@.len(),
            |i: int| (agents@[i].0@, agents@[i].1.wire()),
        ));
    }
    Json::Object(members)
}

/// The callback that is handed what the peer writes to its error output. The
/// callback itself lives with the caller.
#[derive(Debug, Clone, Copy, PartialEq, Eq, Structural)]
pub struct StderrCallback {}

/// The options of a session.
#[derive(Debug, Clone)]
pub struct ClaudeAgentOptions {
    pub tools: Option<ToolsConfig>,
    pub allowed_tools: Vec<String>,
    pub system_prompt: Option<SystemPromptConfig>,
    pub mcp_servers: McpServersConfig,
    pub permission_mode: Option<PermissionMode>,
    pub continue_conversation: bool,
    pub resume: Option<String>,
    pub max_turns: Option<u32>,
    /// The largest budget in USD, as the decimal text handed to the peer.
    pub max_budget_usd: Option<String>,
    pub disallowed_tools: Vec<String>,
    pub model: Option<String>,
    pub fallback_model: Option<String>,
    pub betas: Vec<SdkBeta>,
    pub permission_prompt_tool_name: Option<String>,
    pub cwd: Option<String>,
    pub cli_path: Option<String>,
    pub settings: Option<String>,
    pub add_dirs: Vec<String>,
    /// Environment variables for the peer, in order; a later one of the same
    /// name counts.
    pub env: Vec<(String, String)>,
    /// Further command-line flags, in order: a name, and a value if it has one.
    pub extra_args: Vec<(String, Option<String>)>,
    pub max_buffer_size: Option<usize>,
    pub stderr: Option<StderrCallback>,
    pub can_use_tool: Option<CanUseTool>,
    /// The hooks, by event.
    pub hooks: Option<Vec<(HookEvent, Vec<HookMatcher>)>>,
    pub user: Option<String>,
    pub include_partial_messages: bool,
    pub fork_session: bool,
    pub agents: Option<Vec<(String, AgentDefinition)>>,
    pub setting_sources: Option<Vec<SettingSource>>,
    pub sandbox: Option<SandboxSettings>,
    pub plugins: Vec<SdkPluginConfig>,
    pub max_thinking_tokens: Option<u32>,
    pub output_format: Option<Json>,
    pub enable_file_checkpointing: bool,
    /// The time allowed for an operation, in seconds; zero for no limit.
    pub timeout_secs: Option<u64>,
}

impl ClaudeAgentOptions {
    /// Whether nothing is set: every option absent, every list empty, every
    /// switch off.
    pub open spec fn is_default(&self) -> bool {
        &&& self.tools is None
        &&& self.allowed_tools@.len() == 0
        &&& self.system_prompt is None
        &&& self.mcp_servers matches McpServersConfig::Servers(servers) && servers@.len() == 0
        &&& self.permission_mode is None
        &&& !self.continue_conversation
        &&& self.resume is None
        &&& self.max_turns is None
        &&& self.max_budget_usd is None
        &&& self.disallowed_tools@.len() == 0
        &&& self.model is None
        &&& self.fallback_model is None
        &&& self.betas@.len() == 0
        &&& self.permission_prompt_tool_name is None
        &&& self.cwd is None
        &&& self.cli_path is None
        &&& self.settings is None
        &&& self.add_dirs@.len() == 0
        &&& self.env@.len() == 0
        &&& self.extra_args@.len() == 0
        &&& self.max_buffer_size is None
        &&& self.stderr is None
        &&& self.can_use_tool is None
        &&& self.hooks is None
        &&& self.user is None
        &&& !self.include_partial_messages
        &&& !self.fork_session
        &&& self.agents is None
        &&& self.setting_sources is None
        &&& self.sandbox is None
        &&& self.plugins@.len() == 0
        &&& self.max_thinking_tokens is None
        &&& self.output_format is None
        &&& !self.enable_file_checkpointing
        &&& self.timeout_secs is None
    }

    /// Options with nothing set.
    pub fn new() -> (r: Self)
        ensures
            r.is_default(),
    {
        ClaudeAgentOptions {
            tools: None,
            allowed_tools: Vec::new(),
            system_prompt: None,
            mcp_servers: McpServersConfig::Servers(Vec::new()),
            permission_mode: None,
            continue_conversation: false,
            resume: None,
            max_turns: None,
            max_budget_usd: None,
            disallowed_tools: Vec::new(),
            model: None,
            fallback_model: None,
            betas: Vec::new(),
            permission_prompt_tool_name: None,
            cwd: None,
            cli_path: None,
            settings: None,
            add_dirs: Vec::new(),
            env: Vec::new(),
            extra_args: Vec::new(),
            max_buffer_size: None,
            stderr: None,
            can_use_tool: None,
            hooks: None,
            user: None,
            include_partial_messages: false,
            fork_session: false,
            agents: None,
            setting_sources: None,
            sandbox: None,
            plugins: Vec::new(),
            max_thinking_tokens: None,
            output_format: None,
            enable_file_checkpointing: false,
            timeout_secs: None,
        }
    }

    /// Sets the system prompt to a text.
    pub fn with_system_prompt(self, prompt: &str) -> (r: Self)
        ensures
            r == (ClaudeAgentOptions { system_prompt: r.system_prompt, ..self }),
            r.system_prompt matches Some(SystemPromptConfig::Text(text)) && text@ == prompt@,
    {
        let mut r = self;
        r.system_prompt = Some(SystemPromptConfig::Text(String::from_str(prompt)));
        r
    }

    /// Sets the model.
    pub fn with_model(self, model: &str) -> (r: Self)
        ensures
            r == (ClaudeAgentOptions { model: r.model, ..self }),
            opt_view(r.model) == Some(model@),
    {
        let mut r = self;
        r.model = Some(String::from_str(model));
        r
    }

    /// Sets the permission mode.
    pub fn with_permission_mode(self, mode: PermissionMode) -> (r: Self)
        ensures
            r == (ClaudeAgentOptions { permission_mode: Some(mode), ..self }),
    {
        let mut r = self;
        r.permission_mode = Some(mode);
        r
    }

    /// Sets the largest number of turns.
    pub fn with_max_turns(self, turns: u32) -> (r: Self)
        ensures
            r == (ClaudeAgentOptions { max_turns: Some(turns), ..self }),
    {
        let mut r = self;
        r.max_turns = Some(turns);
        r
    }

    /// Sets the working directory.
    pub fn with_cwd(self, cwd: &str) -> (r: Self)
        ensures
            r == (ClaudeAgentOptions { cwd: r.cwd, ..self }),
            opt_view(r.cwd) == Some(cwd@),
    {
        let mut r = self;
        r.cwd = Some(String::from_str(cwd));
        r
    }

    /// Sets the tools that are allowed.
    pub fn with_allowed_tools(self, tools: Vec<String>) -> (r: Self)
        ensures
            r == (ClaudeAgentOptions { allowed_tools: tools, ..self }),
    {
        let mut r = self;
        r.allowed_tools = tools;
        r
    }

    /// Asks for partial messages.
    pub fn with_partial_messages(self) -> (r: Self)
        ensures
            r == (ClaudeAgentOptions { include_partial_messages: true, ..self }),
    {
        let mut r = self;
        r.include_partial_messages = true;
        r
    }

    /// Sets the time allowed for an operation, in seconds; zero for no limit.
    pub fn with_timeout_secs(self, timeout: u64) -> (r: Self)
        ensures
            r == (ClaudeAgentOptions { timeout_secs: Some(timeout), ..self }),
    {
        let mut r = self;
        r.timeout_secs = Some(timeout);
        r
    }

    /// Registers the tool-permission callback.
    pub fn with_can_use_tool(self, callback: CanUseTool) -> (r: Self)
        ensures
            r == (ClaudeAgentOptions { can_use_tool: Some(callback), ..self }),
    {
        let mut r = self;
        r.can_use_tool = Some(callback);
        r
    }

    /// Whether the options ask for two ways of deciding tool permissions at once.
    pub open spec fn conflicting(&self) -> bool {
        self.can_use_tool is Some && self.permission_prompt_tool_name is Some
    }
}

impl Default for ClaudeAgentOptions {
    fn default() -> (r: Self)
        ensures
            r.is_default(),
    {
        ClaudeAgentOptions::new()
    }
}

/// Checks the options before a connection is made: a tool-permission callback
/// and a permission prompt tool exclude each other.
pub fn validate_options(options: &ClaudeAgentOptions) -> (r: Result<(), ClaudeSDKError>)
    ensures
        match r {
            Ok(_) => !options.conflicting(),
            Err(e) => options.conflicting() && e@ == (ErrorValue::Configuration {
                message: "Cannot specify both 'can_use_tool' and 'permission_prompt_tool_name'"@,
            }),
        },
{
    if options.can_use_tool.is_some() && options.permission_prompt_tool_name.is_some() {
        return Err(
            ClaudeSDKError::configuration(
                "Cannot specify both 'can_use_tool' and 'permission_prompt_tool_name'",
            ),
        );
    }
    Ok(())
}

} // verus!
