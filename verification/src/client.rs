//! The client of a session: what it holds between connecting and
//! disconnecting, and what it answers when it is used without a connection.

use crate::codec::encoded;
use crate::control::ControlRequestPayloadView;
use crate::errors::{ClaudeSDKError, ErrorValue};
use crate::json::{opt_json_view, Json};
use crate::options::{validate_options, ClaudeAgentOptions, SystemPromptConfig};
use crate::permission::{CanUseTool, PermissionMode};
use crate::query::{sent, user_message_doc, OutboundRequest, Query, QueryView, StopAction};
use crate::text::opt_view;
use crate::transport::{args_of, TransportConfig};
use vstd::prelude::*;
use vstd::string::StringExecFns;

verus! {

/// The client of one session. It holds the session's engine from the moment
/// the connection is made until it is given up.
pub struct InternalClient<S> {
    query: Option<Query<S>>,
    options: ClaudeAgentOptions,
    connected: bool,
}

/// What is to be done to connect.
#[derive(Debug)]
pub enum ConnectPlan {
    /// Nothing: the client is connected.
    AlreadyConnected,
    /// Start the peer with this setup, then start and initialize the session.
    Connect(TransportConfig),
}

/// How a one-shot query is to be run.
#[derive(Debug)]
pub enum QueryPlan {
    /// Through a client in streaming mode, which is sent the prompt once it
    /// is connected: the peer will ask the caller's callbacks as the run
    /// goes on.
    WithClient,
    /// Start the peer with this setup, which holds the prompt, and start
    /// the session.
    OneShot(TransportConfig),
}

/// Whether the options hold callbacks that the peer may ask for: a
/// tool-permission callback, or hooks.
pub open spec fn has_callbacks(options: &ClaudeAgentOptions) -> bool {
    options.can_use_tool is Some || options.hooks is Some
}

/// The failure of a client that is used without a connection.
pub open spec fn not_connected() -> ErrorValue {
    ErrorValue::CLIConnection { message: "Client not connected"@, source: None }
}

/// A request that is refused because the client is not connected: the slot
/// comes back with the failure.
pub open spec fn refused<S>(r: Result<OutboundRequest, (ClaudeSDKError, S)>, slot: S) -> bool {
    &&& r matches Err((e, s))
    &&& s == slot
    &&& e@ == not_connected()
}

/// The failure of a client that is used without a connection.
pub fn not_connected_error() -> (r: ClaudeSDKError)
    ensures
        r@ == not_connected(),
{
    ClaudeSDKError::cli_connection("Client not connected")
}

impl<S> InternalClient<S> {
    /// Whether the client is connected.
    pub closed spec fn connected(&self) -> bool {
        self.connected
    }

    /// The engine of the session, while the client holds one.
    pub closed spec fn session(&self) -> Option<QueryView<S>> {
        match self.query {
            Some(q) => Some(q@),
            None => None,
        }
    }

    /// The options that the client was made with.
    pub closed spec fn options(&self) -> ClaudeAgentOptions {
        self.options
    }

    /// The engine itself, while the client holds one.
    pub closed spec fn engine(&self) -> Option<Query<S>> {
        self.query
    }

    /// A client that is not connected.
    pub fn new(options: ClaudeAgentOptions) -> (r: Self)
        ensures
            !r.connected(),
            r.session() is None,
            r.options() == options,
    {
        InternalClient { query: None, options, connected: false }
    }

    /// Whether the client is connected.
    pub fn is_connected(&self) -> (r: bool)
        ensures
            r == self.connected(),
    {
        self.connected
    }

    /// Checks the options before a connection is made.
    pub fn validate_options(&self) -> (r: Result<(), ClaudeSDKError>)
        ensures
            match r {
                Ok(_) => !self.options().conflicting(),
                Err(e) => self.options().conflicting() && e@ == (ErrorValue::Configuration {
                    message: "Cannot specify both 'can_use_tool' and 'permission_prompt_tool_name'"@,
                }),
            },
    {
        validate_options(&self.options)
    }

    /// What is to be done to connect in streaming mode. A connected client
    /// needs nothing. The options are checked first; then the setup of the
    /// peer is worked out.
    pub fn connect_plan(&self) -> (r: Result<ConnectPlan, ClaudeSDKError>)
        ensures
            self.connected() ==> r matches Ok(ConnectPlan::AlreadyConnected),
            !self.connected() && self.options().conflicting() ==> ({
                &&& r matches Err(e)
                &&& e@ == (ErrorValue::Configuration {
                    message: "Cannot specify both 'can_use_tool' and 'permission_prompt_tool_name'"@,
                })
            }),
            !self.connected() && !self.options().conflicting() ==> match r {
                Ok(ConnectPlan::Connect(config)) => config.is_setup_for(&self.options(), None),
                Ok(ConnectPlan::AlreadyConnected) => false,
                Err(e) => args_of(&self.options(), true, None) == Err::<
                    Seq<Seq<char>>,
                    ErrorValue,
                >(e@),
            },
    {
        if self.connected {
            return Ok(ConnectPlan::AlreadyConnected);
        }
        match self.validate_options() {
            Ok(_) => {},
            Err(e) => { return Err(e); },
        }
        match TransportConfig::new(&self.options, None) {
            Ok(config) => Ok(ConnectPlan::Connect(config)),
            Err(e) => Err(e),
        }
    }

    /// How a one-shot query with these options and this prompt is to be run.
    /// The options are checked first. With callbacks the run goes through a
    /// client in streaming mode; without, the peer is started with the
    /// prompt.
    pub fn process_query(options: &ClaudeAgentOptions, prompt: &str) -> (r: Result<
        QueryPlan,
        ClaudeSDKError,
    >)
        ensures
            options.conflicting() ==> ({
                &&& r matches Err(e)
                &&& e@ == (ErrorValue::Configuration {
                    message: "Cannot specify both 'can_use_tool' and 'permission_prompt_tool_name'"@,
                })
            }),
            !options.conflicting() && has_callbacks(options) ==> r matches Ok(QueryPlan::WithClient),
            !options.conflicting() && !has_callbacks(options) ==> match r {
                Ok(QueryPlan::OneShot(config)) => config.is_setup_with(options, prompt@),
                Ok(QueryPlan::WithClient) => false,
                Err(e) => args_of(options, false, Some(prompt@)) == Err::<
                    Seq<Seq<char>>,
                    ErrorValue,
                >(e@),
            },
    {
        match validate_options(options) {
            Ok(_) => {},
            Err(e) => { return Err(e); },
        }
        if options.can_use_tool.is_some() || options.hooks.is_some() {
            return Ok(QueryPlan::WithClient);
        }
        match TransportConfig::new(options, Some(String::from_str(prompt))) {
            Ok(config) => Ok(QueryPlan::OneShot(config)),
            Err(e) => Err(e),
        }
    }

    /// Takes the engine of a session that was started and initialized: the
    /// client is connected.
    pub fn attach(&mut self, query: Query<S>)
        ensures
            final(self).connected(),
            final(self).session() == Some(query@),
            final(self).options() == old(self).options(),
    {
        self.query = Some(query);
        self.connected = true;
    }

    /// The line of a message of the user.
    pub fn send_message(&self, message: &str) -> (r: Result<Option<String>, ClaudeSDKError>)
        ensures
            match r {
                Ok(line) => self.session() is Some && line is Some && opt_view(line) == encoded(
                    user_message_doc(message@),
                ),
                Err(e) => self.session() is None && e@ == not_connected(),
            },
    {
        match &self.query {
            Some(query) => Ok(query.send_message(message)),
            None => Err(ClaudeSDKError::cli_connection("Client not connected")),
        }
    }

    /// Registers a request to interrupt the current operation.
    pub fn interrupt(&mut self, slot: S) -> (r: Result<OutboundRequest, (ClaudeSDKError, S)>)
        ensures
            final(self).connected() == old(self).connected(),
            final(self).options() == old(self).options(),
            match old(self).engine() {
                Some(before) => final(self).engine() matches Some(after) && sent(
                    before,
                    after,
                    ControlRequestPayloadView::Interrupt,
                    slot,
                    r,
                ),
                None => final(self).engine() is None && refused(r, slot),
            },
    {
        match &mut self.query {
            Some(query) => query.interrupt(slot),
            None => Err((ClaudeSDKError::cli_connection("Client not connected"), slot)),
        }
    }

    /// Registers a request to change the permission mode.
    pub fn set_permission_mode(&mut self, mode: PermissionMode, slot: S) -> (r: Result<
        OutboundRequest,
        (ClaudeSDKError, S),
    >)
        ensures
            final(self).connected() == old(self).connected(),
            final(self).options() == old(self).options(),
            match old(self).engine() {
                Some(before) => final(self).engine() matches Some(after) && sent(
                    before,
                    after,
                    ControlRequestPayloadView::SetPermissionMode { mode: mode.wire_name() },
                    slot,
                    r,
                ),
                None => final(self).engine() is None && refused(r, slot),
            },
    {
        match &mut self.query {
            Some(query) => query.set_permission_mode(mode, slot),
            None => Err((ClaudeSDKError::cli_connection("Client not connected"), slot)),
        }
    }

    /// Registers a request to change the model.
    pub fn set_model(&mut self, model: &str, slot: S) -> (r: Result<
        OutboundRequest,
        (ClaudeSDKError, S),
    >)
        ensures
            final(self).connected() == old(self).connected(),
            final(self).options() == old(self).options(),
            match old(self).engine() {
                Some(before) => final(self).engine() matches Some(after) && sent(
                    before,
                    after,
                    ControlRequestPayloadView::SetModel { model: model@ },
                    slot,
                    r,
                ),
                None => final(self).engine() is None && refused(r, slot),
            },
    {
        match &mut self.query {
            Some(query) => query.set_model(model, slot),
            None => Err((ClaudeSDKError::cli_connection("Client not connected"), slot)),
        }
    }

    /// Registers a request to rewind the files to where they stood at a
    /// message of the user.
    pub fn rewind_files(&mut self, user_message_id: &str, slot: S) -> (r: Result<
        OutboundRequest,
        (ClaudeSDKError, S),
    >)
        ensures
            final(self).connected() == old(self).connected(),
            final(self).options() == old(self).options(),
            match old(self).engine() {
                Some(before) => final(self).engine() matches Some(after) && sent(
                    before,
                    after,
                    ControlRequestPayloadView::RewindFiles { user_message_id: user_message_id@ },
                    slot,
                    r,
                ),
                None => final(self).engine() is None && refused(r, slot),
            },
    {
        match &mut self.query {
            Some(query) => query.rewind_files(user_message_id, slot),
            None => Err((ClaudeSDKError::cli_connection("Client not connected"), slot)),
        }
    }

    /// What the peer answered to the handshake, once the client is connected
    /// and the peer has answered.
    pub fn get_server_info(&self) -> (r: Option<Json>)
        ensures
            opt_json_view(r) == match self.session() {
                Some(session) => session.server_info,
                None => None,
            },
    {
        match &self.query {
            Some(query) => query.get_server_info(),
            None => None,
        }
    }

    /// The engine of the session, for the reader and for replies.
    pub fn query_mut(&mut self) -> (r: Option<&mut Query<S>>)
        ensures
            match r {
                Some(q) => old(self).engine() == Some(*q) && final(self).engine() == Some(
                    *final(q),
                ),
                None => old(self).engine() is None && final(self).engine() is None,
            },
            final(self).connected() == old(self).connected(),
            final(self).options() == old(self).options(),
    {
        self.query.as_mut()
    }

    /// Gives the connection up. A client that is not connected stays as it
    /// is. Otherwise the session is stopped and let go: what is to be done to
    /// stop it is handed out.
    pub fn disconnect(&mut self) -> (r: Option<StopAction<S>>)
        ensures
            !final(self).connected(),
            final(self).options() == old(self).options(),
            !old(self).connected() ==> r is None && final(self).session() == old(self).session(),
            old(self).connected() ==> final(self).session() is None && (r is Some
                <==> old(self).session() is Some),
            old(self).connected() ==> (r matches Some(action) ==> action.signal_reader == (old(
                self,
            ).session()->0.state == crate::query::SessionState::Running)
                && crate::table::entries_map(action.aborted@) == old(self).session()->0.pending),
    {
        if !self.connected {
            return None;
        }
        let mut query: Option<Query<S>> = None;
        std::mem::swap(&mut self.query, &mut query);
        self.connected = false;
        match query {
            Some(mut q) => Some(q.stop()),
            None => None,
        }
    }
}

/// A builder of the options of a client.
pub struct ClaudeClientBuilder {
    options: ClaudeAgentOptions,
}

impl ClaudeClientBuilder {
    /// The options gathered so far.
    pub closed spec fn options(&self) -> ClaudeAgentOptions {
        self.options
    }

    /// A builder with nothing set.
    pub fn new() -> (r: Self)
        ensures
            r.options().is_default(),
    {
        ClaudeClientBuilder { options: ClaudeAgentOptions::new() }
    }

    /// Sets the model.
    pub fn model(self, model: &str) -> (r: Self)
        ensures
            r.options() == (ClaudeAgentOptions { model: r.options().model, ..self.options() }),
            opt_view(r.options().model) == Some(model@),
    {
        ClaudeClientBuilder { options: self.options.with_model(model) }
    }

    /// Sets the system prompt to a text.
    pub fn system_prompt(self, prompt: &str) -> (r: Self)
        ensures
            r.options() == (ClaudeAgentOptions {
                system_prompt: r.options().system_prompt,
                ..self.options()
            }),
            r.options().system_prompt matches Some(SystemPromptConfig::Text(text)) && text@
                == prompt@,
    {
        ClaudeClientBuilder { options: self.options.with_system_prompt(prompt) }
    }

    /// Sets the permission mode.
    pub fn permission_mode(self, mode: PermissionMode) -> (r: Self)
        ensures
            r.options() == (ClaudeAgentOptions { permission_mode: Some(mode), ..self.options() }),
    {
        ClaudeClientBuilder { options: self.options.with_permission_mode(mode) }
    }

    /// Sets the largest number of turns.
    pub fn max_turns(self, turns: u32) -> (r: Self)
        ensures
            r.options() == (ClaudeAgentOptions { max_turns: Some(turns), ..self.options() }),
    {
        ClaudeClientBuilder { options: self.options.with_max_turns(turns) }
    }

    /// Sets the largest budget in USD, as the decimal text handed to the peer.
    pub fn max_budget_usd(self, budget: &str) -> (r: Self)
        ensures
            r.options() == (ClaudeAgentOptions {
                max_budget_usd: r.options().max_budget_usd,
                ..self.options()
            }),
            opt_view(r.options().max_budget_usd) == Some(budget@),
    {
        let mut options = self.options;
        options.max_budget_usd = Some(String::from_str(budget));
        ClaudeClientBuilder { options }
    }

    /// Sets the working directory.
    pub fn cwd(self, path: &str) -> (r: Self)
        ensures
            r.options() == (ClaudeAgentOptions { cwd: r.options().cwd, ..self.options() }),
            opt_view(r.options().cwd) == Some(path@),
    {
        ClaudeClientBuilder { options: self.options.with_cwd(path) }
    }

    /// Registers the tool-permission callback.
    pub fn can_use_tool(self, callback: CanUseTool) -> (r: Self)
        ensures
            r.options() == (ClaudeAgentOptions { can_use_tool: Some(callback), ..self.options() }),
    {
        ClaudeClientBuilder { options: self.options.with_can_use_tool(callback) }
    }

    /// Asks for partial messages.
    pub fn include_partial_messages(self) -> (r: Self)
        ensures
            r.options() == (ClaudeAgentOptions {
                include_partial_messages: true,
                ..self.options()
            }),
    {
        ClaudeClientBuilder { options: self.options.with_partial_messages() }
    }

    /// Switches file checkpointing on.
    pub fn enable_file_checkpointing(self) -> (r: Self)
        ensures
            r.options() == (ClaudeAgentOptions {
                enable_file_checkpointing: true,
                ..self.options()
            }),
    {
        let mut options = self.options;
        options.enable_file_checkpointing = true;
        ClaudeClientBuilder { options }
    }

    /// Sets the tools that are allowed.
    pub fn allowed_tools(self, tools: Vec<String>) -> (r: Self)
        ensures
            r.options() == (ClaudeAgentOptions { allowed_tools: tools, ..self.options() }),
    {
        ClaudeClientBuilder { options: self.options.with_allowed_tools(tools) }
    }

    /// Sets the tools that are not allowed.
    pub fn disallowed_tools(self, tools: Vec<String>) -> (r: Self)
        ensures
            r.options() == (ClaudeAgentOptions { disallowed_tools: tools, ..self.options() }),
    {
        let mut options = self.options;
        options.disallowed_tools = tools;
        ClaudeClientBuilder { options }
    }

    /// The options that were gathered.
    pub fn into_options(self) -> (r: ClaudeAgentOptions)
        ensures
            r == self.options(),
    {
        self.options
    }

    /// A client for the options that were gathered; it is not connected.
    pub fn build<S>(self) -> (r: ClaudeClient<S>)
        ensures
            !r.internal().connected(),
            r.internal().session() is None,
            r.internal().options() == self.options(),
    {
        ClaudeClient::new(Some(self.options))
    }
}

/// The client that callers hold: a session with the peer that takes prompts
/// and control requests.
pub struct ClaudeClient<S> {
    internal: InternalClient<S>,
}

impl<S> ClaudeClient<S> {
    /// The client underneath.
    pub closed spec fn internal(&self) -> InternalClient<S> {
        self.internal
    }

    /// A client for the given options, or for options with nothing set; it is
    /// not connected.
    pub fn new(options: Option<ClaudeAgentOptions>) -> (r: Self)
        ensures
            !r.internal().connected(),
            r.internal().session() is None,
            match options {
                Some(o) => r.internal().options() == o,
                None => r.internal().options().is_default(),
            },
    {
        let options = match options {
            Some(o) => o,
            None => ClaudeAgentOptions::new(),
        };
        ClaudeClient { internal: InternalClient::new(options) }
    }

    /// Whether the client is connected.
    pub fn is_connected(&self) -> (r: bool)
        ensures
            r == self.internal().connected(),
    {
        self.internal.is_connected()
    }

    /// The line of a prompt.
    pub fn query(&self, prompt: &str) -> (r: Result<Option<String>, ClaudeSDKError>)
        ensures
            match r {
                Ok(line) => self.internal().session() is Some && opt_view(line) == encoded(
                    user_message_doc(prompt@),
                ),
                Err(e) => self.internal().session() is None && e@ == not_connected(),
            },
    {
        self.internal.send_message(prompt)
    }

    /// What the peer answered to the handshake.
    pub fn get_server_info(&self) -> (r: Option<Json>)
        ensures
            opt_json_view(r) == match self.internal().session() {
                Some(session) => session.server_info,
                None => None,
            },
    {
        self.internal.get_server_info()
    }

    /// The client underneath, for connecting, for control requests and for
    /// disconnecting.
    pub fn internal_mut(&mut self) -> (r: &mut InternalClient<S>)
        ensures
            *r == old(self).internal(),
            final(self).internal() == *final(r),
    {
        &mut self.internal
    }
}

impl Default for ClaudeClientBuilder {
    fn default() -> (r: Self)
        ensures
            r.options().is_default(),
    {
        ClaudeClientBuilder::new()
    }
}

} // verus!
