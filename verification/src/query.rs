//! The session's protocol engine. It keeps the requests that await a reply
//! and the callbacks that the peer may ask for, and decides for each event
//! what is to be done; the caller does it.

use crate::codec::{encode, encoded};
use crate::control::{
    lemma_plain_control_request, ControlRequestPayload, ControlRequestPayloadView,
    ControlRequestView, ControlResponsePayloadView, ControlResponseView,
};
use crate::dispatch::{
    control_action_of, dispatch_of, handle_control_request, process_control_request,
    ControlAction, ControlActionView, Dispatch,
};
use crate::errors::{json_result_view, ClaudeSDKError, ErrorValue};
use crate::hooks::{
    clone_hooks, hooks_view, HookCallback, HookContext, HookEvent, HookInput, HookInputView,
    HookMatcher, HookMatcherView,
};
use crate::ids::{generate_request_id, is_request_id, next_count};
use crate::json::{lemma_plain_with, opt_json_view, Json, JsonValue};
use crate::message_parser::{
    is_control_request, is_control_request_spec, is_control_response, is_control_response_spec,
    message_of, message_result_view, parse_control_response, parse_message,
};
use crate::messages::{Message, MessageView};
use crate::options::ClaudeAgentOptions;
use crate::permission::{CanUseTool, PermissionMode, PermissionUpdateView, ToolPermissionContext};
use crate::registry::{hooks_config, register_hooks, with_hook_callbacks};
use crate::laws::{lemma_fresh_id_is_not_pending, lemma_keys_stay_issued_after_send};
use crate::table::{distinct_keys, entries_map, KeyedTable};
use crate::text::opt_view;
use vstd::prelude::*;
use vstd::string::StringExecFns;

verus! {

/// The time allowed for an operation where the options name none: five minutes.
pub const DEFAULT_TIMEOUT_SECS: u64 = 300;

/// Where a session stands in its life.
#[derive(Debug, Clone, Copy, PartialEq, Eq, Structural)]
pub enum SessionState {
    NotStarted,
    Running,
    Stopped,
}

/// The engine of one session. `S` is the reply slot of a pending request:
/// the engine keeps it from the moment the request is sent and hands it back,
/// once, with the outcome.
pub struct Query<S> {
    state: SessionState,
    pending: KeyedTable<S>,
    can_use_tool: Option<CanUseTool>,
    hooks: Option<Vec<(HookEvent, Vec<HookMatcher>)>>,
    hook_callbacks: KeyedTable<HookCallback>,
    initialization_result: Option<Json>,
    timeout_ms: u64,
    issued: u64,
}

/// Mathematical model of [`Query`].
pub struct QueryView<S> {
    pub state: SessionState,
    /// The requests that await a reply, by id, each with its reply slot.
    pub pending: Map<Seq<char>, S>,
    /// Whether a tool-permission callback is registered.
    pub can_use_tool: bool,
    /// The hooks of the options.
    pub hooks: Option<Seq<(HookEvent, Seq<HookMatcherView>)>>,
    /// The hook callbacks registered so far, by callback id.
    pub callbacks: Map<Seq<char>, HookCallback>,
    /// What the peer answered to the handshake.
    pub server_info: Option<JsonValue>,
    /// How long a request may await its reply, in milliseconds; zero where
    /// the wait has no limit.
    pub timeout_ms: u64,
    /// How many request ids were issued.
    pub issued: u64,
}

impl<S> QueryView<S> {
    /// Whether every request that awaits a reply does so under an id that
    /// this session issued: an id of a count below the count of ids issued.
    pub open spec fn keys_issued(self) -> bool {
        forall|id: Seq<char>| #[trigger]
            self.pending.contains_key(id) ==> exists|count: u64|
                count < self.issued && #[trigger] is_request_id(id, count)
    }
}

impl<S> View for Query<S> {
    type V = QueryView<S>;

    closed spec fn view(&self) -> QueryView<S> {
        QueryView {
            state: self.state,
            pending: self.pending@,
            can_use_tool: self.can_use_tool is Some,
            hooks: match self.hooks {
                Some(h) => Some(hooks_view(h@)),
                None => None,
            },
            callbacks: self.hook_callbacks@,
            server_info: opt_json_view(self.initialization_result),
            timeout_ms: self.timeout_ms,
            issued: self.issued,
        }
    }
}

/// A control request that is ready to be written: its id, and its line.
pub struct OutboundRequest {
    pub request_id: String,
    pub line: String,
}

/// What is to be done when a session stops.
pub struct StopAction<S> {
    /// Whether a reader is running and is to be told to exit.
    pub signal_reader: bool,
    /// The requests that still awaited a reply, each with its slot: each is to
    /// be answered as aborted.
    pub aborted: Vec<(String, S)>,
}

/// The envelope of a control request on its way to the peer.
pub open spec fn control_request_doc(request_id: Seq<char>, payload: ControlRequestPayloadView) -> JsonValue {
    (ControlRequestView { request_type: "control_request"@, request_id, request: payload }).to_json()
}

/// What a control response says of the request it replies to: the data of a
/// success, `null` where it has none, or a protocol error that carries the
/// message and the request's id.
pub open spec fn response_outcome(response: ControlResponsePayloadView) -> Result<
    JsonValue,
    ErrorValue,
> {
    match response {
        ControlResponsePayloadView::Success { response, .. } => Ok(JsonValue::of_opt(response)),
        ControlResponsePayloadView::Error { request_id, error } => Err(
            ErrorValue::ControlProtocol { message: error, request_id: Some(request_id) },
        ),
    }
}

/// A time given in seconds, in milliseconds; the largest number where that
/// does not fit.
pub open spec fn timeout_millis(secs: u64) -> u64 {
    if secs * 1000 > u64::MAX {
        u64::MAX
    } else {
        (secs * 1000) as u64
    }
}

/// The request of that id leaves the table: what is handed out, and what stays.
pub open spec fn resolved<S>(pending: Map<Seq<char>, S>, request_id: Seq<char>) -> (
    Option<S>,
    Map<Seq<char>, S>,
) {
    (
        if pending.contains_key(request_id) {
            Some(pending[request_id])
        } else {
            None
        },
        pending.remove(request_id),
    )
}

impl<S> Query<S> {
    /// The engine of a session that has not started, for the given options.
    pub fn new(options: &ClaudeAgentOptions) -> (r: Self)
        ensures
            r@ == (QueryView {
                state: SessionState::NotStarted,
                pending: Map::<Seq<char>, S>::empty(),
                can_use_tool: options.can_use_tool is Some,
                hooks: match options.hooks {
                    Some(h) => Some(hooks_view(h@)),
                    None => None,
                },
                callbacks: Map::<Seq<char>, HookCallback>::empty(),
                server_info: None,
                timeout_ms: timeout_millis(
                    match options.timeout_secs {
                        Some(t) => t,
                        None => DEFAULT_TIMEOUT_SECS,
                    },
                ),
                issued: 0,
            }),
            r@.keys_issued(),
    {
        let secs = match options.timeout_secs {
            Some(t) => t,
            None => DEFAULT_TIMEOUT_SECS,
        };
        Query {
            state: SessionState::NotStarted,
            pending: KeyedTable::new(),
            can_use_tool: options.can_use_tool,
            hooks: match &options.hooks {
                Some(h) => Some(clone_hooks(h)),
                None => None,
            },
            hook_callbacks: KeyedTable::new(),
            initialization_result: None,
            timeout_ms: if secs > u64::MAX / 1000 {
                u64::MAX
            } else {
                secs * 1000
            },
            issued: 0,
        }
    }

    /// Sets how long a request may await its reply, in milliseconds; zero
    /// takes the limit away. Requests resolved as timed out from now on name
    /// this time.
    pub fn set_timeout_millis(&mut self, millis: u64)
        ensures
            final(self)@ == (QueryView { timeout_ms: millis, ..old(self)@ }),
    {
        self.timeout_ms = millis;
    }

    /// Starts the session. A session that has not started is now running, and
    /// `true` says that the caller is to start its reader. A running session
    /// stays as it is. A stopped session cannot start again.
    pub fn start(&mut self) -> (r: Result<bool, ClaudeSDKError>)
        ensures
            match old(self)@.state {
                SessionState::NotStarted => r == Ok::<bool, ClaudeSDKError>(true) && final(self)@
                    == (QueryView { state: SessionState::Running, ..old(self)@ }),
                SessionState::Running => r == Ok::<bool, ClaudeSDKError>(false) && final(self)@
                    == old(self)@,
                SessionState::Stopped => {
                    &&& final(self)@ == old(self)@
                    &&& r matches Err(e)
                    &&& e@ == (ErrorValue::Internal {
                        message: "Transport stdout receiver already taken"@,
                    })
                },
            },
    {
        match self.state {
            SessionState::NotStarted => {
                self.state = SessionState::Running;
                Ok(true)
            },
            SessionState::Running => Ok(false),
            SessionState::Stopped => Err(
                ClaudeSDKError::internal("Transport stdout receiver already taken"),
            ),
        }
    }

    /// Whether the session was stopped.
    pub fn is_stopped(&self) -> (r: bool)
        ensures
            r == (self@.state == SessionState::Stopped),
    {
        match self.state {
            SessionState::Stopped => true,
            _ => false,
        }
    }

    /// Whether the session is running.
    pub fn is_started(&self) -> (r: bool)
        ensures
            r == (self@.state == SessionState::Running),
    {
        match self.state {
            SessionState::Running => true,
            _ => false,
        }
    }

    /// Stops the session. A running session is now stopped and its reader is
    /// to be told to exit; any other session stays in its state. In every case
    /// no request awaits a reply any longer: those that did are handed out, to
    /// be answered as aborted.
    pub fn stop(&mut self) -> (r: StopAction<S>)
        ensures
            r.signal_reader == (old(self)@.state == SessionState::Running),
            final(self)@ == (QueryView {
                state: if old(self)@.state == SessionState::Running {
                    SessionState::Stopped
                } else {
                    old(self)@.state
                },
                pending: Map::<Seq<char>, S>::empty(),
                ..old(self)@
            }),
            distinct_keys(r.aborted@),
            entries_map(r.aborted@) == old(self)@.pending,
    {
        let running = self.is_started();
        if running {
            self.state = SessionState::Stopped;
        }
        let aborted = self.pending.take_all();
        StopAction { signal_reader: running, aborted }
    }

    /// The outcome of a request whose reply slot was given up before a reply came.
    pub fn closed_error() -> (r: ClaudeSDKError)
        ensures
            r@ == (ErrorValue::Internal { message: "Control request receiver dropped"@ }),
    {
        ClaudeSDKError::internal("Control request receiver dropped")
    }

    /// How long to wait for a reply, in milliseconds; nothing where the wait
    /// has no limit.
    pub fn timeout_duration(&self) -> (r: Option<u64>)
        ensures
            r == if self@.timeout_ms == 0 {
                None
            } else {
                Some(self@.timeout_ms)
            },
    {
        if self.timeout_ms == 0 {
            None
        } else {
            Some(self.timeout_ms)
        }
    }

    /// Whether a request of that id awaits a reply.
    pub fn is_pending(&self, request_id: &str) -> (r: bool)
        ensures
            r == self@.pending.contains_key(request_id@),
    {
        self.pending.contains_key(request_id)
    }

    /// Registers a control request and gives its line to write. The request
    /// gets a fresh id; its slot is kept until the request is resolved. Where
    /// the request cannot be written as a line, nothing is registered and the
    /// slot comes back with the error.
    pub fn send_control_request(&mut self, payload: &ControlRequestPayload, slot: S) -> (r: Result<
        OutboundRequest,
        (ClaudeSDKError, S),
    >)
        ensures
            final(self)@.issued == next_count(old(self)@.issued),
            match r {
                Ok(out) => {
                    &&& is_request_id(out.request_id@, old(self)@.issued)
                    &&& encoded(control_request_doc(out.request_id@, payload@)) == Some(out.line@)
                    &&& final(self)@ == (QueryView {
                        pending: old(self)@.pending.insert(out.request_id@, slot),
                        issued: final(self)@.issued,
                        ..old(self)@
                    })
                    // the id is fresh: no request awaited a reply under it
                    &&& old(self)@.keys_issued() ==> !old(self)@.pending.contains_key(
                        out.request_id@,
                    )
                },
                Err((e, s)) => {
                    &&& s == slot
                    &&& e@ == (ErrorValue::Internal {
                        message: "Failed to serialize control request"@,
                    })
                    &&& exists|id: Seq<char>|
                        is_request_id(id, old(self)@.issued) && #[trigger] encoded(
                            control_request_doc(id, payload@),
                        ) is None
                    &&& final(self)@ == (QueryView {
                        issued: final(self)@.issued,
                        ..old(self)@
                    })
                },
            },
            // a request that carries plain documents is always registered
            payload@.is_plain() ==> r is Ok,
            // until the count has gone round, the ids in the table stay ids of this session
            old(self)@.keys_issued() && old(self)@.issued < u64::MAX ==> final(self)@.keys_issued(),
    {
        let request_id = generate_request_id(&mut self.issued);
        proof {
            if payload@.is_plain() {
                lemma_plain_control_request(
                    ControlRequestView {
                        request_type: "control_request"@,
                        request_id: request_id@,
                        request: payload@,
                    },
                );
            }
        }
        proof {
            if old(self)@.keys_issued() && old(self)@.issued < u64::MAX {
                lemma_keys_stay_issued_after_send(old(self)@, request_id@, slot);
            }
        }
        let mut doc = Json::object();
        doc.insert("type", Json::string("control_request"));
        doc.insert("request_id", Json::String(request_id.clone()));
        doc.insert("request", payload.to_json());
        match encode(&doc) {
            Some(line) => {
                proof {
                    if old(self)@.keys_issued() {
                        lemma_fresh_id_is_not_pending(old(self)@, request_id@);
                    }
                }
                self.pending.insert(request_id.clone(), slot);
                Ok(OutboundRequest { request_id, line })
            },
            None => {
                proof {
                    assert(encoded(control_request_doc(request_id@, payload@)) is None);
                }
                Err((ClaudeSDKError::internal("Failed to serialize control request"), slot))
            },
        }
    }

    /// Resolves the request of that id as timed out: it awaits a reply no
    /// longer. The slot is handed out, if the request still awaited a reply,
    /// with the timeout error that names the time allowed.
    pub fn handle_timeout(&mut self, request_id: &str) -> (r: (Option<S>, ClaudeSDKError))
        ensures
            r.0 == resolved(old(self)@.pending, request_id@).0,
            r.1@ == (ErrorValue::Timeout { duration_ms: old(self)@.timeout_ms }),
            final(self)@ == (QueryView {
                pending: resolved(old(self)@.pending, request_id@).1,
                ..old(self)@
            }),
    {
        let slot = self.pending.remove(request_id);
        (slot, ClaudeSDKError::timeout(self.timeout_ms))
    }

    /// Takes the request of that id out of the table without an outcome, as
    /// when its line could not be written.
    pub fn cancel(&mut self, request_id: &str) -> (r: Option<S>)
        ensures
            r == resolved(old(self)@.pending, request_id@).0,
            final(self)@ == (QueryView {
                pending: resolved(old(self)@.pending, request_id@).1,
                ..old(self)@
            }),
    {
        self.pending.remove(request_id)
    }

    /// Handles a control response. Where the document is a control response
    /// and the request it names awaits a reply, that request is resolved: its
    /// slot is handed out with the outcome. In every other case nothing
    /// changes and nothing is handed out.
    pub fn handle_control_response(&mut self, raw: &Json) -> (r: Option<
        (S, Result<Json, ClaudeSDKError>),
    >)
        ensures
            match ControlResponseView::from_json(raw@) {
                Some(response) => {
                    let id = response.response.request_id();
                    if old(self)@.pending.contains_key(id) {
                        &&& r matches Some((slot, outcome))
                        &&& slot == old(self)@.pending[id]
                        &&& json_result_view(outcome) == response_outcome(response.response)
                        &&& final(self)@ == (QueryView {
                            pending: old(self)@.pending.remove(id),
                            ..old(self)@
                        })
                    } else {
                        r is None && final(self)@ == old(self)@
                    }
                },
                None => r is None && final(self)@ == old(self)@,
            },
    {
        match parse_control_response(raw) {
            Ok(response) => {
                let ghost before = self.pending@;
                match self.pending.remove(response.request_id()) {
                    Some(slot) => {
                        let outcome = if response.is_success() {
                            match response.data() {
                                Some(data) => Ok(data.clone()),
                                None => Ok(Json::Null),
                            }
                        } else {
                            match response.error() {
                                Some(message) => Err(
                                    ClaudeSDKError::control_protocol_with_id(
                                        message,
                                        response.request_id(),
                                    ),
                                ),
                                None => Err(
                                    ClaudeSDKError::control_protocol_with_id(
                                        "Unknown error",
                                        response.request_id(),
                                    ),
                                ),
                            }
                        };
                        Some((slot, outcome))
                    },
                    None => {
                        proof {
                            assert(before.remove(response@.response.request_id()) =~= before);
                        }
                        None
                    },
                }
            },
            Err(_) => None,
        }
    }
}

/// The request that opens the handshake: it tells the peer of the hooks,
/// where the session has any.
pub open spec fn initialize_payload(
    hooks: Option<Seq<(HookEvent, Seq<HookMatcherView>)>>,
) -> ControlRequestPayloadView {
    ControlRequestPayloadView::Initialize {
        hooks: match hooks {
            Some(h) => Some(hooks_config(h)),
            None => None,
        },
    }
}

/// The line of a message of the user, as a document.
pub open spec fn user_message_doc(message: Seq<char>) -> JsonValue {
    JsonValue::empty_object().with("type"@, JsonValue::String("user"@)).with(
        "message"@,
        JsonValue::empty_object().with("role"@, JsonValue::String("user"@)).with(
            "content"@,
            JsonValue::String(message),
        ),
    ).with("parent_tool_use_id"@, JsonValue::Null).with(
        "session_id"@,
        JsonValue::String("default"@),
    )
}

/// The line of a message of the user is a plain document.
pub proof fn lemma_plain_user_message(message: Seq<char>)
    ensures
        user_message_doc(message).is_plain(),
{
    let empty = JsonValue::empty_object();
    let role = empty.with("role"@, JsonValue::String("user"@));
    lemma_plain_with(empty, "role"@, JsonValue::String("user"@));
    let body = role.with("content"@, JsonValue::String(message));
    lemma_plain_with(role, "content"@, JsonValue::String(message));
    let a = empty.with("type"@, JsonValue::String("user"@));
    lemma_plain_with(empty, "type"@, JsonValue::String("user"@));
    let b = a.with("message"@, body);
    lemma_plain_with(a, "message"@, body);
    let c = b.with("parent_tool_use_id"@, JsonValue::Null);
    lemma_plain_with(b, "parent_tool_use_id"@, JsonValue::Null);
    lemma_plain_with(c, "session_id"@, JsonValue::String("default"@));
}

impl<S> Query<S> {
    /// Registers the hook callbacks of the options, each under its id, and
    /// gives what the handshake says of the hooks; nothing where the options
    /// hold no hooks.
    pub fn build_hooks_config(&mut self) -> (r: Option<Json>)
        ensures
            match old(self)@.hooks {
                Some(hooks) => {
                    &&& opt_json_view(r) == Some(hooks_config(hooks))
                    &&& final(self)@ == (QueryView {
                        callbacks: with_hook_callbacks(old(self)@.callbacks, hooks),
                        ..old(self)@
                    })
                },
                None => r is None && final(self)@ == old(self)@,
            },
    {
        match &self.hooks {
            Some(hooks) => Some(register_hooks(&mut self.hook_callbacks, hooks)),
            None => None,
        }
    }

    /// The opening handshake: registers the hook callbacks and registers the
    /// `initialize` request that tells the peer of them.
    pub fn initialize(&mut self, slot: S) -> (r: Result<OutboundRequest, (ClaudeSDKError, S)>)
        ensures
            final(self)@.issued == next_count(old(self)@.issued),
            final(self)@.callbacks == match old(self)@.hooks {
                Some(hooks) => with_hook_callbacks(old(self)@.callbacks, hooks),
                None => old(self)@.callbacks,
            },
            match r {
                Ok(out) => {
                    &&& is_request_id(out.request_id@, old(self)@.issued)
                    &&& encoded(
                        control_request_doc(
                            out.request_id@,
                            initialize_payload(old(self)@.hooks),
                        ),
                    ) == Some(out.line@)
                    &&& final(self)@ == (QueryView {
                        pending: old(self)@.pending.insert(out.request_id@, slot),
                        issued: final(self)@.issued,
                        callbacks: final(self)@.callbacks,
                        ..old(self)@
                    })
                    &&& old(self)@.keys_issued() ==> !old(self)@.pending.contains_key(
                        out.request_id@,
                    )
                },
                Err((e, s)) => {
                    &&& s == slot
                    &&& e@ == (ErrorValue::Internal {
                        message: "Failed to serialize control request"@,
                    })
                    &&& exists|id: Seq<char>|
                        is_request_id(id, old(self)@.issued) && #[trigger] encoded(
                            control_request_doc(id, initialize_payload(old(self)@.hooks)),
                        ) is None
                    &&& final(self)@ == (QueryView {
                        issued: final(self)@.issued,
                        callbacks: final(self)@.callbacks,
                        ..old(self)@
                    })
                },
            },
            initialize_payload(old(self)@.hooks).is_plain() ==> r is Ok,
            old(self)@.keys_issued() && old(self)@.issued < u64::MAX ==> final(self)@.keys_issued(),
    {
        let hooks = self.build_hooks_config();
        let payload = ControlRequestPayload::Initialize { hooks };
        proof {
            assert(payload@ == initialize_payload(old(self)@.hooks));
        }
        self.send_control_request(&payload, slot)
    }

    /// Keeps what the peer answered to the handshake.
    pub fn complete_initialize(&mut self, result: &Json)
        ensures
            final(self)@ == (QueryView { server_info: Some(result@), ..old(self)@ }),
    {
        self.initialization_result = Some(result.clone());
    }

    /// What the peer answered to the handshake, once it has.
    pub fn get_server_info(&self) -> (r: Option<Json>)
        ensures
            opt_json_view(r) == self@.server_info,
    {
        match &self.initialization_result {
            Some(info) => Some(info.clone()),
            None => None,
        }
    }

    /// Registers a request to interrupt the current operation.
    pub fn interrupt(&mut self, slot: S) -> (r: Result<OutboundRequest, (ClaudeSDKError, S)>)
        ensures
            sent(*old(self), *final(self), ControlRequestPayloadView::Interrupt, slot, r),
            r is Ok,
    {
        self.send_control_request(&ControlRequestPayload::Interrupt, slot)
    }

    /// Registers a request to change the permission mode.
    pub fn set_permission_mode(&mut self, mode: PermissionMode, slot: S) -> (r: Result<
        OutboundRequest,
        (ClaudeSDKError, S),
    >)
        ensures
            sent(
                *old(self),
                *final(self),
                ControlRequestPayloadView::SetPermissionMode { mode: mode.wire_name() },
                slot,
                r,
            ),
            r is Ok,
    {
        let payload = ControlRequestPayload::SetPermissionMode {
            mode: String::from_str(mode.as_str()),
        };
        self.send_control_request(&payload, slot)
    }

    /// Registers a request to change the model.
    pub fn set_model(&mut self, model: &str, slot: S) -> (r: Result<
        OutboundRequest,
        (ClaudeSDKError, S),
    >)
        ensures
            sent(
                *old(self),
                *final(self),
                ControlRequestPayloadView::SetModel { model: model@ },
                slot,
                r,
            ),
            r is Ok,
    {
        let payload = ControlRequestPayload::SetModel { model: String::from_str(model) };
        self.send_control_request(&payload, slot)
    }

    /// Registers a request to rewind the files to where they stood at a
    /// message of the user.
    pub fn rewind_files(&mut self, user_message_id: &str, slot: S) -> (r: Result<
        OutboundRequest,
        (ClaudeSDKError, S),
    >)
        ensures
            sent(
                *old(self),
                *final(self),
                ControlRequestPayloadView::RewindFiles { user_message_id: user_message_id@ },
                slot,
                r,
            ),
            r is Ok,
    {
        let payload = ControlRequestPayload::RewindFiles {
            user_message_id: String::from_str(user_message_id),
        };
        self.send_control_request(&payload, slot)
    }

    /// Registers a request for the state of the tool servers.
    pub fn get_mcp_status(&mut self, slot: S) -> (r: Result<OutboundRequest, (ClaudeSDKError, S)>)
        ensures
            sent(*old(self), *final(self), ControlRequestPayloadView::McpStatus, slot, r),
            r is Ok,
    {
        self.send_control_request(&ControlRequestPayload::McpStatus, slot)
    }

    /// The line of a message of the user. The document holds texts only, so
    /// it can always be written.
    pub fn send_message(&self, message: &str) -> (r: Option<String>)
        ensures
            opt_view(r) == encoded(user_message_doc(message@)),
            r is Some,
    {
        proof {
            lemma_plain_user_message(message@);
        }
        let mut body = Json::object();
        body.insert("role", Json::string("user"));
        body.insert("content", Json::string(message));
        let mut doc = Json::object();
        doc.insert("type", Json::string("user"));
        doc.insert("message", body);
        doc.insert("parent_tool_use_id", Json::Null);
        doc.insert("session_id", Json::string("default"));
        encode(&doc)
    }
}

/// What registering a control request of the given payload does: the count
/// of issued ids moves on; the request is pending under a fresh id with its
/// slot, and its line is the envelope written out; or, where the envelope
/// cannot be written, the slot comes back with the error and nothing is
/// pending that was not. A payload that carries plain documents can always
/// be written. The id is fresh, and the ids in the table stay ids of the
/// session until the count has gone round.
pub open spec fn sent<S>(
    before: Query<S>,
    after: Query<S>,
    payload: ControlRequestPayloadView,
    slot: S,
    r: Result<OutboundRequest, (ClaudeSDKError, S)>,
) -> bool {
    &&& after@.issued == next_count(before@.issued)
    &&& match r {
        Ok(out) => {
            &&& is_request_id(out.request_id@, before@.issued)
            &&& encoded(control_request_doc(out.request_id@, payload)) == Some(out.line@)
            &&& after@ == (QueryView {
                pending: before@.pending.insert(out.request_id@, slot),
                issued: after@.issued,
                ..before@
            })
            &&& before@.keys_issued() ==> !before@.pending.contains_key(out.request_id@)
        },
        Err((e, s)) => {
            &&& s == slot
            &&& e@ == (ErrorValue::Internal { message: "Failed to serialize control request"@ })
            &&& exists|id: Seq<char>|
                is_request_id(id, before@.issued) && #[trigger] encoded(
                    control_request_doc(id, payload),
                ) is None
            &&& after@ == (QueryView { issued: after@.issued, ..before@ })
        },
    }
    &&& payload.is_plain() ==> r is Ok
    &&& before@.keys_issued() && before@.issued < u64::MAX ==> after@.keys_issued()
}

/// What came from the transport.
#[derive(Debug)]
pub enum ReaderInput {
    /// A document.
    Value(Json),
    /// A failure to read: a line that was no JSON, or a broken channel.
    Failed(ClaudeSDKError),
    /// The end of the stream.
    Ended,
}

/// What the reader is to do next.
#[derive(Debug)]
pub enum ReaderAction<S> {
    /// Leave the loop: the session is shutting down.
    Exit,
    /// Nothing: go on reading.
    Skip,
    /// Hand the outcome to the slot of the request it resolves.
    Resolve { slot: S, outcome: Result<Json, ClaudeSDKError> },
    /// Write the line to the peer.
    Write { line: String },
    /// Ask the tool-permission callback, and send the reply of
    /// [`crate::dispatch::permission_reply`].
    AskPermission { request_id: String, tool_name: String, input: Json, context: ToolPermissionContext },
    /// Run the hook callback, and send the reply of
    /// [`crate::dispatch::hook_reply`].
    RunHook {
        request_id: String,
        callback: HookCallback,
        input: HookInput,
        tool_use_id: Option<String>,
        context: HookContext,
    },
    /// Forward the message, or the failure to read one, to the consumer.
    Forward(Result<Message, ClaudeSDKError>),
    /// The channel is broken: forward the failure to the consumer, answer
    /// each of the requests as aborted, and leave the loop.
    Terminate { failure: ClaudeSDKError, aborted: Vec<(String, S)> },
}

/// Mathematical model of [`ReaderAction`].
pub enum ReaderActionView<S> {
    Exit,
    Skip,
    Resolve { slot: S, outcome: Result<JsonValue, ErrorValue> },
    Write { line: Seq<char> },
    AskPermission {
        request_id: Seq<char>,
        tool_name: Seq<char>,
        input: JsonValue,
        suggestions: Seq<PermissionUpdateView>,
    },
    RunHook {
        request_id: Seq<char>,
        callback: HookCallback,
        input: HookInputView,
        tool_use_id: Option<Seq<char>>,
    },
    Forward(Result<MessageView, ErrorValue>),
    Terminate { failure: ErrorValue, aborted: Map<Seq<char>, S> },
}

impl<S> View for ReaderAction<S> {
    type V = ReaderActionView<S>;

    open spec fn view(&self) -> ReaderActionView<S> {
        match self {
            ReaderAction::Exit => ReaderActionView::Exit,
            ReaderAction::Skip => ReaderActionView::Skip,
            ReaderAction::Resolve { slot, outcome } => ReaderActionView::Resolve {
                slot: *slot,
                outcome: json_result_view(*outcome),
            },
            ReaderAction::Write { line } => ReaderActionView::Write { line: line@ },
            ReaderAction::AskPermission {
                request_id,
                tool_name,
                input,
                context,
            } => ReaderActionView::AskPermission {
                request_id: request_id@,
                tool_name: tool_name@,
                input: input@,
                suggestions: context@,
            },
            ReaderAction::RunHook {
                request_id,
                callback,
                input,
                tool_use_id,
                context,
            } => ReaderActionView::RunHook {
                request_id: request_id@,
                callback: *callback,
                input: input@,
                tool_use_id: opt_view(*tool_use_id),
            },
            ReaderAction::Forward(outcome) => ReaderActionView::Forward(
                message_result_view(*outcome),
            ),
            ReaderAction::Terminate { failure, aborted } => ReaderActionView::Terminate {
                failure: failure@,
                aborted: entries_map(aborted@),
            },
        }
    }
}

/// Whether the reader leaves its loop before it looks at what the transport
/// holds: the shutdown signal was given, or the session was stopped.
pub open spec fn leaves_loop<S>(session: QueryView<S>, shutdown: bool) -> bool {
    shutdown || session.state == SessionState::Stopped
}

/// The failure that is forwarded when the stream of the transport ends.
pub open spec fn stream_ended() -> ErrorValue {
    ErrorValue::CLIConnection { message: "Transport stream ended"@, source: None }
}

/// What is to be done with a document from the transport.
///
/// A control response resolves the request it names, if that request awaits
/// a reply, and is passed over otherwise. A control request of the peer is
/// answered at once where the answer is known, and is handed to a callback
/// otherwise; a reply that cannot be written as a line is passed over,
/// which no reply that is decided here is. Any
/// other document is an event message: it is forwarded, or the failure to
/// read it is. A document without a `type` is no envelope at all: it is
/// passed over. A session that was stopped routes nothing: the reader is to
/// leave its loop.
pub open spec fn route_of<S>(session: QueryView<S>, raw: JsonValue) -> ReaderActionView<S> {
    if session.state == SessionState::Stopped {
        ReaderActionView::Exit
    } else if raw.get_str("type"@) is None {
        ReaderActionView::Skip
    } else if is_control_response_spec(raw) {
        match ControlResponseView::from_json(raw) {
            Some(response) => if session.pending.contains_key(response.response.request_id()) {
                ReaderActionView::Resolve {
                    slot: session.pending[response.response.request_id()],
                    outcome: response_outcome(response.response),
                }
            } else {
                ReaderActionView::Skip
            },
            None => ReaderActionView::Skip,
        }
    } else if is_control_request_spec(raw) {
        match control_action_of(raw, session.can_use_tool, session.callbacks) {
            ControlActionView::Ignore => ReaderActionView::Skip,
            ControlActionView::Respond(doc) => match encoded(doc) {
                Some(line) => ReaderActionView::Write { line },
                None => ReaderActionView::Skip,
            },
            ControlActionView::AskPermission {
                request_id,
                tool_name,
                input,
                suggestions,
            } => ReaderActionView::AskPermission { request_id, tool_name, input, suggestions },
            ControlActionView::RunHook {
                request_id,
                callback,
                input,
                tool_use_id,
            } => ReaderActionView::RunHook { request_id, callback, input, tool_use_id },
        }
    } else {
        ReaderActionView::Forward(message_of(raw))
    }
}

/// Whether the document is a control request of the peer whose reply is
/// decided at once, in a session that was not stopped.
pub open spec fn answers_at_once<S>(session: QueryView<S>, raw: JsonValue) -> bool {
    &&& session.state != SessionState::Stopped
    &&& raw.get_str("type"@) is Some
    &&& !is_control_response_spec(raw)
    &&& is_control_request_spec(raw)
    &&& control_action_of(raw, session.can_use_tool, session.callbacks) is Respond
}

/// The session after a document from the transport was routed: a request
/// that the document resolves awaits a reply no longer; nothing else changes.
pub open spec fn after_route<S>(session: QueryView<S>, raw: JsonValue) -> QueryView<S> {
    if session.state == SessionState::Stopped {
        session
    } else if is_control_response_spec(raw) {
        match ControlResponseView::from_json(raw) {
            Some(response) => if session.pending.contains_key(response.response.request_id()) {
                QueryView {
                    pending: session.pending.remove(response.response.request_id()),
                    ..session
                }
            } else {
                session
            },
            None => session,
        }
    } else {
        session
    }
}

impl<S> Query<S> {
    /// Routes one document from the transport. A reply that is decided at
    /// once is always written.
    pub fn route(&mut self, raw: &Json) -> (r: ReaderAction<S>)
        ensures
            r@ == route_of(old(self)@, raw@),
            final(self)@ == after_route(old(self)@, raw@),
            answers_at_once(old(self)@, raw@) ==> r is Write,
    {
        if self.is_stopped() {
            ReaderAction::Exit
        } else if raw.get_str("type").is_none() {
            ReaderAction::Skip
        } else if is_control_response(raw) {
            match self.handle_control_response(raw) {
                Some((slot, outcome)) => ReaderAction::Resolve { slot, outcome },
                None => ReaderAction::Skip,
            }
        } else if is_control_request(raw) {
            match self.handle_control_request(raw) {
                ControlAction::Ignore => ReaderAction::Skip,
                ControlAction::Respond(doc) => match encode(&doc) {
                    Some(line) => ReaderAction::Write { line },
                    None => ReaderAction::Skip,
                },
                ControlAction::AskPermission {
                    request_id,
                    tool_name,
                    input,
                    context,
                } => ReaderAction::AskPermission { request_id, tool_name, input, context },
                ControlAction::RunHook {
                    request_id,
                    callback,
                    input,
                    tool_use_id,
                    context,
                } => ReaderAction::RunHook { request_id, callback, input, tool_use_id, context },
            }
        } else {
            ReaderAction::Forward(parse_message(raw))
        }
    }

    /// One step of the read loop. The shutdown signal comes first: where it
    /// was given, or the session was stopped, the loop is left whatever the
    /// transport holds. Otherwise a document is routed. A line that was no
    /// JSON is contained: the failure is forwarded, and the loop goes on with
    /// the session as it was. Any other read error, or the end of the stream,
    /// ends the loop, is forwarded as a failure, and aborts every request
    /// that awaits a reply.
    pub fn read_step(&mut self, shutdown: bool, input: ReaderInput) -> (r: ReaderAction<S>)
        ensures
            leaves_loop(old(self)@, shutdown) ==> r@ == ReaderActionView::<S>::Exit && final(self)@
                == old(self)@,
            !leaves_loop(old(self)@, shutdown) ==> match input {
                ReaderInput::Value(raw) => {
                    &&& r@ == route_of(old(self)@, raw@)
                    &&& final(self)@ == after_route(old(self)@, raw@)
                    &&& answers_at_once(old(self)@, raw@) ==> r is Write
                },
                ReaderInput::Failed(e) => if e@ is JSONDecode {
                    &&& r@ == ReaderActionView::<S>::Forward(Err(e@))
                    &&& final(self)@ == old(self)@
                } else {
                    &&& r@ == (ReaderActionView::Terminate {
                        failure: e@,
                        aborted: old(self)@.pending,
                    })
                    &&& r matches ReaderAction::Terminate { aborted, .. } && distinct_keys(aborted@)
                    &&& final(self)@ == (QueryView {
                        pending: Map::<Seq<char>, S>::empty(),
                        ..old(self)@
                    })
                },
                ReaderInput::Ended => {
                    &&& r@ == (ReaderActionView::Terminate {
                        failure: stream_ended(),
                        aborted: old(self)@.pending,
                    })
                    &&& r matches ReaderAction::Terminate { aborted, .. } && distinct_keys(aborted@)
                    &&& final(self)@ == (QueryView {
                        pending: Map::<Seq<char>, S>::empty(),
                        ..old(self)@
                    })
                },
            },
    {
        if shutdown || self.is_stopped() {
            return ReaderAction::Exit;
        }
        match input {
            ReaderInput::Value(raw) => self.route(&raw),
            ReaderInput::Failed(failure) => {
                if failure.is_json_decode() {
                    ReaderAction::Forward(Err(failure))
                } else {
                    let aborted = self.pending.take_all();
                    ReaderAction::Terminate { failure, aborted }
                }
            },
            ReaderInput::Ended => {
                let aborted = self.pending.take_all();
                ReaderAction::Terminate {
                    failure: ClaudeSDKError::cli_connection("Transport stream ended"),
                    aborted,
                }
            },
        }
    }
}

impl<S> Query<S> {
    /// Decides on a control request of the peer.
    pub fn process_control_request(&self, request: &ControlRequestPayload) -> (r: Dispatch)
        ensures
            r@ == dispatch_of(request@, self@.can_use_tool, self@.callbacks),
    {
        process_control_request(request, &self.can_use_tool, &self.hook_callbacks)
    }

    /// Handles a document that says it is a control request of the peer.
    pub fn handle_control_request(&self, raw: &Json) -> (r: ControlAction)
        ensures
            r@ == control_action_of(raw@, self@.can_use_tool, self@.callbacks),
            r matches ControlAction::Respond(doc) ==> doc@.is_plain(),
    {
        handle_control_request(raw, &self.can_use_tool, &self.hook_callbacks)
    }
}

} // verus!
