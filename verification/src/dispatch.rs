//! Answering the peer's control requests: what is decided on each kind of
//! request, and the envelope of the reply.

use crate::control::{
    lemma_plain_control_response, ControlRequestPayload, ControlRequestPayloadView,
    ControlRequestView, ControlResponsePayloadView, ControlResponseView,
};
use crate::errors::{json_result_view, ClaudeSDKError, ErrorValue};
use crate::hooks::{HookCallback, HookContext, HookInput, HookInputView, HookOutput};
use crate::fault::{failure_text, fault_text};
use crate::json::{lemma_plain_with, Json, JsonValue};
use crate::message_parser::parse_control_request;
use crate::permission::{
    default_allow, readable_updates, CanUseTool, PermissionResult, PermissionUpdateView,
    ToolPermissionContext,
};
use crate::table::KeyedTable;
use crate::text::opt_view;
use vstd::prelude::*;
use vstd::string::StringExecFns;

verus! {

/// What the engine decides on a control request of the peer.
#[derive(Debug)]
pub enum Dispatch {
    /// The outcome is known: it is to be sent back.
    Reply(Result<Json, ClaudeSDKError>),
    /// The tool-permission callback is to be asked; its answer is the outcome.
    AskPermission { tool_name: String, input: Json, context: ToolPermissionContext },
    /// The hook callback is to be run; its answer is the outcome.
    RunHook {
        callback: HookCallback,
        input: HookInput,
        tool_use_id: Option<String>,
        context: HookContext,
    },
}

/// Mathematical model of [`Dispatch`].
pub enum DispatchView {
    Reply(Result<JsonValue, ErrorValue>),
    AskPermission { tool_name: Seq<char>, input: JsonValue, suggestions: Seq<PermissionUpdateView> },
    RunHook { callback: HookCallback, input: HookInputView, tool_use_id: Option<Seq<char>> },
}

impl View for Dispatch {
    type V = DispatchView;

    open spec fn view(&self) -> DispatchView {
        match self {
            Dispatch::Reply(outcome) => DispatchView::Reply(json_result_view(*outcome)),
            Dispatch::AskPermission { tool_name, input, context } => DispatchView::AskPermission {
                tool_name: tool_name@,
                input: input@,
                suggestions: context@,
            },
            Dispatch::RunHook { callback, input, tool_use_id, context } => DispatchView::RunHook {
                callback: *callback,
                input: input@,
                tool_use_id: opt_view(*tool_use_id),
            },
        }
    }
}

/// The acknowledgement of the peer's own `initialize` request.
pub open spec fn initialized_ack() -> JsonValue {
    JsonValue::empty_object().with("initialized"@, JsonValue::Bool(true))
}

/// The failure that answers a message for an in-process tool server.
pub open spec fn mcp_not_supported(server_name: Seq<char>) -> ErrorValue {
    ErrorValue::Internal {
        message: "MCP server '"@ + server_name + "' not found (SDK MCP not yet implemented)"@,
    }
}

/// The failure that answers a hook request whose input cannot be read: it
/// says what is wrong with the input.
pub open spec fn hook_input_failure(input: JsonValue) -> ErrorValue {
    ErrorValue::MessageParse {
        message: "Failed to parse hook input: "@ + fault_text(HookInputView::fault(input)),
        raw_message: None,
    }
}

/// What is decided on a request of the peer, given whether a tool-permission
/// callback is registered and which hook callbacks are.
///
/// A tool-permission request goes to the callback with the suggestions that
/// can be read; without a callback the answer is to allow. A hook request
/// goes to the callback of its id with its input; an id that is not
/// registered gets an empty success, an input that cannot be read a parse
/// error that says what is wrong with it. The peer's `initialize` is acknowledged, a message for a tool server
/// is refused, and any other request is answered with `null`.
pub open spec fn dispatch_of(
    request: ControlRequestPayloadView,
    can_use_tool: bool,
    callbacks: Map<Seq<char>, HookCallback>,
) -> DispatchView {
    match request {
        ControlRequestPayloadView::CanUseTool { tool_name, input, permission_suggestions, .. } => {
            if can_use_tool {
                DispatchView::AskPermission {
                    tool_name,
                    input,
                    suggestions: match permission_suggestions {
                        Some(items) => readable_updates(items),
                        None => Seq::empty(),
                    },
                }
            } else {
                DispatchView::Reply(Ok(default_allow()))
            }
        },
        ControlRequestPayloadView::HookCallback { callback_id, input, tool_use_id } => {
            if callbacks.contains_key(callback_id) {
                match HookInputView::from_json(input) {
                    Some(hook_input) => DispatchView::RunHook {
                        callback: callbacks[callback_id],
                        input: hook_input,
                        tool_use_id,
                    },
                    None => DispatchView::Reply(Err(hook_input_failure(input))),
                }
            } else {
                DispatchView::Reply(Ok(JsonValue::empty_object()))
            }
        },
        ControlRequestPayloadView::Initialize { .. } => DispatchView::Reply(Ok(initialized_ack())),
        ControlRequestPayloadView::McpMessage { server_name, .. } => DispatchView::Reply(
            Err(mcp_not_supported(server_name)),
        ),
        _ => DispatchView::Reply(Ok(JsonValue::Null)),
    }
}

/// The envelope of the reply to a request of the peer: a success with the
/// data, or an error with the text that the error shows.
pub open spec fn control_response_doc(
    request_id: Seq<char>,
    outcome: Result<JsonValue, ErrorValue>,
) -> JsonValue {
    (ControlResponseView {
        response_type: "control_response"@,
        response: match outcome {
            Ok(data) => ControlResponsePayloadView::Success { request_id, response: Some(data) },
            Err(e) => ControlResponsePayloadView::Error { request_id, error: e.display() },
        },
    }).to_json()
}

/// A reply that is decided at once is a plain document, so that it can
/// always be written: its data is the answer to allow, an empty object, the
/// acknowledgement or `null`, or it carries the text of an error.
pub proof fn lemma_known_replies_are_plain(
    request_id: Seq<char>,
    request: ControlRequestPayloadView,
    can_use_tool: bool,
    callbacks: Map<Seq<char>, HookCallback>,
)
    ensures
        dispatch_of(request, can_use_tool, callbacks) matches DispatchView::Reply(outcome)
            ==> control_response_doc(request_id, outcome).is_plain(),
{
    let empty = JsonValue::empty_object();
    lemma_plain_with(empty, "behavior"@, JsonValue::String("allow"@));
    lemma_plain_with(empty, "initialized"@, JsonValue::Bool(true));
    match dispatch_of(request, can_use_tool, callbacks) {
        DispatchView::Reply(outcome) => {
            lemma_plain_control_response(
                ControlResponseView {
                    response_type: "control_response"@,
                    response: match outcome {
                        Ok(data) => ControlResponsePayloadView::Success {
                            request_id,
                            response: Some(data),
                        },
                        Err(e) => ControlResponsePayloadView::Error { request_id, error: e.display() },
                    },
                },
            );
        },
        _ => {},
    }
}

/// The wire form of a hook's answer as it is sent: a member named `async_`
/// goes by the name `async`, one named `continue_` by the name `continue`.
pub open spec fn hook_output_doc(output: &HookOutput) -> JsonValue {
    output.wire().renamed("async_"@, "async"@).renamed("continue_"@, "continue"@)
}

/// The envelope of the reply to a request of the peer.
pub fn control_response_message(request_id: &str, outcome: &Result<Json, ClaudeSDKError>) -> (r:
    Json)
    ensures
        r@ == control_response_doc(request_id@, json_result_view(*outcome)),
{
    let mut body = Json::object();
    match outcome {
        Ok(data) => {
            body.insert("subtype", Json::string("success"));
            body.insert("request_id", Json::string(request_id));
            body.insert("response", data.clone());
        },
        Err(e) => {
            body.insert("subtype", Json::string("error"));
            body.insert("request_id", Json::string(request_id));
            body.insert("error", Json::String(e.to_string()));
        },
    }
    let mut doc = Json::object();
    doc.insert("type", Json::string("control_response"));
    doc.insert("response", body);
    doc
}

/// The reply that carries the answer of the tool-permission callback.
pub fn permission_response(request_id: &str, result: &PermissionResult) -> (r: Json)
    ensures
        r@ == control_response_doc(request_id@, Ok(result.wire())),
{
    control_response_message(request_id, &Ok(result.to_json()))
}

/// The reply that carries the answer of a hook callback.
pub fn hook_response(request_id: &str, output: &HookOutput) -> (r: Json)
    ensures
        r@ == control_response_doc(request_id@, Ok(hook_output_doc(output))),
{
    let mut data = output.to_json();
    data.rename_member("async_", "async");
    data.rename_member("continue_", "continue");
    control_response_message(request_id, &Ok(data))
}

/// The reply for a callback that failed: an error with the given text.
pub fn callback_failure_response(request_id: &str, message: &str) -> (r: Json)
    ensures
        r@ == control_response_doc(
            request_id@,
            Err(ErrorValue::Internal { message: message@ }),
        ),
{
    control_response_message(request_id, &Err(ClaudeSDKError::internal(message)))
}

/// How a callback that was to be asked ended.
#[derive(Debug)]
pub enum CallbackOutcome<T> {
    /// The callback gave its answer.
    Answered(T),
    /// The callback failed before it gave an answer.
    Failed,
    /// The caller holds no such callback.
    Missing,
}

/// The reply for a tool-permission callback that ended in that way: its
/// answer, or an error that says that it failed or that there is none.
pub open spec fn permission_reply_doc(
    request_id: Seq<char>,
    outcome: CallbackOutcome<PermissionResult>,
) -> JsonValue {
    control_response_doc(
        request_id,
        match outcome {
            CallbackOutcome::Answered(result) => Ok(result.wire()),
            CallbackOutcome::Failed => Err(
                ErrorValue::Internal { message: "Tool permission callback failed"@ },
            ),
            CallbackOutcome::Missing => Err(
                ErrorValue::Internal { message: "Tool permission callback not available"@ },
            ),
        },
    )
}

/// The reply for a hook callback that ended in that way: its answer, or an
/// error that says that it failed or that there is none.
pub open spec fn hook_reply_doc(request_id: Seq<char>, outcome: CallbackOutcome<HookOutput>) -> JsonValue {
    control_response_doc(
        request_id,
        match outcome {
            CallbackOutcome::Answered(output) => Ok(hook_output_doc(&output)),
            CallbackOutcome::Failed => Err(ErrorValue::Internal { message: "Hook callback failed"@ }),
            CallbackOutcome::Missing => Err(
                ErrorValue::Internal { message: "Hook callback not available"@ },
            ),
        },
    )
}

/// The reply to a tool-permission request, once the callback has ended.
pub fn permission_reply(request_id: &str, outcome: &CallbackOutcome<PermissionResult>) -> (r: Json)
    ensures
        r@ == permission_reply_doc(request_id@, *outcome),
{
    match outcome {
        CallbackOutcome::Answered(result) => permission_response(request_id, result),
        CallbackOutcome::Failed => callback_failure_response(
            request_id,
            "Tool permission callback failed",
        ),
        CallbackOutcome::Missing => callback_failure_response(
            request_id,
            "Tool permission callback not available",
        ),
    }
}

/// The reply to a hook request, once the callback has ended.
pub fn hook_reply(request_id: &str, outcome: &CallbackOutcome<HookOutput>) -> (r: Json)
    ensures
        r@ == hook_reply_doc(request_id@, *outcome),
{
    match outcome {
        CallbackOutcome::Answered(output) => hook_response(request_id, output),
        CallbackOutcome::Failed => callback_failure_response(request_id, "Hook callback failed"),
        CallbackOutcome::Missing => callback_failure_response(
            request_id,
            "Hook callback not available",
        ),
    }
}

/// What is to be done on a control request of the peer.
#[derive(Debug)]
pub enum ControlAction {
    /// The document is no control request: it is passed over.
    Ignore,
    /// The reply is known: this document is to be written.
    Respond(Json),
    /// The tool-permission callback is to be asked, and the reply of
    /// [`permission_reply`] sent.
    AskPermission { request_id: String, tool_name: String, input: Json, context: ToolPermissionContext },
    /// The hook callback is to be run, and the reply of [`hook_reply`] sent.
    RunHook {
        request_id: String,
        callback: HookCallback,
        input: HookInput,
        tool_use_id: Option<String>,
        context: HookContext,
    },
}

/// Mathematical model of [`ControlAction`].
pub enum ControlActionView {
    Ignore,
    Respond(JsonValue),
    AskPermission {
        request_id: Seq<char>,
        tool_name: Seq<char>,
        input: JsonValue,
        suggestions: Seq<PermissionUpdateView>,
    },
    RunHook {
        request_id: Seq<char>,
        callback: HookCallback,
        input: HookInputView,
        tool_use_id: Option<Seq<char>>,
    },
}

impl View for ControlAction {
    type V = ControlActionView;

    open spec fn view(&self) -> ControlActionView {
        match self {
            ControlAction::Ignore => ControlActionView::Ignore,
            ControlAction::Respond(doc) => ControlActionView::Respond(doc@),
            ControlAction::AskPermission {
                request_id,
                tool_name,
                input,
                context,
            } => ControlActionView::AskPermission {
                request_id: request_id@,
                tool_name: tool_name@,
                input: input@,
                suggestions: context@,
            },
            ControlAction::RunHook {
                request_id,
                callback,
                input,
                tool_use_id,
                context,
            } => ControlActionView::RunHook {
                request_id: request_id@,
                callback: *callback,
                input: input@,
                tool_use_id: opt_view(*tool_use_id),
            },
        }
    }
}

/// What is to be done on a document that says it is a control request.
pub open spec fn control_action_of(
    raw: JsonValue,
    can_use_tool: bool,
    callbacks: Map<Seq<char>, HookCallback>,
) -> ControlActionView {
    match ControlRequestView::from_json(raw) {
        None => ControlActionView::Ignore,
        Some(request) => match dispatch_of(request.request, can_use_tool, callbacks) {
            DispatchView::Reply(outcome) => ControlActionView::Respond(
                control_response_doc(request.request_id, outcome),
            ),
            DispatchView::AskPermission {
                tool_name,
                input,
                suggestions,
            } => ControlActionView::AskPermission {
                request_id: request.request_id,
                tool_name,
                input,
                suggestions,
            },
            DispatchView::RunHook { callback, input, tool_use_id } => ControlActionView::RunHook {
                request_id: request.request_id,
                callback,
                input,
                tool_use_id,
            },
        },
    }
}

/// Decides on a control request of the peer.
pub fn process_control_request(
    request: &ControlRequestPayload,
    can_use_tool: &Option<CanUseTool>,
    hook_callbacks: &KeyedTable<HookCallback>,
) -> (r: Dispatch)
    ensures
        r@ == dispatch_of(request@, *can_use_tool is Some, hook_callbacks@),
{
    match request {
        ControlRequestPayload::CanUseTool { tool_name, input, permission_suggestions, .. } => {
            if can_use_tool.is_some() {
                Dispatch::AskPermission {
                    tool_name: tool_name.clone(),
                    input: input.clone(),
                    context: ToolPermissionContext::from_suggestions(permission_suggestions),
                }
            } else {
                let mut allow = Json::object();
                allow.insert("behavior", Json::string("allow"));
                Dispatch::Reply(Ok(allow))
            }
        },
        ControlRequestPayload::HookCallback { callback_id, input, tool_use_id } => {
            match hook_callbacks.get(callback_id.as_str()) {
                Some(callback) => match HookInput::from_json(input) {
                    Some(hook_input) => Dispatch::RunHook {
                        callback: *callback,
                        input: hook_input,
                        tool_use_id: match tool_use_id {
                            Some(id) => Some(id.clone()),
                            None => None,
                        },
                        context: HookContext::default(),
                    },
                    None => {
                        let fault = HookInput::fault(input);
                        let text = failure_text("Failed to parse hook input: ", &fault);
                        Dispatch::Reply(Err(ClaudeSDKError::message_parse(text.as_str())))
                    },
                },
                None => Dispatch::Reply(Ok(Json::object())),
            }
        },
        ControlRequestPayload::Initialize { .. } => {
            let mut ack = Json::object();
            ack.insert("initialized", Json::Bool(true));
            Dispatch::Reply(Ok(ack))
        },
        ControlRequestPayload::McpMessage { server_name, .. } => {
            let mut message = String::from_str("MCP server '");
            message.append(server_name.as_str());
            message.append("' not found (SDK MCP not yet implemented)");
            Dispatch::Reply(Err(ClaudeSDKError::internal(message.as_str())))
        },
        _ => Dispatch::Reply(Ok(Json::Null)),
    }
}

/// Handles a document that says it is a control request of the peer.
pub fn handle_control_request(
    raw: &Json,
    can_use_tool: &Option<CanUseTool>,
    hook_callbacks: &KeyedTable<HookCallback>,
) -> (r: ControlAction)
    ensures
        r@ == control_action_of(raw@, *can_use_tool is Some, hook_callbacks@),
        r matches ControlAction::Respond(doc) ==> doc@.is_plain(),
{
    let request = match parse_control_request(raw) {
        Ok(request) => request,
        Err(_) => { return ControlAction::Ignore; },
    };
    proof {
        lemma_known_replies_are_plain(
            request@.request_id,
            request@.request,
            *can_use_tool is Some,
            hook_callbacks@,
        );
    }
    match process_control_request(&request.request, can_use_tool, hook_callbacks) {
        Dispatch::Reply(outcome) => ControlAction::Respond(
            control_response_message(request.request_id.as_str(), &outcome),
        ),
        Dispatch::AskPermission { tool_name, input, context } => ControlAction::AskPermission {
            request_id: request.request_id,
            tool_name,
            input,
            context,
        },
        Dispatch::RunHook { callback, input, tool_use_id, context } => ControlAction::RunHook {
            request_id: request.request_id,
            callback,
            input,
            tool_use_id,
            context,
        },
    }
}

} // verus!
