//! The control protocol's envelopes: requests and responses, and their wire
//! form as JSON documents.

use crate::fault::{
    fault_of, field_fault, first, first_fault, unknown_variant, unknown_variant_text, FieldKind,
};
use crate::json::{
    items_view, lemma_get_with, lemma_plain_with, opt_json_view, Json, JsonValue,
};
use crate::text::{opt_model, opt_view, str_eq};
use vstd::prelude::*;
use vstd::string::StringExecFns;

verus! {

/// What a control request asks for.
#[derive(Debug, Clone)]
pub enum ControlRequestPayload {
    /// Stop the current operation.
    Interrupt,
    /// May this tool be used?
    CanUseTool {
        tool_name: String,
        input: Json,
        permission_suggestions: Option<Vec<Json>>,
        blocked_path: Option<String>,
    },
    /// The opening handshake, with the hook registrations.
    Initialize { hooks: Option<Json> },
    SetPermissionMode { mode: String },
    SetModel { model: String },
    /// Run the hook callback registered under this id.
    HookCallback { callback_id: String, input: Json, tool_use_id: Option<String> },
    /// A message for an in-process tool server.
    McpMessage { server_name: String, message: Json },
    McpStatus,
    RewindFiles { user_message_id: String },
}

/// Mathematical model of [`ControlRequestPayload`].
pub enum ControlRequestPayloadView {
    Interrupt,
    CanUseTool {
        tool_name: Seq<char>,
        input: JsonValue,
        permission_suggestions: Option<Seq<JsonValue>>,
        blocked_path: Option<Seq<char>>,
    },
    Initialize { hooks: Option<JsonValue> },
    SetPermissionMode { mode: Seq<char> },
    SetModel { model: Seq<char> },
    HookCallback { callback_id: Seq<char>, input: JsonValue, tool_use_id: Option<Seq<char>> },
    McpMessage { server_name: Seq<char>, message: JsonValue },
    McpStatus,
    RewindFiles { user_message_id: Seq<char> },
}

/// A control request: an id and what is asked.
#[derive(Debug, Clone)]
pub struct ControlRequest {
    /// Always `control_request` on the wire.
    pub request_type: String,
    pub request_id: String,
    pub request: ControlRequestPayload,
}

/// Mathematical model of [`ControlRequest`].
pub struct ControlRequestView {
    pub request_type: Seq<char>,
    pub request_id: Seq<char>,
    pub request: ControlRequestPayloadView,
}

/// A success reply, as a record of its own.
#[derive(Debug, Clone)]
pub struct ControlSuccessResponse {
    pub subtype: String,
    pub request_id: String,
    pub response: Option<Json>,
}

/// An error reply, as a record of its own.
#[derive(Debug, Clone)]
pub struct ControlErrorResponse {
    pub subtype: String,
    pub request_id: String,
    pub error: String,
}

/// The outcome that a control response carries.
#[derive(Debug, Clone)]
pub enum ControlResponsePayload {
    Success { request_id: String, response: Option<Json> },
    Error { request_id: String, error: String },
}

/// Mathematical model of [`ControlResponsePayload`].
pub enum ControlResponsePayloadView {
    Success { request_id: Seq<char>, response: Option<JsonValue> },
    Error { request_id: Seq<char>, error: Seq<char> },
}

/// A control response: the reply to the request of the same id.
#[derive(Debug, Clone)]
pub struct ControlResponse {
    /// Always `control_response` on the wire.
    pub response_type: String,
    pub response: ControlResponsePayload,
}

/// Mathematical model of [`ControlResponse`].
pub struct ControlResponseView {
    pub response_type: Seq<char>,
    pub response: ControlResponsePayloadView,
}

impl View for ControlRequestPayload {
    type V = ControlRequestPayloadView;

    open spec fn view(&self) -> ControlRequestPayloadView {
        match self {
            ControlRequestPayload::Interrupt => ControlRequestPayloadView::Interrupt,
            ControlRequestPayload::CanUseTool {
                tool_name,
                input,
                permission_suggestions,
                blocked_path,
            } => ControlRequestPayloadView::CanUseTool {
                tool_name: tool_name@,
                input: input@,
                permission_suggestions: match permission_suggestions {
                    Some(items) => Some(items_view(items@)),
                    None => None,
                },
                blocked_path: opt_view(*blocked_path),
            },
            ControlRequestPayload::Initialize { hooks } => ControlRequestPayloadView::Initialize {
                hooks: opt_json_view(*hooks),
            },
            ControlRequestPayload::SetPermissionMode {
                mode,
            } => ControlRequestPayloadView::SetPermissionMode { mode: mode@ },
            ControlRequestPayload::SetModel { model } => ControlRequestPayloadView::SetModel {
                model: model@,
            },
            ControlRequestPayload::HookCallback {
                callback_id,
                input,
                tool_use_id,
            } => ControlRequestPayloadView::HookCallback {
                callback_id: callback_id@,
                input: input@,
                tool_use_id: opt_view(*tool_use_id),
            },
            ControlRequestPayload::McpMessage {
                server_name,
                message,
            } => ControlRequestPayloadView::McpMessage {
                server_name: server_name@,
                message: message@,
            },
            ControlRequestPayload::McpStatus => ControlRequestPayloadView::McpStatus,
            ControlRequestPayload::RewindFiles {
                user_message_id,
            } => ControlRequestPayloadView::RewindFiles { user_message_id: user_message_id@ },
        }
    }
}

impl View for ControlRequest {
    type V = ControlRequestView;

    open spec fn view(&self) -> ControlRequestView {
        ControlRequestView {
            request_type: self.request_type@,
            request_id: self.request_id@,
            request: self.request@,
        }
    }
}

impl View for ControlResponsePayload {
    type V = ControlResponsePayloadView;

    open spec fn view(&self) -> ControlResponsePayloadView {
        match self {
            ControlResponsePayload::Success {
                request_id,
                response,
            } => ControlResponsePayloadView::Success {
                request_id: request_id@,
                response: opt_json_view(*response),
            },
            ControlResponsePayload::Error { request_id, error } => ControlResponsePayloadView::Error {
                request_id: request_id@,
                error: error@,
            },
        }
    }
}

impl View for ControlResponse {
    type V = ControlResponseView;

    open spec fn view(&self) -> ControlResponseView {
        ControlResponseView { response_type: self.response_type@, response: self.response@ }
    }
}

impl ControlRequestPayloadView {
    /// The wire name of the kind of request.
    pub open spec fn subtype(self) -> Seq<char> {
        match self {
            ControlRequestPayloadView::Interrupt => "interrupt"@,
            ControlRequestPayloadView::CanUseTool { .. } => "can_use_tool"@,
            ControlRequestPayloadView::Initialize { .. } => "initialize"@,
            ControlRequestPayloadView::SetPermissionMode { .. } => "set_permission_mode"@,
            ControlRequestPayloadView::SetModel { .. } => "set_model"@,
            ControlRequestPayloadView::HookCallback { .. } => "hook_callback"@,
            ControlRequestPayloadView::McpMessage { .. } => "mcp_message"@,
            ControlRequestPayloadView::McpStatus => "mcp_status"@,
            ControlRequestPayloadView::RewindFiles { .. } => "rewind_files"@,
        }
    }

    /// The wire form: an object that opens with the member `subtype` and then
    /// holds the fields of the kind, an absent optional field as `null`.
    pub open spec fn to_json(self) -> JsonValue {
        let head = JsonValue::empty_object().with("subtype"@, JsonValue::String(self.subtype()));
        match self {
            ControlRequestPayloadView::Interrupt => head,
            ControlRequestPayloadView::CanUseTool {
                tool_name,
                input,
                permission_suggestions,
                blocked_path,
            } => head.with("tool_name"@, JsonValue::String(tool_name)).with("input"@, input).with(
                "permission_suggestions"@,
                JsonValue::of_opt_array(permission_suggestions),
            ).with("blocked_path"@, JsonValue::of_opt_str(blocked_path)),
            ControlRequestPayloadView::Initialize { hooks } => head.with(
                "hooks"@,
                JsonValue::of_opt(hooks),
            ),
            ControlRequestPayloadView::SetPermissionMode { mode } => head.with(
                "mode"@,
                JsonValue::String(mode),
            ),
            ControlRequestPayloadView::SetModel { model } => head.with(
                "model"@,
                JsonValue::String(model),
            ),
            ControlRequestPayloadView::HookCallback { callback_id, input, tool_use_id } => head.with(
                "callback_id"@,
                JsonValue::String(callback_id),
            ).with("input"@, input).with("tool_use_id"@, JsonValue::of_opt_str(tool_use_id)),
            ControlRequestPayloadView::McpMessage { server_name, message } => head.with(
                "server_name"@,
                JsonValue::String(server_name),
            ).with("message"@, message),
            ControlRequestPayloadView::McpStatus => head,
            ControlRequestPayloadView::RewindFiles { user_message_id } => head.with(
                "user_message_id"@,
                JsonValue::String(user_message_id),
            ),
        }
    }

    /// Reads the wire form. The document must be an object whose `subtype`
    /// names a kind and which holds that kind's fields with the right types:
    /// a required field must be there, an optional one may be absent or `null`.
    /// Members that the kind does not know are passed over.
    pub open spec fn from_json(v: JsonValue) -> Option<ControlRequestPayloadView> {
        match v.get_str("subtype"@) {
            None => None,
            Some(kind) => if kind == "interrupt"@ {
                Some(ControlRequestPayloadView::Interrupt)
            } else if kind == "can_use_tool"@ {
                match (
                    v.get_str("tool_name"@),
                    v.get("input"@),
                    v.opt_array_field("permission_suggestions"@),
                    v.opt_str_field("blocked_path"@),
                ) {
                    (
                        Some(tool_name),
                        Some(input),
                        Some(permission_suggestions),
                        Some(blocked_path),
                    ) => Some(
                        ControlRequestPayloadView::CanUseTool {
                            tool_name,
                            input,
                            permission_suggestions,
                            blocked_path,
                        },
                    ),
                    _ => None,
                }
            } else if kind == "initialize"@ {
                Some(ControlRequestPayloadView::Initialize { hooks: v.opt_field("hooks"@) })
            } else if kind == "set_permission_mode"@ {
                match v.get_str("mode"@) {
                    Some(mode) => Some(ControlRequestPayloadView::SetPermissionMode { mode }),
                    None => None,
                }
            } else if kind == "set_model"@ {
                match v.get_str("model"@) {
                    Some(model) => Some(ControlRequestPayloadView::SetModel { model }),
                    None => None,
                }
            } else if kind == "hook_callback"@ {
                match (
                    v.get_str("callback_id"@),
                    v.get("input"@),
                    v.opt_str_field("tool_use_id"@),
                ) {
                    (Some(callback_id), Some(input), Some(tool_use_id)) => Some(
                        ControlRequestPayloadView::HookCallback { callback_id, input, tool_use_id },
                    ),
                    _ => None,
                }
            } else if kind == "mcp_message"@ {
                match (v.get_str("server_name"@), v.get("message"@)) {
                    (Some(server_name), Some(message)) => Some(
                        ControlRequestPayloadView::McpMessage { server_name, message },
                    ),
                    _ => None,
                }
            } else if kind == "mcp_status"@ {
                Some(ControlRequestPayloadView::McpStatus)
            } else if kind == "rewind_files"@ {
                match v.get_str("user_message_id"@) {
                    Some(user_message_id) => Some(
                        ControlRequestPayloadView::RewindFiles { user_message_id },
                    ),
                    None => None,
                }
            } else {
                None
            },
        }
    }

    /// Whether no optional document of the payload is `null`: on the wire
    /// `null` stands for an absent field, so such a payload comes back
    /// without it.
    pub open spec fn has_no_null_option(self) -> bool {
        match self {
            ControlRequestPayloadView::Initialize { hooks } => hooks != Some(JsonValue::Null),
            _ => true,
        }
    }
}

impl ControlRequestView {
    /// The wire form: `type`, `request_id` and `request`.
    pub open spec fn to_json(self) -> JsonValue {
        JsonValue::empty_object().with("type"@, JsonValue::String(self.request_type)).with(
            "request_id"@,
            JsonValue::String(self.request_id),
        ).with("request"@, self.request.to_json())
    }

    /// Reads the wire form: all three members must be there.
    pub open spec fn from_json(v: JsonValue) -> Option<ControlRequestView> {
        match (v.get_str("type"@), v.get_str("request_id"@), v.get("request"@)) {
            (Some(request_type), Some(request_id), Some(body)) => match ControlRequestPayloadView::from_json(
                body,
            ) {
                Some(request) => Some(ControlRequestView { request_type, request_id, request }),
                None => None,
            },
            _ => None,
        }
    }
}

impl ControlResponsePayloadView {
    /// The id of the request that the payload belongs to.
    pub open spec fn request_id(self) -> Seq<char> {
        match self {
            ControlResponsePayloadView::Success { request_id, .. } => request_id,
            ControlResponsePayloadView::Error { request_id, .. } => request_id,
        }
    }

    /// The wire form: `subtype`, `request_id`, and `response` or `error`.
    pub open spec fn to_json(self) -> JsonValue {
        match self {
            ControlResponsePayloadView::Success { request_id, response } => JsonValue::empty_object().with(
                "subtype"@,
                JsonValue::String("success"@),
            ).with("request_id"@, JsonValue::String(request_id)).with(
                "response"@,
                JsonValue::of_opt(response),
            ),
            ControlResponsePayloadView::Error { request_id, error } => JsonValue::empty_object().with(
                "subtype"@,
                JsonValue::String("error"@),
            ).with("request_id"@, JsonValue::String(request_id)).with(
                "error"@,
                JsonValue::String(error),
            ),
        }
    }

    /// Reads the wire form.
    pub open spec fn from_json(v: JsonValue) -> Option<ControlResponsePayloadView> {
        match (v.get_str("subtype"@), v.get_str("request_id"@)) {
            (Some(kind), Some(request_id)) => if kind == "success"@ {
                Some(
                    ControlResponsePayloadView::Success {
                        request_id,
                        response: v.opt_field("response"@),
                    },
                )
            } else if kind == "error"@ {
                match v.get_str("error"@) {
                    Some(error) => Some(ControlResponsePayloadView::Error { request_id, error }),
                    None => None,
                }
            } else {
                None
            },
            _ => None,
        }
    }

    /// Whether the optional document of the payload is not `null`.
    pub open spec fn has_no_null_option(self) -> bool {
        match self {
            ControlResponsePayloadView::Success { response, .. } => response != Some(
                JsonValue::Null,
            ),
            _ => true,
        }
    }
}

impl ControlResponseView {
    /// The wire form: `type` and `response`.
    pub open spec fn to_json(self) -> JsonValue {
        JsonValue::empty_object().with("type"@, JsonValue::String(self.response_type)).with(
            "response"@,
            self.response.to_json(),
        )
    }

    /// Reads the wire form.
    pub open spec fn from_json(v: JsonValue) -> Option<ControlResponseView> {
        match (v.get_str("type"@), v.get("response"@)) {
            (Some(response_type), Some(body)) => match ControlResponsePayloadView::from_json(body) {
                Some(response) => Some(ControlResponseView { response_type, response }),
                None => None,
            },
            _ => None,
        }
    }
}

impl ControlRequestPayloadView {
    /// What is wrong with a document that is to be the payload of a
    /// request, if anything is: `subtype` is missing or names no kind, or
    /// the first field of the kind that is missing or of the wrong type.
    pub open spec fn fault(v: JsonValue) -> Option<Seq<char>> {
        match v.get_str("subtype"@) {
            None => fault_of(v, "subtype"@, FieldKind::Str),
            Some(kind) => if kind == "interrupt"@ {
                None
            } else if kind == "can_use_tool"@ {
                first_fault(
                    fault_of(v, "tool_name"@, FieldKind::Str),
                    first_fault(
                        fault_of(v, "input"@, FieldKind::Any),
                        first_fault(
                            fault_of(v, "permission_suggestions"@, FieldKind::OptArray),
                            fault_of(v, "blocked_path"@, FieldKind::OptStr),
                        ),
                    ),
                )
            } else if kind == "initialize"@ {
                None
            } else if kind == "set_permission_mode"@ {
                fault_of(v, "mode"@, FieldKind::Str)
            } else if kind == "set_model"@ {
                fault_of(v, "model"@, FieldKind::Str)
            } else if kind == "hook_callback"@ {
                first_fault(
                    fault_of(v, "callback_id"@, FieldKind::Str),
                    first_fault(
                        fault_of(v, "input"@, FieldKind::Any),
                        fault_of(v, "tool_use_id"@, FieldKind::OptStr),
                    ),
                )
            } else if kind == "mcp_message"@ {
                first_fault(
                    fault_of(v, "server_name"@, FieldKind::Str),
                    fault_of(v, "message"@, FieldKind::Any),
                )
            } else if kind == "mcp_status"@ {
                None
            } else if kind == "rewind_files"@ {
                fault_of(v, "user_message_id"@, FieldKind::Str)
            } else {
                Some(unknown_variant(kind))
            },
        }
    }
}

impl ControlRequestView {
    /// What is wrong with a document that is to be a control request, if
    /// anything is: the first of `type`, `request_id` and `request` that is
    /// missing or of the wrong type, or what is wrong with the payload.
    pub open spec fn fault(v: JsonValue) -> Option<Seq<char>> {
        first_fault(
            fault_of(v, "type"@, FieldKind::Str),
            first_fault(
                fault_of(v, "request_id"@, FieldKind::Str),
                match v.get("request"@) {
                    None => fault_of(v, "request"@, FieldKind::Any),
                    Some(body) => ControlRequestPayloadView::fault(body),
                },
            ),
        )
    }
}

impl ControlResponsePayloadView {
    /// What is wrong with a document that is to be the payload of a
    /// response, if anything is.
    pub open spec fn fault(v: JsonValue) -> Option<Seq<char>> {
        first_fault(
            fault_of(v, "subtype"@, FieldKind::Str),
            first_fault(
                fault_of(v, "request_id"@, FieldKind::Str),
                match v.get_str("subtype"@) {
                    None => None,
                    Some(kind) => if kind == "success"@ {
                        None
                    } else if kind == "error"@ {
                        fault_of(v, "error"@, FieldKind::Str)
                    } else {
                        Some(unknown_variant(kind))
                    },
                },
            ),
        )
    }
}

impl ControlResponseView {
    /// What is wrong with a document that is to be a control response, if
    /// anything is.
    pub open spec fn fault(v: JsonValue) -> Option<Seq<char>> {
        first_fault(
            fault_of(v, "type"@, FieldKind::Str),
            match v.get("response"@) {
                None => fault_of(v, "response"@, FieldKind::Any),
                Some(body) => ControlResponsePayloadView::fault(body),
            },
        )
    }
}

impl ControlRequestPayloadView {
    /// Whether the documents that the payload carries are plain: its own
    /// fields are texts, which are.
    pub open spec fn is_plain(self) -> bool {
        match self {
            ControlRequestPayloadView::CanUseTool { input, permission_suggestions, .. } => {
                &&& input.is_plain()
                &&& JsonValue::of_opt_array(permission_suggestions).is_plain()
            },
            ControlRequestPayloadView::Initialize { hooks } => JsonValue::of_opt(hooks).is_plain(),
            ControlRequestPayloadView::HookCallback { input, .. } => input.is_plain(),
            ControlRequestPayloadView::McpMessage { message, .. } => message.is_plain(),
            _ => true,
        }
    }
}

/// A control request whose payload carries plain documents is a plain
/// document on the wire.
pub proof fn lemma_plain_control_request(request: ControlRequestView)
    requires
        request.request.is_plain(),
    ensures
        request.request.to_json().is_plain(),
        request.to_json().is_plain(),
{
    let empty = JsonValue::empty_object();
    lemma_plain_with(empty, "subtype"@, JsonValue::String(request.request.subtype()));
    let head = empty.with("subtype"@, JsonValue::String(request.request.subtype()));
    match request.request {
        ControlRequestPayloadView::CanUseTool {
            tool_name,
            input,
            permission_suggestions,
            blocked_path,
        } => {
            let a = head.with("tool_name"@, JsonValue::String(tool_name));
            lemma_plain_with(head, "tool_name"@, JsonValue::String(tool_name));
            let b = a.with("input"@, input);
            lemma_plain_with(a, "input"@, input);
            let c = b.with("permission_suggestions"@, JsonValue::of_opt_array(permission_suggestions));
            lemma_plain_with(
                b,
                "permission_suggestions"@,
                JsonValue::of_opt_array(permission_suggestions),
            );
            lemma_plain_with(c, "blocked_path"@, JsonValue::of_opt_str(blocked_path));
        },
        ControlRequestPayloadView::Initialize { hooks } => {
            lemma_plain_with(head, "hooks"@, JsonValue::of_opt(hooks));
        },
        ControlRequestPayloadView::SetPermissionMode { mode } => {
            lemma_plain_with(head, "mode"@, JsonValue::String(mode));
        },
        ControlRequestPayloadView::SetModel { model } => {
            lemma_plain_with(head, "model"@, JsonValue::String(model));
        },
        ControlRequestPayloadView::HookCallback { callback_id, input, tool_use_id } => {
            let a = head.with("callback_id"@, JsonValue::String(callback_id));
            lemma_plain_with(head, "callback_id"@, JsonValue::String(callback_id));
            let b = a.with("input"@, input);
            lemma_plain_with(a, "input"@, input);
            lemma_plain_with(b, "tool_use_id"@, JsonValue::of_opt_str(tool_use_id));
        },
        ControlRequestPayloadView::McpMessage { server_name, message } => {
            let a = head.with("server_name"@, JsonValue::String(server_name));
            lemma_plain_with(head, "server_name"@, JsonValue::String(server_name));
            lemma_plain_with(a, "message"@, message);
        },
        ControlRequestPayloadView::RewindFiles { user_message_id } => {
            lemma_plain_with(head, "user_message_id"@, JsonValue::String(user_message_id));
        },
        _ => {},
    }
    let body = request.request.to_json();
    let x = empty.with("type"@, JsonValue::String(request.request_type));
    lemma_plain_with(empty, "type"@, JsonValue::String(request.request_type));
    let y = x.with("request_id"@, JsonValue::String(request.request_id));
    lemma_plain_with(x, "request_id"@, JsonValue::String(request.request_id));
    lemma_plain_with(y, "request"@, body);
}

/// A control response that carries a plain document, or none, or an error's
/// text, is a plain document on the wire.
pub proof fn lemma_plain_control_response(response: ControlResponseView)
    requires
        response.response matches ControlResponsePayloadView::Success { response: data, .. }
            ==> JsonValue::of_opt(data).is_plain(),
    ensures
        response.to_json().is_plain(),
{
    let empty = JsonValue::empty_object();
    let id = JsonValue::String(response.response.request_id());
    match response.response {
        ControlResponsePayloadView::Success { request_id, response: data } => {
            let a = empty.with("subtype"@, JsonValue::String("success"@));
            lemma_plain_with(empty, "subtype"@, JsonValue::String("success"@));
            let b = a.with("request_id"@, id);
            lemma_plain_with(a, "request_id"@, id);
            lemma_plain_with(b, "response"@, JsonValue::of_opt(data));
        },
        ControlResponsePayloadView::Error { request_id, error } => {
            let a = empty.with("subtype"@, JsonValue::String("error"@));
            lemma_plain_with(empty, "subtype"@, JsonValue::String("error"@));
            let b = a.with("request_id"@, id);
            lemma_plain_with(a, "request_id"@, id);
            lemma_plain_with(b, "error"@, JsonValue::String(error));
        },
    }
    let x = empty.with("type"@, JsonValue::String(response.response_type));
    lemma_plain_with(empty, "type"@, JsonValue::String(response.response_type));
    lemma_plain_with(x, "response"@, response.response.to_json());
}

/// A document has a fault as the payload of a request exactly where it
/// cannot be read as one.
pub proof fn lemma_request_payload_fault(v: JsonValue)
    ensures
        ControlRequestPayloadView::fault(v) is Some <==> ControlRequestPayloadView::from_json(v)
            is None,
{
}

/// A document has a fault as a control request exactly where it cannot be
/// read as one.
pub proof fn lemma_control_request_fault(v: JsonValue)
    ensures
        ControlRequestView::fault(v) is Some <==> ControlRequestView::from_json(v) is None,
{
    match v.get("request"@) {
        Some(body) => {
            lemma_request_payload_fault(body);
        },
        None => {},
    }
}

/// A document has a fault as a control response exactly where it cannot be
/// read as one.
pub proof fn lemma_control_response_fault(v: JsonValue)
    ensures
        ControlResponseView::fault(v) is Some <==> ControlResponseView::from_json(v) is None,
{
}

impl ControlRequestPayload {
    /// What is wrong with a document that is to be the payload of a
    /// request, if anything is.
    pub fn fault(v: &Json) -> (r: Option<String>)
        ensures
            opt_view(r) == ControlRequestPayloadView::fault(v@),
    {
        let kind = match v.get_str("subtype") {
            Some(k) => k,
            None => { return field_fault(v, "subtype", FieldKind::Str); },
        };
        if str_eq(kind, "interrupt") {
            None
        } else if str_eq(kind, "can_use_tool") {
            first(
                field_fault(v, "tool_name", FieldKind::Str),
                first(
                    field_fault(v, "input", FieldKind::Any),
                    first(
                        field_fault(v, "permission_suggestions", FieldKind::OptArray),
                        field_fault(v, "blocked_path", FieldKind::OptStr),
                    ),
                ),
            )
        } else if str_eq(kind, "initialize") {
            None
        } else if str_eq(kind, "set_permission_mode") {
            field_fault(v, "mode", FieldKind::Str)
        } else if str_eq(kind, "set_model") {
            field_fault(v, "model", FieldKind::Str)
        } else if str_eq(kind, "hook_callback") {
            first(
                field_fault(v, "callback_id", FieldKind::Str),
                first(
                    field_fault(v, "input", FieldKind::Any),
                    field_fault(v, "tool_use_id", FieldKind::OptStr),
                ),
            )
        } else if str_eq(kind, "mcp_message") {
            first(
                field_fault(v, "server_name", FieldKind::Str),
                field_fault(v, "message", FieldKind::Any),
            )
        } else if str_eq(kind, "mcp_status") {
            None
        } else if str_eq(kind, "rewind_files") {
            field_fault(v, "user_message_id", FieldKind::Str)
        } else {
            Some(unknown_variant_text(kind))
        }
    }
}

impl ControlRequest {
    /// What is wrong with a document that is to be a control request, if
    /// anything is.
    pub fn fault(v: &Json) -> (r: Option<String>)
        ensures
            opt_view(r) == ControlRequestView::fault(v@),
    {
        let body = match v.get("request") {
            None => field_fault(v, "request", FieldKind::Any),
            Some(body) => ControlRequestPayload::fault(body),
        };
        first(
            field_fault(v, "type", FieldKind::Str),
            first(field_fault(v, "request_id", FieldKind::Str), body),
        )
    }
}

impl ControlResponsePayload {
    /// What is wrong with a document that is to be the payload of a
    /// response, if anything is.
    pub fn fault(v: &Json) -> (r: Option<String>)
        ensures
            opt_view(r) == ControlResponsePayloadView::fault(v@),
    {
        let by_kind = match v.get_str("subtype") {
            None => None,
            Some(kind) => if str_eq(kind, "success") {
                None
            } else if str_eq(kind, "error") {
                field_fault(v, "error", FieldKind::Str)
            } else {
                Some(unknown_variant_text(kind))
            },
        };
        first(
            field_fault(v, "subtype", FieldKind::Str),
            first(field_fault(v, "request_id", FieldKind::Str), by_kind),
        )
    }
}

impl ControlResponse {
    /// What is wrong with a document that is to be a control response, if
    /// anything is.
    pub fn fault(v: &Json) -> (r: Option<String>)
        ensures
            opt_view(r) == ControlResponseView::fault(v@),
    {
        let body = match v.get("response") {
            None => field_fault(v, "response", FieldKind::Any),
            Some(body) => ControlResponsePayload::fault(body),
        };
        first(field_fault(v, "type", FieldKind::Str), body)
    }
}

impl ControlRequestPayload {
    /// The wire name of the kind of request.
    pub fn subtype(&self) -> (r: &'static str)
        ensures
            r@ == self@.subtype(),
    {
        match self {
            ControlRequestPayload::Interrupt => "interrupt",
            ControlRequestPayload::CanUseTool { .. } => "can_use_tool",
            ControlRequestPayload::Initialize { .. } => "initialize",
            ControlRequestPayload::SetPermissionMode { .. } => "set_permission_mode",
            ControlRequestPayload::SetModel { .. } => "set_model",
            ControlRequestPayload::HookCallback { .. } => "hook_callback",
            ControlRequestPayload::McpMessage { .. } => "mcp_message",
            ControlRequestPayload::McpStatus => "mcp_status",
            ControlRequestPayload::RewindFiles { .. } => "rewind_files",
        }
    }

    /// The wire form of the payload.
    pub fn to_json(&self) -> (r: Json)
        ensures
            r@ == self@.to_json(),
    {
        let mut o = Json::object();
        o.insert("subtype", Json::string(self.subtype()));
        match self {
            ControlRequestPayload::Interrupt => {},
            ControlRequestPayload::CanUseTool {
                tool_name,
                input,
                permission_suggestions,
                blocked_path,
            } => {
                o.insert("tool_name", Json::String(tool_name.clone()));
                o.insert("input", input.clone());
                o.insert("permission_suggestions", Json::of_opt_array(permission_suggestions));
                o.insert("blocked_path", Json::of_opt_str(blocked_path));
            },
            ControlRequestPayload::Initialize { hooks } => {
                o.insert("hooks", Json::of_opt(hooks));
            },
            ControlRequestPayload::SetPermissionMode { mode } => {
                o.insert("mode", Json::String(mode.clone()));
            },
            ControlRequestPayload::SetModel { model } => {
                o.insert("model", Json::String(model.clone()));
            },
            ControlRequestPayload::HookCallback { callback_id, input, tool_use_id } => {
                o.insert("callback_id", Json::String(callback_id.clone()));
                o.insert("input", input.clone());
                o.insert("tool_use_id", Json::of_opt_str(tool_use_id));
            },
            ControlRequestPayload::McpMessage { server_name, message } => {
                o.insert("server_name", Json::String(server_name.clone()));
                o.insert("message", message.clone());
            },
            ControlRequestPayload::McpStatus => {},
            ControlRequestPayload::RewindFiles { user_message_id } => {
                o.insert("user_message_id", Json::String(user_message_id.clone()));
            },
        }
        o
    }

    /// Reads the wire form of a payload.
    pub fn from_json(v: &Json) -> (r: Option<ControlRequestPayload>)
        ensures
            opt_model(r) == ControlRequestPayloadView::from_json(v@),
    {
        let kind = match v.get_str("subtype") {
            Some(k) => k,
            None => { return None; },
        };
        if str_eq(kind, "interrupt") {
            Some(ControlRequestPayload::Interrupt)
        } else if str_eq(kind, "can_use_tool") {
            let tool_name = v.get_string("tool_name");
            let input = v.get("input");
            let suggestions = v.opt_array_field("permission_suggestions");
            let blocked_path = v.opt_str_field("blocked_path");
            match (tool_name, input, suggestions, blocked_path) {
                (Some(tool_name), Some(input), Some(permission_suggestions), Some(blocked_path)) => {
                    Some(
                        ControlRequestPayload::CanUseTool {
                            tool_name,
                            input: input.clone(),
                            permission_suggestions,
                            blocked_path,
                        },
                    )
                },
                _ => None,
            }
        } else if str_eq(kind, "initialize") {
            Some(ControlRequestPayload::Initialize { hooks: v.opt_field("hooks") })
        } else if str_eq(kind, "set_permission_mode") {
            match v.get_string("mode") {
                Some(mode) => Some(ControlRequestPayload::SetPermissionMode { mode }),
                None => None,
            }
        } else if str_eq(kind, "set_model") {
            match v.get_string("model") {
                Some(model) => Some(ControlRequestPayload::SetModel { model }),
                None => None,
            }
        } else if str_eq(kind, "hook_callback") {
            let callback_id = v.get_string("callback_id");
            let input = v.get("input");
            let tool_use_id = v.opt_str_field("tool_use_id");
            match (callback_id, input, tool_use_id) {
                (Some(callback_id), Some(input), Some(tool_use_id)) => Some(
                    ControlRequestPayload::HookCallback {
                        callback_id,
                        input: input.clone(),
                        tool_use_id,
                    },
                ),
                _ => None,
            }
        } else if str_eq(kind, "mcp_message") {
            let server_name = v.get_string("server_name");
            let message = v.get("message");
            match (server_name, message) {
                (Some(server_name), Some(message)) => Some(
                    ControlRequestPayload::McpMessage { server_name, message: message.clone() },
                ),
                _ => None,
            }
        } else if str_eq(kind, "mcp_status") {
            Some(ControlRequestPayload::McpStatus)
        } else if str_eq(kind, "rewind_files") {
            match v.get_string("user_message_id") {
                Some(user_message_id) => Some(ControlRequestPayload::RewindFiles { user_message_id }),
                None => None,
            }
        } else {
            None
        }
    }
}

impl ControlRequest {
    /// A request of the given id, with the envelope's fixed type.
    pub fn new(request_id: &str, request: ControlRequestPayload) -> (r: Self)
        ensures
            r@ == (ControlRequestView {
                request_type: "control_request"@,
                request_id: request_id@,
                request: request@,
            }),
    {
        ControlRequest {
            request_type: String::from_str("control_request"),
            request_id: String::from_str(request_id),
            request,
        }
    }

    /// The wire form of the request.
    pub fn to_json(&self) -> (r: Json)
        ensures
            r@ == self@.to_json(),
    {
        let mut o = Json::object();
        o.insert("type", Json::String(self.request_type.clone()));
        o.insert("request_id", Json::String(self.request_id.clone()));
        o.insert("request", self.request.to_json());
        o
    }

    /// Reads the wire form of a request.
    pub fn from_json(v: &Json) -> (r: Option<ControlRequest>)
        ensures
            opt_model(r) == ControlRequestView::from_json(v@),
    {
        let request_type = v.get_string("type");
        let request_id = v.get_string("request_id");
        let body = v.get("request");
        match (request_type, request_id, body) {
            (Some(request_type), Some(request_id), Some(body)) => {
                match ControlRequestPayload::from_json(body) {
                    Some(request) => Some(ControlRequest { request_type, request_id, request }),
                    None => None,
                }
            },
            _ => None,
        }
    }
}

impl ControlResponsePayload {
    /// The wire form of the payload.
    pub fn to_json(&self) -> (r: Json)
        ensures
            r@ == self@.to_json(),
    {
        let mut o = Json::object();
        match self {
            ControlResponsePayload::Success { request_id, response } => {
                o.insert("subtype", Json::string("success"));
                o.insert("request_id", Json::String(request_id.clone()));
                o.insert("response", Json::of_opt(response));
            },
            ControlResponsePayload::Error { request_id, error } => {
                o.insert("subtype", Json::string("error"));
                o.insert("request_id", Json::String(request_id.clone()));
                o.insert("error", Json::String(error.clone()));
            },
        }
        o
    }

    /// Reads the wire form of a payload.
    pub fn from_json(v: &Json) -> (r: Option<ControlResponsePayload>)
        ensures
            opt_model(r) == ControlResponsePayloadView::from_json(v@),
    {
        let kind = v.get_str("subtype");
        let request_id = v.get_string("request_id");
        match (kind, request_id) {
            (Some(kind), Some(request_id)) => {
                if str_eq(kind, "success") {
                    Some(
                        ControlResponsePayload::Success {
                            request_id,
                            response: v.opt_field("response"),
                        },
                    )
                } else if str_eq(kind, "error") {
                    match v.get_string("error") {
                        Some(error) => Some(ControlResponsePayload::Error { request_id, error }),
                        None => None,
                    }
                } else {
                    None
                }
            },
            _ => None,
        }
    }
}

impl ControlResponse {
    /// The wire form of the response.
    pub fn to_json(&self) -> (r: Json)
        ensures
            r@ == self@.to_json(),
    {
        let mut o = Json::object();
        o.insert("type", Json::String(self.response_type.clone()));
        o.insert("response", self.response.to_json());
        o
    }

    /// Reads the wire form of a response.
    pub fn from_json(v: &Json) -> (r: Option<ControlResponse>)
        ensures
            opt_model(r) == ControlResponseView::from_json(v@),
    {
        let response_type = v.get_string("type");
        let body = v.get("response");
        match (response_type, body) {
            (Some(response_type), Some(body)) => match ControlResponsePayload::from_json(body) {
                Some(response) => Some(ControlResponse { response_type, response }),
                None => None,
            },
            _ => None,
        }
    }

    /// The id of the request that this replies to.
    pub fn request_id(&self) -> (r: &str)
        ensures
            r@ == self@.response.request_id(),
    {
        match &self.response {
            ControlResponsePayload::Success { request_id, .. } => request_id.as_str(),
            ControlResponsePayload::Error { request_id, .. } => request_id.as_str(),
        }
    }

    /// Whether the reply reports success.
    pub fn is_success(&self) -> (r: bool)
        ensures
            r == (self@.response is Success),
    {
        match &self.response {
            ControlResponsePayload::Success { .. } => true,
            ControlResponsePayload::Error { .. } => false,
        }
    }

    /// The data of a success reply.
    pub fn data(&self) -> (r: Option<&Json>)
        ensures
            match r {
                Some(j) => self@.response matches ControlResponsePayloadView::Success {
                    response: Some(d),
                    ..
                } && d == j@,
                None => !(self@.response matches ControlResponsePayloadView::Success {
                    response: Some(_),
                    ..
                }),
            },
    {
        match &self.response {
            ControlResponsePayload::Success { response, .. } => response.as_ref(),
            ControlResponsePayload::Error { .. } => None,
        }
    }

    /// The message of an error reply.
    pub fn error(&self) -> (r: Option<&str>)
        ensures
            match r {
                Some(s) => self@.response matches ControlResponsePayloadView::Error { error, .. }
                    && error == s@,
                None => self@.response is Success,
            },
    {
        match &self.response {
            ControlResponsePayload::Success { .. } => None,
            ControlResponsePayload::Error { error, .. } => Some(error.as_str()),
        }
    }
}

/// What is known of the member names and kind names of the wire form: their
/// characters, from which it follows that they differ from one another.
proof fn reveal_wire_names()
    ensures
        "subtype"@.len() == 7,
        "tool_name"@.len() == 9,
        "input"@.len() == 5,
        "permission_suggestions"@.len() == 22,
        "blocked_path"@.len() == 12,
        "hooks"@.len() == 5,
        "mode"@.len() == 4,
        "model"@.len() == 5,
        "callback_id"@.len() == 11,
        "tool_use_id"@.len() == 11,
        "server_name"@.len() == 11,
        "message"@.len() == 7,
        "user_message_id"@.len() == 15,
        "type"@.len() == 4,
        "request_id"@.len() == 10,
        "request"@.len() == 7,
        "response"@.len() == 8,
        "error"@.len() == 5,
        "interrupt"@.len() == 9,
        "can_use_tool"@.len() == 12,
        "initialize"@.len() == 10,
        "set_permission_mode"@.len() == 19,
        "set_model"@.len() == 9,
        "hook_callback"@.len() == 13,
        "mcp_message"@.len() == 11,
        "mcp_status"@.len() == 10,
        "rewind_files"@.len() == 12,
        "success"@.len() == 7,
        "subtype"@[0] == 's',
        "message"@[0] == 'm',
        "request"@[0] == 'r',
        "success"@[0] == 's',
        "subtype"@[2] == 'b',
        "success"@[2] == 'c',
        "input"@[0] == 'i',
        "hooks"@[0] == 'h',
        "model"@[0] == 'm',
        "error"@[0] == 'e',
        "callback_id"@[0] == 'c',
        "tool_use_id"@[0] == 't',
        "server_name"@[0] == 's',
        "mcp_message"@[0] == 'm',
        "tool_name"@[0] == 't',
        "interrupt"@[0] == 'i',
        "set_model"@[0] == 's',
        "blocked_path"@[0] == 'b',
        "can_use_tool"@[0] == 'c',
        "rewind_files"@[0] == 'r',
        "request_id"@[0] == 'r',
        "initialize"@[0] == 'i',
        "mcp_status"@[0] == 'm',
        "mode"@[0] == 'm',
        "type"@[0] == 't',
{
    reveal_strlit("subtype");
    reveal_strlit("tool_name");
    reveal_strlit("input");
    reveal_strlit("permission_suggestions");
    reveal_strlit("blocked_path");
    reveal_strlit("hooks");
    reveal_strlit("mode");
    reveal_strlit("model");
    reveal_strlit("callback_id");
    reveal_strlit("tool_use_id");
    reveal_strlit("server_name");
    reveal_strlit("message");
    reveal_strlit("user_message_id");
    reveal_strlit("type");
    reveal_strlit("request_id");
    reveal_strlit("request");
    reveal_strlit("response");
    reveal_strlit("error");
    reveal_strlit("interrupt");
    reveal_strlit("can_use_tool");
    reveal_strlit("initialize");
    reveal_strlit("set_permission_mode");
    reveal_strlit("set_model");
    reveal_strlit("hook_callback");
    reveal_strlit("mcp_message");
    reveal_strlit("mcp_status");
    reveal_strlit("rewind_files");
    reveal_strlit("success");
}

/// A request payload that is written to the wire and read back is the
/// payload that was written, unless an optional document of it is `null`.
pub proof fn lemma_request_payload_round_trip(p: ControlRequestPayloadView)
    requires
        p.has_no_null_option(),
    ensures
        ControlRequestPayloadView::from_json(p.to_json()) == Some(p),
{
    reveal_wire_names();
    let e = JsonValue::empty_object();
    let kind = JsonValue::String(p.subtype());
    let head = e.with("subtype"@, kind);
    match p {
        ControlRequestPayloadView::Interrupt => {
            lemma_get_with(e, "subtype"@, kind, "subtype"@);
        },
        ControlRequestPayloadView::CanUseTool {
            tool_name,
            input,
            permission_suggestions,
            blocked_path,
        } => {
            let a = head.with("tool_name"@, JsonValue::String(tool_name));
            let b = a.with("input"@, input);
            let c = b.with(
                "permission_suggestions"@,
                JsonValue::of_opt_array(permission_suggestions),
            );
            let d = c.with("blocked_path"@, JsonValue::of_opt_str(blocked_path));
            assert forall|k: Seq<char>|
                #![trigger d.get(k)]
                k == "subtype"@ || k == "tool_name"@ || k == "input"@ || k
                    == "permission_suggestions"@ || k == "blocked_path"@ implies d.get(k) == if k
                == "subtype"@ {
                Some(kind)
            } else if k == "tool_name"@ {
                Some(JsonValue::String(tool_name))
            } else if k == "input"@ {
                Some(input)
            } else if k == "permission_suggestions"@ {
                Some(JsonValue::of_opt_array(permission_suggestions))
            } else {
                Some(JsonValue::of_opt_str(blocked_path))
            } by {
                lemma_get_with(e, "subtype"@, kind, k);
                lemma_get_with(head, "tool_name"@, JsonValue::String(tool_name), k);
                lemma_get_with(a, "input"@, input, k);
                lemma_get_with(
                    b,
                    "permission_suggestions"@,
                    JsonValue::of_opt_array(permission_suggestions),
                    k,
                );
                lemma_get_with(c, "blocked_path"@, JsonValue::of_opt_str(blocked_path), k);
            }
            assert(d.get("subtype"@) == Some(kind));
            assert(d.get("tool_name"@) == Some(JsonValue::String(tool_name)));
            assert(d.get("input"@) == Some(input));
            assert(d.get("permission_suggestions"@) == Some(
                JsonValue::of_opt_array(permission_suggestions),
            ));
            assert(d.get("blocked_path"@) == Some(JsonValue::of_opt_str(blocked_path)));
        },
        ControlRequestPayloadView::Initialize { hooks } => {
            let a = head.with("hooks"@, JsonValue::of_opt(hooks));
            lemma_get_with(e, "subtype"@, kind, "subtype"@);
            lemma_get_with(head, "hooks"@, JsonValue::of_opt(hooks), "subtype"@);
            lemma_get_with(head, "hooks"@, JsonValue::of_opt(hooks), "hooks"@);
        },
        ControlRequestPayloadView::SetPermissionMode { mode } => {
            lemma_get_with(e, "subtype"@, kind, "subtype"@);
            lemma_get_with(head, "mode"@, JsonValue::String(mode), "subtype"@);
            lemma_get_with(head, "mode"@, JsonValue::String(mode), "mode"@);
        },
        ControlRequestPayloadView::SetModel { model } => {
            lemma_get_with(e, "subtype"@, kind, "subtype"@);
            lemma_get_with(head, "model"@, JsonValue::String(model), "subtype"@);
            lemma_get_with(head, "model"@, JsonValue::String(model), "model"@);
        },
        ControlRequestPayloadView::HookCallback { callback_id, input, tool_use_id } => {
            let a = head.with("callback_id"@, JsonValue::String(callback_id));
            let b = a.with("input"@, input);
            let c = b.with("tool_use_id"@, JsonValue::of_opt_str(tool_use_id));
            assert forall|k: Seq<char>|
                #![trigger c.get(k)]
                k == "subtype"@ || k == "callback_id"@ || k == "input"@ || k
                    == "tool_use_id"@ implies c.get(k) == if k == "subtype"@ {
                Some(kind)
            } else if k == "callback_id"@ {
                Some(JsonValue::String(callback_id))
            } else if k == "input"@ {
                Some(input)
            } else {
                Some(JsonValue::of_opt_str(tool_use_id))
            } by {
                lemma_get_with(e, "subtype"@, kind, k);
                lemma_get_with(head, "callback_id"@, JsonValue::String(callback_id), k);
                lemma_get_with(a, "input"@, input, k);
                lemma_get_with(b, "tool_use_id"@, JsonValue::of_opt_str(tool_use_id), k);
            }
            assert(c.get("subtype"@) == Some(kind));
            assert(c.get("callback_id"@) == Some(JsonValue::String(callback_id)));
            assert(c.get("input"@) == Some(input));
            assert(c.get("tool_use_id"@) == Some(JsonValue::of_opt_str(tool_use_id)));
        },
        ControlRequestPayloadView::McpMessage { server_name, message } => {
            let a = head.with("server_name"@, JsonValue::String(server_name));
            let b = a.with("message"@, message);
            assert forall|k: Seq<char>|
                #![trigger b.get(k)]
                k == "subtype"@ || k == "server_name"@ || k == "message"@ implies b.get(k) == if k
                == "subtype"@ {
                Some(kind)
            } else if k == "server_name"@ {
                Some(JsonValue::String(server_name))
            } else {
                Some(message)
            } by {
                lemma_get_with(e, "subtype"@, kind, k);
                lemma_get_with(head, "server_name"@, JsonValue::String(server_name), k);
                lemma_get_with(a, "message"@, message, k);
            }
            assert(b.get("subtype"@) == Some(kind));
            assert(b.get("server_name"@) == Some(JsonValue::String(server_name)));
            assert(b.get("message"@) == Some(message));
        },
        ControlRequestPayloadView::McpStatus => {
            lemma_get_with(e, "subtype"@, kind, "subtype"@);
        },
        ControlRequestPayloadView::RewindFiles { user_message_id } => {
            lemma_get_with(e, "subtype"@, kind, "subtype"@);
            lemma_get_with(head, "user_message_id"@, JsonValue::String(user_message_id), "subtype"@);
            lemma_get_with(
                head,
                "user_message_id"@,
                JsonValue::String(user_message_id),
                "user_message_id"@,
            );
        },
    }
}

/// A control request that is written to the wire and read back is the request
/// that was written, unless an optional document of it is `null`.
pub proof fn lemma_control_request_round_trip(r: ControlRequestView)
    requires
        r.request.has_no_null_option(),
    ensures
        ControlRequestView::from_json(r.to_json()) == Some(r),
{
    reveal_wire_names();
    lemma_request_payload_round_trip(r.request);
    let e = JsonValue::empty_object();
    let a = e.with("type"@, JsonValue::String(r.request_type));
    let b = a.with("request_id"@, JsonValue::String(r.request_id));
    let c = b.with("request"@, r.request.to_json());
    assert forall|k: Seq<char>|
        #![trigger c.get(k)]
        k == "type"@ || k == "request_id"@ || k == "request"@ implies c.get(k) == if k == "type"@ {
        Some(JsonValue::String(r.request_type))
    } else if k == "request_id"@ {
        Some(JsonValue::String(r.request_id))
    } else {
        Some(r.request.to_json())
    } by {
        lemma_get_with(e, "type"@, JsonValue::String(r.request_type), k);
        lemma_get_with(a, "request_id"@, JsonValue::String(r.request_id), k);
        lemma_get_with(b, "request"@, r.request.to_json(), k);
    }
    assert(c.get("type"@) == Some(JsonValue::String(r.request_type)));
    assert(c.get("request_id"@) == Some(JsonValue::String(r.request_id)));
    assert(c.get("request"@) == Some(r.request.to_json()));
}

/// A response payload that is written to the wire and read back is the
/// payload that was written, unless its optional document is `null`.
pub proof fn lemma_response_payload_round_trip(p: ControlResponsePayloadView)
    requires
        p.has_no_null_option(),
    ensures
        ControlResponsePayloadView::from_json(p.to_json()) == Some(p),
{
    reveal_wire_names();
    let e = JsonValue::empty_object();
    match p {
        ControlResponsePayloadView::Success { request_id, response } => {
            let a = e.with("subtype"@, JsonValue::String("success"@));
            let b = a.with("request_id"@, JsonValue::String(request_id));
            let c = b.with("response"@, JsonValue::of_opt(response));
            assert forall|k: Seq<char>|
                #![trigger c.get(k)]
                k == "subtype"@ || k == "request_id"@ || k == "response"@ implies c.get(k) == if k
                == "subtype"@ {
                Some(JsonValue::String("success"@))
            } else if k == "request_id"@ {
                Some(JsonValue::String(request_id))
            } else {
                Some(JsonValue::of_opt(response))
            } by {
                lemma_get_with(e, "subtype"@, JsonValue::String("success"@), k);
                lemma_get_with(a, "request_id"@, JsonValue::String(request_id), k);
                lemma_get_with(b, "response"@, JsonValue::of_opt(response), k);
            }
            assert(c.get("subtype"@) == Some(JsonValue::String("success"@)));
            assert(c.get("request_id"@) == Some(JsonValue::String(request_id)));
            assert(c.get("response"@) == Some(JsonValue::of_opt(response)));
        },
        ControlResponsePayloadView::Error { request_id, error } => {
            let a = e.with("subtype"@, JsonValue::String("error"@));
            let b = a.with("request_id"@, JsonValue::String(request_id));
            let c = b.with("error"@, JsonValue::String(error));
            assert forall|k: Seq<char>|
                #![trigger c.get(k)]
                k == "subtype"@ || k == "request_id"@ || k == "error"@ implies c.get(k) == if k
                == "subtype"@ {
                Some(JsonValue::String("error"@))
            } else if k == "request_id"@ {
                Some(JsonValue::String(request_id))
            } else {
                Some(JsonValue::String(error))
            } by {
                lemma_get_with(e, "subtype"@, JsonValue::String("error"@), k);
                lemma_get_with(a, "request_id"@, JsonValue::String(request_id), k);
                lemma_get_with(b, "error"@, JsonValue::String(error), k);
            }
            assert(c.get("subtype"@) == Some(JsonValue::String("error"@)));
            assert(c.get("request_id"@) == Some(JsonValue::String(request_id)));
            assert(c.get("error"@) == Some(JsonValue::String(error)));
        },
    }
}

/// A control response that is written to the wire and read back is the
/// response that was written, unless its optional document is `null`.
pub proof fn lemma_control_response_round_trip(r: ControlResponseView)
    requires
        r.response.has_no_null_option(),
    ensures
        ControlResponseView::from_json(r.to_json()) == Some(r),
{
    reveal_wire_names();
    lemma_response_payload_round_trip(r.response);
    let e = JsonValue::empty_object();
    let a = e.with("type"@, JsonValue::String(r.response_type));
    lemma_get_with(e, "type"@, JsonValue::String(r.response_type), "type"@);
    lemma_get_with(a, "response"@, r.response.to_json(), "type"@);
    lemma_get_with(a, "response"@, r.response.to_json(), "response"@);
}

} // verus!
