//! Reading the peer's JSON documents: telling control traffic from event
//! messages, and mapping a document to the message it stands for.

use crate::control::{ControlRequest, ControlRequestView, ControlResponse, ControlResponseView};
use crate::errors::{ClaudeSDKError, ErrorValue};
use crate::json::{items_view, opt_json_view, Json, JsonValue};
use crate::messages::{
    AssistantMessage, AssistantMessageError, ContentBlock, ContentBlockView, Message, MessageView,
    ResultMessage, ResultMessageView, StreamEvent, SystemMessage, TextBlock, ThinkingBlock,
    ToolResultBlock, ToolUseBlock, UserMessage, UserMessageContent, UserMessageContentView,
};
use crate::text::{concat, opt_view, str_eq, views};
use crate::fault::{failure_text, fault_text};
use vstd::prelude::*;
use vstd::string::StringExecFns;

verus! {

/// The error of a document that is not the message it should be: what is
/// wrong, and the document.
pub open spec fn parse_error(message: Seq<char>, raw: JsonValue) -> ErrorValue {
    ErrorValue::MessageParse { message, raw_message: Some(raw) }
}

/// The string under `key`, or `default` where there is none.
pub open spec fn str_or(v: JsonValue, key: Seq<char>, default: Seq<char>) -> Seq<char> {
    match v.get_str(key) {
        Some(s) => s,
        None => default,
    }
}

/// The model of the outcome of reading a message.
pub open spec fn message_result_view(r: Result<Message, ClaudeSDKError>) -> Result<
    MessageView,
    ErrorValue,
> {
    match r {
        Ok(m) => Ok(m@),
        Err(e) => Err(e@),
    }
}

/// The content block that a document stands for. An object's `type` selects
/// the kind; a field that is absent or of another type takes its default.
pub open spec fn content_block_of(raw: JsonValue) -> Result<ContentBlockView, ErrorValue> {
    match raw.get_str("type"@) {
        None => Err(parse_error("Content block missing 'type' field"@, raw)),
        Some(kind) => if kind == "text"@ {
            Ok(ContentBlockView::Text { text: str_or(raw, "text"@, ""@) })
        } else if kind == "thinking"@ {
            Ok(
                ContentBlockView::Thinking {
                    thinking: str_or(raw, "thinking"@, ""@),
                    signature: str_or(raw, "signature"@, ""@),
                },
            )
        } else if kind == "tool_use"@ {
            Ok(
                ContentBlockView::ToolUse {
                    id: str_or(raw, "id"@, ""@),
                    name: str_or(raw, "name"@, ""@),
                    input: JsonValue::of_opt(raw.get("input"@)),
                },
            )
        } else if kind == "tool_result"@ {
            Ok(
                ContentBlockView::ToolResult {
                    tool_use_id: str_or(raw, "tool_use_id"@, ""@),
                    content: raw.get("content"@),
                    is_error: raw.get_bool("is_error"@),
                },
            )
        } else {
            Err(parse_error("Unknown content block type: "@ + kind, raw))
        },
    }
}

/// The content blocks that the documents stand for, in order; the error of
/// the first document that stands for none.
pub open spec fn content_blocks_of(items: Seq<JsonValue>) -> Result<
    Seq<ContentBlockView>,
    ErrorValue,
>
    decreases items.len(),
{
    if items.len() == 0 {
        Ok(Seq::empty())
    } else {
        match content_blocks_of(items.drop_last()) {
            Err(e) => Err(e),
            Ok(blocks) => match content_block_of(items.last()) {
                Ok(b) => Ok(blocks.push(b)),
                Err(e) => Err(e),
            },
        }
    }
}

/// The user message that a document stands for.
pub open spec fn user_message_of(raw: JsonValue) -> Result<MessageView, ErrorValue> {
    match raw.get("message"@) {
        None => Err(parse_error("User message missing 'message' field"@, raw)),
        Some(body) => match body.get("content"@) {
            None => Err(parse_error("User message missing 'message.content' field"@, raw)),
            Some(content) => {
                let rest = |content: UserMessageContentView|
                    MessageView::User {
                        content,
                        uuid: raw.get_str("uuid"@),
                        parent_tool_use_id: raw.get_str("parent_tool_use_id"@),
                    };
                match content {
                    JsonValue::String(text) => Ok(rest(UserMessageContentView::Text(text))),
                    JsonValue::Array(items) => match content_blocks_of(items) {
                        Ok(blocks) => Ok(rest(UserMessageContentView::Blocks(blocks))),
                        Err(e) => Err(e),
                    },
                    _ => Err(parse_error("User message content must be string or array"@, raw)),
                }
            },
        },
    }
}

/// The assistant message that a document stands for.
pub open spec fn assistant_message_of(raw: JsonValue) -> Result<MessageView, ErrorValue> {
    match raw.get("message"@) {
        None => Err(parse_error("Assistant message missing 'message' field"@, raw)),
        Some(body) => match body.get("content"@) {
            Some(JsonValue::Array(items)) => match content_blocks_of(items) {
                Err(e) => Err(e),
                Ok(content) => Ok(
                    MessageView::Assistant {
                        content,
                        model: str_or(body, "model"@, "unknown"@),
                        parent_tool_use_id: raw.get_str("parent_tool_use_id"@),
                        error: match body.get_str("error"@) {
                            Some(name) => Some(AssistantMessageError::from_wire(name)),
                            None => None,
                        },
                    },
                ),
            },
            _ => Err(
                parse_error("Assistant message missing or invalid 'message.content' array"@, raw),
            ),
        },
    }
}

/// The system message that a document stands for.
pub open spec fn system_message_of(raw: JsonValue) -> MessageView {
    MessageView::System {
        subtype: str_or(raw, "subtype"@, "unknown"@),
        data: JsonValue::of_opt(raw.get("data"@)),
    }
}

/// The unsigned number under `key` or, where no member has that name, under
/// `alt`; zero where there is none.
pub open spec fn u64_either(raw: JsonValue, key: Seq<char>, alt: Seq<char>) -> u64 {
    match raw.get_either(key, alt) {
        Some(v) => match v.as_u64() {
            Some(n) => n,
            None => 0,
        },
        None => 0,
    }
}

/// The string under `key` or, where no member has that name, under `alt`.
pub open spec fn str_either(raw: JsonValue, key: Seq<char>, alt: Seq<char>) -> Option<Seq<char>> {
    match raw.get_either(key, alt) {
        Some(v) => v.as_str(),
        None => None,
    }
}

/// The result message that a document stands for. Each field goes by its
/// name in snake case or, where no member has that name, in camel case; a
/// field that is absent or of another type takes its default. The number of
/// turns keeps its lower thirty-two bits.
pub open spec fn result_message_of(raw: JsonValue) -> MessageView {
    MessageView::Result(
        ResultMessageView {
            subtype: str_or(raw, "subtype"@, "success"@),
            duration_ms: u64_either(raw, "duration_ms"@, "durationMs"@),
            duration_api_ms: u64_either(raw, "duration_api_ms"@, "durationApiMs"@),
            is_error: match raw.get_either("is_error"@, "isError"@) {
                Some(JsonValue::Bool(b)) => b,
                _ => false,
            },
            num_turns: u64_either(raw, "num_turns"@, "numTurns"@) as u32,
            session_id: match str_either(raw, "session_id"@, "sessionId"@) {
                Some(s) => s,
                None => ""@,
            },
            total_cost_usd: match raw.get_either("total_cost_usd"@, "totalCostUsd"@) {
                Some(JsonValue::Number(text)) => Some(text),
                _ => None,
            },
            usage: raw.get("usage"@),
            result: raw.get_str("result"@),
            structured_output: raw.get_either("structured_output"@, "structuredOutput"@),
        },
    )
}

/// The stream event that a document stands for.
pub open spec fn stream_event_of(raw: JsonValue) -> MessageView {
    MessageView::StreamEvent {
        uuid: str_or(raw, "uuid"@, ""@),
        session_id: match str_either(raw, "session_id"@, "sessionId"@) {
            Some(s) => s,
            None => ""@,
        },
        event: JsonValue::of_opt(raw.get("event"@)),
        parent_tool_use_id: raw.get_str("parent_tool_use_id"@),
    }
}

/// The message that a document stands for: its `type` selects the kind.
pub open spec fn message_of(raw: JsonValue) -> Result<MessageView, ErrorValue> {
    match raw.get_str("type"@) {
        None => Err(parse_error("Message missing 'type' field"@, raw)),
        Some(kind) => if kind == "user"@ {
            user_message_of(raw)
        } else if kind == "assistant"@ {
            assistant_message_of(raw)
        } else if kind == "system"@ {
            Ok(system_message_of(raw))
        } else if kind == "result"@ {
            Ok(result_message_of(raw))
        } else if kind == "stream_event"@ {
            Ok(stream_event_of(raw))
        } else {
            Err(parse_error("Unknown message type: "@ + kind, raw))
        },
    }
}

/// Whether a document's `type` says that it is a control request.
pub open spec fn is_control_request_spec(raw: JsonValue) -> bool {
    raw.get_str("type"@) == Some("control_request"@)
}

/// Whether a document's `type` says that it is a control response.
pub open spec fn is_control_response_spec(raw: JsonValue) -> bool {
    raw.get_str("type"@) == Some("control_response"@)
}

/// The string under `key` as a string of its own, or `default`.
fn string_or(raw: &Json, key: &str, default: &str) -> (r: String)
    ensures
        r@ == str_or(raw@, key@, default@),
{
    match raw.get_str(key) {
        Some(s) => String::from_str(s),
        None => String::from_str(default),
    }
}

/// A copy of the member named `key`.
fn cloned_member(raw: &Json, key: &str) -> (r: Option<Json>)
    ensures
        opt_json_view(r) == raw@.get(key@),
{
    match raw.get(key) {
        Some(v) => Some(v.clone()),
        None => None,
    }
}

/// A copy of the member named `key`, or `null` where there is none.
fn member_or_null(raw: &Json, key: &str) -> (r: Json)
    ensures
        r@ == JsonValue::of_opt(raw@.get(key@)),
{
    match raw.get(key) {
        Some(v) => v.clone(),
        None => Json::Null,
    }
}

fn get_u64_either(raw: &Json, key: &str, alt: &str) -> (r: u64)
    ensures
        r == u64_either(raw@, key@, alt@),
{
    match raw.get_either(key, alt) {
        Some(v) => match v.as_u64() {
            Some(n) => n,
            None => 0,
        },
        None => 0,
    }
}

fn get_string_either(raw: &Json, key: &str, alt: &str) -> (r: Option<String>)
    ensures
        opt_view(r) == str_either(raw@, key@, alt@),
{
    match raw.get_either(key, alt) {
        Some(v) => match v.as_str() {
            Some(s) => Some(String::from_str(s)),
            None => None,
        },
        None => None,
    }
}

/// Reads one content block.
pub fn parse_content_block(raw: &Json) -> (r: Result<ContentBlock, ClaudeSDKError>)
    ensures
        match r {
            Ok(b) => content_block_of(raw@) == Ok::<ContentBlockView, ErrorValue>(b@),
            Err(e) => content_block_of(raw@) == Err::<ContentBlockView, ErrorValue>(e@),
        },
{
    let kind = match raw.get_str("type") {
        Some(k) => k,
        None => {
            return Err(
                ClaudeSDKError::message_parse_with_raw(
                    "Content block missing 'type' field",
                    raw.clone(),
                ),
            );
        },
    };
    if str_eq(kind, "text") {
        Ok(ContentBlock::Text(TextBlock { text: string_or(raw, "text", "") }))
    } else if str_eq(kind, "thinking") {
        Ok(
            ContentBlock::Thinking(
                ThinkingBlock {
                    thinking: string_or(raw, "thinking", ""),
                    signature: string_or(raw, "signature", ""),
                },
            ),
        )
    } else if str_eq(kind, "tool_use") {
        Ok(
            ContentBlock::ToolUse(
                ToolUseBlock {
                    id: string_or(raw, "id", ""),
                    name: string_or(raw, "name", ""),
                    input: member_or_null(raw, "input"),
                },
            ),
        )
    } else if str_eq(kind, "tool_result") {
        Ok(
            ContentBlock::ToolResult(
                ToolResultBlock {
                    tool_use_id: string_or(raw, "tool_use_id", ""),
                    content: cloned_member(raw, "content"),
                    is_error: raw.get_bool("is_error"),
                },
            ),
        )
    } else {
        let message = concat("Unknown content block type: ", kind);
        Err(ClaudeSDKError::message_parse_with_raw(message.as_str(), raw.clone()))
    }
}

/// Reads the content blocks of a message, in order, and stops at the first
/// that cannot be read.
pub fn parse_content_blocks(items: &Vec<Json>) -> (r: Result<Vec<ContentBlock>, ClaudeSDKError>)
    ensures
        match r {
            Ok(blocks) => content_blocks_of(items_view(items@)) == Ok::<
                Seq<ContentBlockView>,
                ErrorValue,
            >(views(blocks@)),
            Err(e) => content_blocks_of(items_view(items@)) == Err::<
                Seq<ContentBlockView>,
                ErrorValue,
            >(e@),
        },
{
    let ghost docs = items_view(items@);
    let mut out: Vec<ContentBlock> = Vec::new();
    let mut i: usize = 0;
    proof {
        assert(docs.subrange(0, 0) =~= Seq::empty());
        assert(views(out@) =~= Seq::empty());
    }
    while i < items.len()
        invariant
            0 <= i <= items.len(),
            docs == items_view(items@),
            content_blocks_of(docs.subrange(0, i as int)) == Ok::<
                Seq<ContentBlockView>,
                ErrorValue,
            >(views(out@)),
        decreases items.len() - i,
    {
        let ghost before = out@;
        proof {
            let t = docs.subrange(0, i as int + 1);
            assert(t.drop_last() =~= docs.subrange(0, i as int));
            assert(t.last() == items@[i as int]@);
        }
        match parse_content_block(&items[i]) {
            Ok(block) => {
                out.push(block);
                proof {
                    assert(views(out@) =~= views(before).push(block@));
                }
            },
            Err(e) => {
                proof {
                    lemma_blocks_error_stays(docs, i as int + 1);
                }
                return Err(e);
            },
        }
        i += 1;
    }
    proof {
        assert(docs.subrange(0, items.len() as int) =~= docs);
    }
    Ok(out)
}

/// Once the first documents give an error, all of them give that error.
proof fn lemma_blocks_error_stays(items: Seq<JsonValue>, n: int)
    requires
        0 <= n <= items.len(),
        content_blocks_of(items.subrange(0, n)) is Err,
    ensures
        content_blocks_of(items) == content_blocks_of(items.subrange(0, n)),
    decreases items.len() - n,
{
    if n == items.len() {
        assert(items.subrange(0, n) =~= items);
    } else {
        let t = items.subrange(0, n + 1);
        assert(t.drop_last() =~= items.subrange(0, n));
        lemma_blocks_error_stays(items, n + 1);
    }
}

fn parse_user_message(raw: &Json) -> (r: Result<Message, ClaudeSDKError>)
    ensures
        message_result_view(r) == user_message_of(raw@),
{
    let body = match raw.get("message") {
        Some(b) => b,
        None => {
            return Err(
                ClaudeSDKError::message_parse_with_raw(
                    "User message missing 'message' field",
                    raw.clone(),
                ),
            );
        },
    };
    let content = match body.get("content") {
        Some(c) => c,
        None => {
            return Err(
                ClaudeSDKError::message_parse_with_raw(
                    "User message missing 'message.content' field",
                    raw.clone(),
                ),
            );
        },
    };
    let content = match content {
        Json::String(text) => UserMessageContent::Text(text.clone()),
        Json::Array(items) => match parse_content_blocks(items) {
            Ok(blocks) => UserMessageContent::Blocks(blocks),
            Err(e) => { return Err(e); },
        },
        _ => {
            return Err(
                ClaudeSDKError::message_parse_with_raw(
                    "User message content must be string or array",
                    raw.clone(),
                ),
            );
        },
    };
    Ok(
        Message::User(
            UserMessage {
                content,
                uuid: raw.get_string("uuid"),
                parent_tool_use_id: raw.get_string("parent_tool_use_id"),
            },
        ),
    )
}

fn parse_assistant_message(raw: &Json) -> (r: Result<Message, ClaudeSDKError>)
    ensures
        message_result_view(r) == assistant_message_of(raw@),
{
    let body = match raw.get("message") {
        Some(b) => b,
        None => {
            return Err(
                ClaudeSDKError::message_parse_with_raw(
                    "Assistant message missing 'message' field",
                    raw.clone(),
                ),
            );
        },
    };
    let items = match body.get("content") {
        Some(Json::Array(items)) => items,
        _ => {
            return Err(
                ClaudeSDKError::message_parse_with_raw(
                    "Assistant message missing or invalid 'message.content' array",
                    raw.clone(),
                ),
            );
        },
    };
    let content = match parse_content_blocks(items) {
        Ok(blocks) => blocks,
        Err(e) => { return Err(e); },
    };
    let error = match body.get_str("error") {
        Some(name) => Some(AssistantMessageError::parse(name)),
        None => None,
    };
    Ok(
        Message::Assistant(
            AssistantMessage {
                content,
                model: string_or(body, "model", "unknown"),
                parent_tool_use_id: raw.get_string("parent_tool_use_id"),
                error,
            },
        ),
    )
}

fn parse_system_message(raw: &Json) -> (r: Message)
    ensures
        r@ == system_message_of(raw@),
{
    Message::System(
        SystemMessage {
            subtype: string_or(raw, "subtype", "unknown"),
            data: member_or_null(raw, "data"),
        },
    )
}

fn parse_result_message(raw: &Json) -> (r: Message)
    ensures
        r@ == result_message_of(raw@),
{
    let is_error = match raw.get_either("is_error", "isError") {
        Some(Json::Bool(b)) => *b,
        _ => false,
    };
    let turns = get_u64_either(raw, "num_turns", "numTurns");
    let session_id = match get_string_either(raw, "session_id", "sessionId") {
        Some(s) => s,
        None => String::from_str(""),
    };
    let total_cost_usd = match raw.get_either("total_cost_usd", "totalCostUsd") {
        Some(Json::Number(text)) => Some(text.clone()),
        _ => None,
    };
    let structured_output = match raw.get_either("structured_output", "structuredOutput") {
        Some(v) => Some(v.clone()),
        None => None,
    };
    Message::Result(
        ResultMessage {
            subtype: string_or(raw, "subtype", "success"),
            duration_ms: get_u64_either(raw, "duration_ms", "durationMs"),
            duration_api_ms: get_u64_either(raw, "duration_api_ms", "durationApiMs"),
            is_error,
            num_turns: #[verifier::truncate]
            (turns as u32),
            session_id,
            total_cost_usd,
            usage: cloned_member(raw, "usage"),
            result: raw.get_string("result"),
            structured_output,
        },
    )
}

fn parse_stream_event(raw: &Json) -> (r: Message)
    ensures
        r@ == stream_event_of(raw@),
{
    let session_id = match get_string_either(raw, "session_id", "sessionId") {
        Some(s) => s,
        None => String::from_str(""),
    };
    Message::StreamEvent(
        StreamEvent {
            uuid: string_or(raw, "uuid", ""),
            session_id,
            event: member_or_null(raw, "event"),
            parent_tool_use_id: raw.get_string("parent_tool_use_id"),
        },
    )
}

/// Reads the event message that a document stands for. The document's `type`
/// selects the kind; a document without one, or of an unknown kind, or
/// without what its kind requires, gives a parse error that carries the
/// document at fault.
pub fn parse_message(raw: &Json) -> (r: Result<Message, ClaudeSDKError>)
    ensures
        message_result_view(r) == message_of(raw@),
{
    let kind = match raw.get_str("type") {
        Some(k) => k,
        None => {
            return Err(
                ClaudeSDKError::message_parse_with_raw("Message missing 'type' field", raw.clone()),
            );
        },
    };
    if str_eq(kind, "user") {
        parse_user_message(raw)
    } else if str_eq(kind, "assistant") {
        parse_assistant_message(raw)
    } else if str_eq(kind, "system") {
        Ok(parse_system_message(raw))
    } else if str_eq(kind, "result") {
        Ok(parse_result_message(raw))
    } else if str_eq(kind, "stream_event") {
        Ok(parse_stream_event(raw))
    } else {
        let message = concat("Unknown message type: ", kind);
        Err(ClaudeSDKError::message_parse_with_raw(message.as_str(), raw.clone()))
    }
}

/// Whether a document is a control request, by its `type`.
pub fn is_control_request(raw: &Json) -> (r: bool)
    ensures
        r == is_control_request_spec(raw@),
{
    match raw.get_str("type") {
        Some(t) => str_eq(t, "control_request"),
        None => false,
    }
}

/// Whether a document is a control response, by its `type`.
pub fn is_control_response(raw: &Json) -> (r: bool)
    ensures
        r == is_control_response_spec(raw@),
{
    match raw.get_str("type") {
        Some(t) => str_eq(t, "control_response"),
        None => false,
    }
}

/// Reads a control request; a document that is none gives a parse error that
/// says what is wrong with it and carries the document.
pub fn parse_control_request(raw: &Json) -> (r: Result<ControlRequest, ClaudeSDKError>)
    ensures
        match r {
            Ok(request) => ControlRequestView::from_json(raw@) == Some(request@),
            Err(e) => ControlRequestView::from_json(raw@) is None && e@ == parse_error(
                "Failed to parse control request: "@ + fault_text(ControlRequestView::fault(raw@)),
                raw@,
            ),
        },
{
    match ControlRequest::from_json(raw) {
        Some(request) => Ok(request),
        None => {
            let fault = ControlRequest::fault(raw);
            let text = failure_text("Failed to parse control request: ", &fault);
            Err(ClaudeSDKError::message_parse_with_raw(text.as_str(), raw.clone()))
        },
    }
}

/// Reads a control response; a document that is none gives a parse error
/// that says what is wrong with it and carries the document.
pub fn parse_control_response(raw: &Json) -> (r: Result<ControlResponse, ClaudeSDKError>)
    ensures
        match r {
            Ok(response) => ControlResponseView::from_json(raw@) == Some(response@),
            Err(e) => ControlResponseView::from_json(raw@) is None && e@ == parse_error(
                "Failed to parse control response: "@ + fault_text(
                    ControlResponseView::fault(raw@),
                ),
                raw@,
            ),
        },
{
    match ControlResponse::from_json(raw) {
        Some(response) => Ok(response),
        None => {
            let fault = ControlResponse::fault(raw);
            let text = failure_text("Failed to parse control response: ", &fault);
            Err(ClaudeSDKError::message_parse_with_raw(text.as_str(), raw.clone()))
        },
    }
}

} // verus!
