//! The wire form of messages and content blocks as records: an object whose
//! `type` names the kind and whose other members are the fields of the kind.
//! Every required field must be there with its type; an optional field is
//! left out when it is absent, and may be `null` when read.

use crate::json::{items_view, opt_json_view, Json, JsonValue};
use crate::messages::{
    AssistantMessage, AssistantMessageError, ContentBlock, ContentBlockView, Message, MessageView,
    ResultMessage, ResultMessageView, StreamEvent, SystemMessage, TextBlock, ThinkingBlock,
    ToolResultBlock, ToolUseBlock, UserMessage, UserMessageContent, UserMessageContentView,
};
use crate::text::{opt_model, opt_view, str_eq, views};
use vstd::prelude::*;

verus! {

impl AssistantMessageError {
    /// The name of the error on the wire.
    pub open spec fn wire_name(self) -> Seq<char> {
        match self {
            AssistantMessageError::AuthenticationFailed => "authentication_failed"@,
            AssistantMessageError::BillingError => "billing_error"@,
            AssistantMessageError::RateLimit => "rate_limit"@,
            AssistantMessageError::InvalidRequest => "invalid_request"@,
            AssistantMessageError::ServerError => "server_error"@,
            AssistantMessageError::Unknown => "unknown"@,
        }
    }

    /// The error that a name stands for exactly; no error for any other name.
    pub open spec fn from_name(name: Seq<char>) -> Option<AssistantMessageError> {
        if name == "authentication_failed"@ {
            Some(AssistantMessageError::AuthenticationFailed)
        } else if name == "billing_error"@ {
            Some(AssistantMessageError::BillingError)
        } else if name == "rate_limit"@ {
            Some(AssistantMessageError::RateLimit)
        } else if name == "invalid_request"@ {
            Some(AssistantMessageError::InvalidRequest)
        } else if name == "server_error"@ {
            Some(AssistantMessageError::ServerError)
        } else if name == "unknown"@ {
            Some(AssistantMessageError::Unknown)
        } else {
            None
        }
    }

    /// The name of the error on the wire.
    pub fn as_str(&self) -> (r: &'static str)
        ensures
            r@ == self.wire_name(),
    {
        match self {
            AssistantMessageError::AuthenticationFailed => "authentication_failed",
            AssistantMessageError::BillingError => "billing_error",
            AssistantMessageError::RateLimit => "rate_limit",
            AssistantMessageError::InvalidRequest => "invalid_request",
            AssistantMessageError::ServerError => "server_error",
            AssistantMessageError::Unknown => "unknown",
        }
    }

    /// The error that a name stands for exactly.
    pub fn from_str(name: &str) -> (r: Option<AssistantMessageError>)
        ensures
            r == Self::from_name(name@),
    {
        if str_eq(name, "authentication_failed") {
            Some(AssistantMessageError::AuthenticationFailed)
        } else if str_eq(name, "billing_error") {
            Some(AssistantMessageError::BillingError)
        } else if str_eq(name, "rate_limit") {
            Some(AssistantMessageError::RateLimit)
        } else if str_eq(name, "invalid_request") {
            Some(AssistantMessageError::InvalidRequest)
        } else if str_eq(name, "server_error") {
            Some(AssistantMessageError::ServerError)
        } else if str_eq(name, "unknown") {
            Some(AssistantMessageError::Unknown)
        } else {
            None
        }
    }
}

/// A string member when there is a string.
pub open spec fn opt_str_member(o: Option<Seq<char>>) -> Option<JsonValue> {
    match o {
        Some(s) => Some(JsonValue::String(s)),
        None => None,
    }
}

fn opt_str_json(o: &Option<String>) -> (r: Option<Json>)
    ensures
        opt_json_view(r) == opt_str_member(opt_view(*o)),
{
    match o {
        Some(s) => Some(Json::String(s.clone())),
        None => None,
    }
}

fn opt_json_copy(o: &Option<Json>) -> (r: Option<Json>)
    ensures
        opt_json_view(r) == opt_json_view(*o),
{
    match o {
        Some(j) => Some(j.clone()),
        None => None,
    }
}

impl ContentBlockView {
    /// The fields of the block as an object, without the `type`.
    pub open spec fn fields(self, head: JsonValue) -> JsonValue {
        match self {
            ContentBlockView::Text { text } => head.with("text"@, JsonValue::String(text)),
            ContentBlockView::Thinking { thinking, signature } => head.with(
                "thinking"@,
                JsonValue::String(thinking),
            ).with("signature"@, JsonValue::String(signature)),
            ContentBlockView::ToolUse { id, name, input } => head.with(
                "id"@,
                JsonValue::String(id),
            ).with("name"@, JsonValue::String(name)).with("input"@, input),
            ContentBlockView::ToolResult { tool_use_id, content, is_error } => head.with(
                "tool_use_id"@,
                JsonValue::String(tool_use_id),
            ).with_opt("content"@, content).with_opt(
                "is_error"@,
                match is_error {
                    Some(b) => Some(JsonValue::Bool(b)),
                    None => None,
                },
            ),
        }
    }

    /// The name of the kind of block.
    pub open spec fn kind(self) -> Seq<char> {
        match self {
            ContentBlockView::Text { .. } => "text"@,
            ContentBlockView::Thinking { .. } => "thinking"@,
            ContentBlockView::ToolUse { .. } => "tool_use"@,
            ContentBlockView::ToolResult { .. } => "tool_result"@,
        }
    }

    /// The wire form: `type`, then the fields.
    pub open spec fn to_json(self) -> JsonValue {
        self.fields(JsonValue::empty_object().with("type"@, JsonValue::String(self.kind())))
    }

    /// Reads the wire form.
    pub open spec fn from_json(v: JsonValue) -> Option<ContentBlockView> {
        match v.get_str("type"@) {
            None => None,
            Some(kind) => if kind == "text"@ {
                match v.get_str("text"@) {
                    Some(text) => Some(ContentBlockView::Text { text }),
                    None => None,
                }
            } else if kind == "thinking"@ {
                match (v.get_str("thinking"@), v.get_str("signature"@)) {
                    (Some(thinking), Some(signature)) => Some(
                        ContentBlockView::Thinking { thinking, signature },
                    ),
                    _ => None,
                }
            } else if kind == "tool_use"@ {
                match (v.get_str("id"@), v.get_str("name"@), v.get("input"@)) {
                    (Some(id), Some(name), Some(input)) => Some(
                        ContentBlockView::ToolUse { id, name, input },
                    ),
                    _ => None,
                }
            } else if kind == "tool_result"@ {
                match (v.get_str("tool_use_id"@), v.opt_bool_field("is_error"@)) {
                    (Some(tool_use_id), Some(is_error)) => Some(
                        ContentBlockView::ToolResult {
                            tool_use_id,
                            content: v.opt_field("content"@),
                            is_error,
                        },
                    ),
                    _ => None,
                }
            } else {
                None
            },
        }
    }
}

/// The wire form of a list of blocks.
pub open spec fn blocks_wire(blocks: Seq<ContentBlockView>) -> JsonValue {
    JsonValue::Array(Seq::new(blocks.len(), |i: int| blocks[i].to_json()))
}

/// All the items as content blocks; nothing where one of them is none.
pub open spec fn all_blocks(items: Seq<JsonValue>) -> Option<Seq<ContentBlockView>> {
    if forall|i: int|
        0 <= i < items.len() ==> ContentBlockView::from_json(#[trigger] items[i]) is Some {
        Some(Seq::new(items.len(), |i: int| ContentBlockView::from_json(items[i])->0))
    } else {
        None
    }
}

impl ToolUseBlock {
    /// The wire form of the block on its own: its fields, without a `type`.
    pub fn to_json(&self) -> (r: Json)
        ensures
            r@ == (ContentBlockView::ToolUse {
                id: self.id@,
                name: self.name@,
                input: self.input@,
            }).fields(JsonValue::empty_object()),
    {
        let mut o = Json::object();
        o.insert("id", Json::String(self.id.clone()));
        o.insert("name", Json::String(self.name.clone()));
        o.insert("input", self.input.clone());
        o
    }
}

impl ContentBlock {
    /// The wire form of the block.
    pub fn to_json(&self) -> (r: Json)
        ensures
            r@ == self@.to_json(),
    {
        let mut o = Json::object();
        match self {
            ContentBlock::Text(b) => {
                o.insert("type", Json::string("text"));
                o.insert("text", Json::String(b.text.clone()));
            },
            ContentBlock::Thinking(b) => {
                o.insert("type", Json::string("thinking"));
                o.insert("thinking", Json::String(b.thinking.clone()));
                o.insert("signature", Json::String(b.signature.clone()));
            },
            ContentBlock::ToolUse(b) => {
                o.insert("type", Json::string("tool_use"));
                o.insert("id", Json::String(b.id.clone()));
                o.insert("name", Json::String(b.name.clone()));
                o.insert("input", b.input.clone());
            },
            ContentBlock::ToolResult(b) => {
                o.insert("type", Json::string("tool_result"));
                o.insert("tool_use_id", Json::String(b.tool_use_id.clone()));
                o.insert_opt("content", opt_json_copy(&b.content));
                match b.is_error {
                    Some(e) => o.insert("is_error", Json::Bool(e)),
                    None => {},
                }
            },
        }
        o
    }

    /// Reads the wire form of a block.
    pub fn from_json(v: &Json) -> (r: Option<ContentBlock>)
        ensures
            opt_model(r) == ContentBlockView::from_json(v@),
    {
        let kind = match v.get_str("type") {
            Some(k) => k,
            None => { return None; },
        };
        if str_eq(kind, "text") {
            match v.get_string("text") {
                Some(text) => Some(ContentBlock::Text(TextBlock { text })),
                None => None,
            }
        } else if str_eq(kind, "thinking") {
            match (v.get_string("thinking"), v.get_string("signature")) {
                (Some(thinking), Some(signature)) => Some(
                    ContentBlock::Thinking(ThinkingBlock { thinking, signature }),
                ),
                _ => None,
            }
        } else if str_eq(kind, "tool_use") {
            match (v.get_string("id"), v.get_string("name"), v.get("input")) {
                (Some(id), Some(name), Some(input)) => Some(
                    ContentBlock::ToolUse(ToolUseBlock { id, name, input: input.clone() }),
                ),
                _ => None,
            }
        } else if str_eq(kind, "tool_result") {
            match (v.get_string("tool_use_id"), v.opt_bool_field("is_error")) {
                (Some(tool_use_id), Some(is_error)) => Some(
                    ContentBlock::ToolResult(
                        ToolResultBlock { tool_use_id, content: v.opt_field("content"), is_error },
                    ),
                ),
                _ => None,
            }
        } else {
            None
        }
    }
}

/// The wire form of a list of blocks.
pub fn blocks_to_json(blocks: &Vec<ContentBlock>) -> (r: Json)
    ensures
        r@ == blocks_wire(views(blocks@)),
{
    let mut out: Vec<Json> = Vec::new();
    let mut i: usize = 0;
    while i < blocks.len()
        invariant
            0 <= i <= blocks.len(),
            out@.len() == i,
            forall|k: int| 0 <= k < i ==> (#[trigger] out@[k])@ == blocks@[k]@.to_json(),
        decreases blocks.len() - i,
    {
        out.push(blocks[i].to_json());
        i += 1;
    }
    proof {
        assert(items_view(out@) =~= Seq::new(
            views(blocks@).len(),
            |i: int| views(blocks@)[i].to_json(),
        ));
    }
    Json::Array(out)
}

/// All the items as content blocks.
pub fn blocks_from_json(items: &Vec<Json>) -> (r: Option<Vec<ContentBlock>>)
    ensures
        crate::text::opt_views(r) == all_blocks(items_view(items@)),
{
    let mut out: Vec<ContentBlock> = Vec::new();
    let mut i: usize = 0;
    while i < items.len()
        invariant
            0 <= i <= items.len(),
            out@.len() == i,
            forall|k: int|
                0 <= k < i ==> ContentBlockView::from_json(#[trigger] items_view(items@)[k])
                    is Some,
            forall|k: int|
                0 <= k < i ==> (#[trigger] out@[k])@ == ContentBlockView::from_json(
                    items_view(items@)[k],
                )->0,
        decreases items.len() - i,
    {
        match ContentBlock::from_json(&items[i]) {
            Some(block) => {
                out.push(block);
            },
            None => {
                assert(ContentBlockView::from_json(items_view(items@)[i as int]) is None);
                return None;
            },
        }
        i += 1;
    }
    proof {
        assert(views(out@) =~= all_blocks(items_view(items@))->0);
    }
    Some(out)
}

impl ResultMessageView {
    /// The fields of the message after its `type`.
    pub open spec fn fields(self, head: JsonValue) -> JsonValue {
        head.with("subtype"@, JsonValue::String(self.subtype)).with(
            "duration_ms"@,
            JsonValue::of_u64(self.duration_ms),
        ).with("duration_api_ms"@, JsonValue::of_u64(self.duration_api_ms)).with(
            "is_error"@,
            JsonValue::Bool(self.is_error),
        ).with("num_turns"@, JsonValue::of_u64(self.num_turns as u64)).with(
            "session_id"@,
            JsonValue::String(self.session_id),
        ).with_opt(
            "total_cost_usd"@,
            match self.total_cost_usd {
                Some(text) => Some(JsonValue::Number(text)),
                None => None,
            },
        ).with_opt("usage"@, self.usage).with_opt("result"@, opt_str_member(self.result)).with_opt(
            "structured_output"@,
            self.structured_output,
        )
    }

    /// Reads the fields of the message. The numbers must be canonical
    /// unsigned decimals; the number of turns must fit thirty-two bits.
    pub open spec fn from_json(v: JsonValue) -> Option<ResultMessageView> {
        let cost = match v.get("total_cost_usd"@) {
            None => Some(None),
            Some(JsonValue::Null) => Some(None),
            Some(JsonValue::Number(text)) => Some(Some(text)),
            Some(_) => None,
        };
        match (
            v.get_str("subtype"@),
            v.get_u64("duration_ms"@),
            v.get_u64("duration_api_ms"@),
            v.get_bool("is_error"@),
            v.get_u64("num_turns"@),
            v.get_str("session_id"@),
            cost,
            v.opt_str_field("result"@),
        ) {
            (
                Some(subtype),
                Some(duration_ms),
                Some(duration_api_ms),
                Some(is_error),
                Some(turns),
                Some(session_id),
                Some(total_cost_usd),
                Some(result),
            ) => if turns <= u32::MAX {
                Some(
                    ResultMessageView {
                        subtype,
                        duration_ms,
                        duration_api_ms,
                        is_error,
                        num_turns: turns as u32,
                        session_id,
                        total_cost_usd,
                        usage: v.opt_field("usage"@),
                        result,
                        structured_output: v.opt_field("structured_output"@),
                    },
                )
            } else {
                None
            },
            _ => None,
        }
    }
}

impl MessageView {
    /// The name of the kind of message.
    pub open spec fn kind(self) -> Seq<char> {
        match self {
            MessageView::User { .. } => "user"@,
            MessageView::Assistant { .. } => "assistant"@,
            MessageView::System { .. } => "system"@,
            MessageView::Result(_) => "result"@,
            MessageView::StreamEvent { .. } => "stream_event"@,
        }
    }

    /// The wire form: `type`, then the fields of the kind.
    pub open spec fn to_json(self) -> JsonValue {
        let head = JsonValue::empty_object().with("type"@, JsonValue::String(self.kind()));
        match self {
            MessageView::User { content, uuid, parent_tool_use_id } => head.with(
                "content"@,
                match content {
                    UserMessageContentView::Text(text) => JsonValue::String(text),
                    UserMessageContentView::Blocks(blocks) => blocks_wire(blocks),
                },
            ).with_opt("uuid"@, opt_str_member(uuid)).with_opt(
                "parent_tool_use_id"@,
                opt_str_member(parent_tool_use_id),
            ),
            MessageView::Assistant { content, model, parent_tool_use_id, error } => head.with(
                "content"@,
                blocks_wire(content),
            ).with("model"@, JsonValue::String(model)).with_opt(
                "parent_tool_use_id"@,
                opt_str_member(parent_tool_use_id),
            ).with_opt(
                "error"@,
                match error {
                    Some(e) => Some(JsonValue::String(e.wire_name())),
                    None => None,
                },
            ),
            MessageView::System { subtype, data } => head.with(
                "subtype"@,
                JsonValue::String(subtype),
            ).with("data"@, data),
            MessageView::Result(m) => m.fields(head),
            MessageView::StreamEvent { uuid, session_id, event, parent_tool_use_id } => head.with(
                "uuid"@,
                JsonValue::String(uuid),
            ).with("session_id"@, JsonValue::String(session_id)).with("event"@, event).with_opt(
                "parent_tool_use_id"@,
                opt_str_member(parent_tool_use_id),
            ),
        }
    }

    /// Reads the wire form.
    pub open spec fn from_json(v: JsonValue) -> Option<MessageView> {
        match v.get_str("type"@) {
            None => None,
            Some(kind) => if kind == "user"@ {
                let content = match v.get("content"@) {
                    Some(JsonValue::String(text)) => Some(UserMessageContentView::Text(text)),
                    Some(JsonValue::Array(items)) => match all_blocks(items) {
                        Some(blocks) => Some(UserMessageContentView::Blocks(blocks)),
                        None => None,
                    },
                    _ => None,
                };
                match (
                    content,
                    v.opt_str_field("uuid"@),
                    v.opt_str_field("parent_tool_use_id"@),
                ) {
                    (Some(content), Some(uuid), Some(parent_tool_use_id)) => Some(
                        MessageView::User { content, uuid, parent_tool_use_id },
                    ),
                    _ => None,
                }
            } else if kind == "assistant"@ {
                let content = match v.get("content"@) {
                    Some(JsonValue::Array(items)) => all_blocks(items),
                    _ => None,
                };
                let error = match v.opt_str_field("error"@) {
                    Some(Some(name)) => match AssistantMessageError::from_name(name) {
                        Some(e) => Some(Some(e)),
                        None => None,
                    },
                    Some(None) => Some(None),
                    None => None,
                };
                match (
                    content,
                    v.get_str("model"@),
                    v.opt_str_field("parent_tool_use_id"@),
                    error,
                ) {
                    (Some(content), Some(model), Some(parent_tool_use_id), Some(error)) => Some(
                        MessageView::Assistant { content, model, parent_tool_use_id, error },
                    ),
                    _ => None,
                }
            } else if kind == "system"@ {
                match (v.get_str("subtype"@), v.get("data"@)) {
                    (Some(subtype), Some(data)) => Some(MessageView::System { subtype, data }),
                    _ => None,
                }
            } else if kind == "result"@ {
                match ResultMessageView::from_json(v) {
                    Some(m) => Some(MessageView::Result(m)),
                    None => None,
                }
            } else if kind == "stream_event"@ {
                match (
                    v.get_str("uuid"@),
                    v.get_str("session_id"@),
                    v.get("event"@),
                    v.opt_str_field("parent_tool_use_id"@),
                ) {
                    (Some(uuid), Some(session_id), Some(event), Some(parent_tool_use_id)) => Some(
                        MessageView::StreamEvent { uuid, session_id, event, parent_tool_use_id },
                    ),
                    _ => None,
                }
            } else {
                None
            },
        }
    }
}

impl ResultMessage {
    fn insert_fields(&self, o: &mut Json)
        ensures
            final(o)@ == self@.fields(old(o)@),
    {
        o.insert("subtype", Json::String(self.subtype.clone()));
        o.insert("duration_ms", Json::from_u64(self.duration_ms));
        o.insert("duration_api_ms", Json::from_u64(self.duration_api_ms));
        o.insert("is_error", Json::Bool(self.is_error));
        o.insert("num_turns", Json::from_u64(self.num_turns as u64));
        o.insert("session_id", Json::String(self.session_id.clone()));
        match &self.total_cost_usd {
            Some(text) => o.insert("total_cost_usd", Json::Number(text.clone())),
            None => {},
        }
        o.insert_opt("usage", opt_json_copy(&self.usage));
        o.insert_opt("result", opt_str_json(&self.result));
        o.insert_opt("structured_output", opt_json_copy(&self.structured_output));
    }

    /// Reads the fields of a result message.
    pub fn from_json(v: &Json) -> (r: Option<ResultMessage>)
        ensures
            opt_model(r) == ResultMessageView::from_json(v@),
    {
        let cost = match v.get("total_cost_usd") {
            None => Some(None),
            Some(Json::Null) => Some(None),
            Some(Json::Number(text)) => Some(Some(text.clone())),
            Some(_) => None,
        };
        match (
            v.get_string("subtype"),
            v.get_u64("duration_ms"),
            v.get_u64("duration_api_ms"),
            v.get_bool("is_error"),
            v.get_u64("num_turns"),
            v.get_string("session_id"),
            cost,
            v.opt_str_field("result"),
        ) {
            (
                Some(subtype),
                Some(duration_ms),
                Some(duration_api_ms),
                Some(is_error),
                Some(turns),
                Some(session_id),
                Some(total_cost_usd),
                Some(result),
            ) => {
                if turns <= 0xffff_ffff {
                    Some(
                        ResultMessage {
                            subtype,
                            duration_ms,
                            duration_api_ms,
                            is_error,
                            num_turns: turns as u32,
                            session_id,
                            total_cost_usd,
                            usage: v.opt_field("usage"),
                            result,
                            structured_output: v.opt_field("structured_output"),
                        },
                    )
                } else {
                    None
                }
            },
            _ => None,
        }
    }
}

impl Message {
    /// The wire form of the message.
    pub fn to_json(&self) -> (r: Json)
        ensures
            r@ == self@.to_json(),
    {
        let mut o = Json::object();
        match self {
            Message::User(m) => {
                o.insert("type", Json::string("user"));
                match &m.content {
                    UserMessageContent::Text(text) => o.insert(
                        "content",
                        Json::String(text.clone()),
                    ),
                    UserMessageContent::Blocks(blocks) => o.insert(
                        "content",
                        blocks_to_json(blocks),
                    ),
                }
                o.insert_opt("uuid", opt_str_json(&m.uuid));
                o.insert_opt("parent_tool_use_id", opt_str_json(&m.parent_tool_use_id));
            },
            Message::Assistant(m) => {
                o.insert("type", Json::string("assistant"));
                o.insert("content", blocks_to_json(&m.content));
                o.insert("model", Json::String(m.model.clone()));
                o.insert_opt("parent_tool_use_id", opt_str_json(&m.parent_tool_use_id));
                match &m.error {
                    Some(e) => o.insert("error", Json::string(e.as_str())),
                    None => {},
                }
            },
            Message::System(m) => {
                o.insert("type", Json::string("system"));
                o.insert("subtype", Json::String(m.subtype.clone()));
                o.insert("data", m.data.clone());
            },
            Message::Result(m) => {
                o.insert("type", Json::string("result"));
                m.insert_fields(&mut o);
            },
            Message::StreamEvent(m) => {
                o.insert("type", Json::string("stream_event"));
                o.insert("uuid", Json::String(m.uuid.clone()));
                o.insert("session_id", Json::String(m.session_id.clone()));
                o.insert("event", m.event.clone());
                o.insert_opt("parent_tool_use_id", opt_str_json(&m.parent_tool_use_id));
            },
        }
        o
    }

    /// Reads the wire form of a message.
    pub fn from_json(v: &Json) -> (r: Option<Message>)
        ensures
            opt_model(r) == MessageView::from_json(v@),
    {
        let kind = match v.get_str("type") {
            Some(k) => k,
            None => { return None; },
        };
        if str_eq(kind, "user") {
            let content = match v.get("content") {
                Some(Json::String(text)) => Some(UserMessageContent::Text(text.clone())),
                Some(Json::Array(items)) => match blocks_from_json(items) {
                    Some(blocks) => Some(UserMessageContent::Blocks(blocks)),
                    None => None,
                },
                _ => None,
            };
            match (content, v.opt_str_field("uuid"), v.opt_str_field("parent_tool_use_id")) {
                (Some(content), Some(uuid), Some(parent_tool_use_id)) => Some(
                    Message::User(UserMessage { content, uuid, parent_tool_use_id }),
                ),
                _ => None,
            }
        } else if str_eq(kind, "assistant") {
            let content = match v.get("content") {
                Some(Json::Array(items)) => blocks_from_json(items),
                _ => None,
            };
            let error = match v.opt_str_field("error") {
                Some(Some(name)) => match AssistantMessageError::from_str(name.as_str()) {
                    Some(e) => Some(Some(e)),
                    None => None,
                },
                Some(None) => Some(None),
                None => None,
            };
            match (content, v.get_string("model"), v.opt_str_field("parent_tool_use_id"), error) {
                (Some(content), Some(model), Some(parent_tool_use_id), Some(error)) => Some(
                    Message::Assistant(
                        AssistantMessage { content, model, parent_tool_use_id, error },
                    ),
                ),
                _ => None,
            }
        } else if str_eq(kind, "system") {
            match (v.get_string("subtype"), v.get("data")) {
                (Some(subtype), Some(data)) => Some(
                    Message::System(SystemMessage { subtype, data: data.clone() }),
                ),
                _ => None,
            }
        } else if str_eq(kind, "result") {
            match ResultMessage::from_json(v) {
                Some(m) => Some(Message::Result(m)),
                None => None,
            }
        } else if str_eq(kind, "stream_event") {
            match (
                v.get_string("uuid"),
                v.get_string("session_id"),
                v.get("event"),
                v.opt_str_field("parent_tool_use_id"),
            ) {
                (Some(uuid), Some(session_id), Some(event), Some(parent_tool_use_id)) => Some(
                    Message::StreamEvent(
                        StreamEvent { uuid, session_id, event: event.clone(), parent_tool_use_id },
                    ),
                ),
                _ => None,
            }
        } else {
            None
        }
    }
}

} // verus!
