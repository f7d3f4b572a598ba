//! The event messages that the peer sends, and the content blocks they hold.

use crate::json::{opt_json_view, Json, JsonValue};
use crate::text::{opt_view, views};
use vstd::prelude::*;
use vstd::string::StringExecFns;

verus! {

/// A block of text.
#[derive(Debug, Clone)]
pub struct TextBlock {
    pub text: String,
}

/// A block of the model's thinking, with its signature.
#[derive(Debug, Clone)]
pub struct ThinkingBlock {
    pub thinking: String,
    pub signature: String,
}

/// A request to use a tool.
#[derive(Debug, Clone)]
pub struct ToolUseBlock {
    pub id: String,
    pub name: String,
    pub input: Json,
}

/// The result of a tool use.
#[derive(Debug, Clone)]
pub struct ToolResultBlock {
    pub tool_use_id: String,
    pub content: Option<Json>,
    pub is_error: Option<bool>,
}

/// A content block of a message.
#[derive(Debug, Clone)]
pub enum ContentBlock {
    Text(TextBlock),
    Thinking(ThinkingBlock),
    ToolUse(ToolUseBlock),
    ToolResult(ToolResultBlock),
}

/// Mathematical model of [`ContentBlock`].
pub enum ContentBlockView {
    Text { text: Seq<char> },
    Thinking { thinking: Seq<char>, signature: Seq<char> },
    ToolUse { id: Seq<char>, name: Seq<char>, input: JsonValue },
    ToolResult { tool_use_id: Seq<char>, content: Option<JsonValue>, is_error: Option<bool> },
}

impl View for ContentBlock {
    type V = ContentBlockView;

    open spec fn view(&self) -> ContentBlockView {
        match self {
            ContentBlock::Text(b) => ContentBlockView::Text { text: b.text@ },
            ContentBlock::Thinking(b) => ContentBlockView::Thinking {
                thinking: b.thinking@,
                signature: b.signature@,
            },
            ContentBlock::ToolUse(b) => ContentBlockView::ToolUse {
                id: b.id@,
                name: b.name@,
                input: b.input@,
            },
            ContentBlock::ToolResult(b) => ContentBlockView::ToolResult {
                tool_use_id: b.tool_use_id@,
                content: opt_json_view(b.content),
                is_error: b.is_error,
            },
        }
    }
}

impl ContentBlockView {
    /// The text of a text block.
    pub open spec fn as_text(self) -> Option<Seq<char>> {
        match self {
            ContentBlockView::Text { text } => Some(text),
            _ => None,
        }
    }
}

impl ContentBlock {
    /// The text of a text block.
    pub fn as_text(&self) -> (r: Option<&str>)
        ensures
            match r {
                Some(s) => self@.as_text() == Some(s@),
                None => self@.as_text() is None,
            },
    {
        match self {
            ContentBlock::Text(block) => Some(block.text.as_str()),
            _ => None,
        }
    }

    /// Whether the block asks for a tool.
    pub fn is_tool_use(&self) -> (r: bool)
        ensures
            r == (self@ is ToolUse),
    {
        match self {
            ContentBlock::ToolUse(_) => true,
            _ => false,
        }
    }
}

/// Why an assistant message failed.
#[derive(Debug, Clone, Copy, PartialEq, Eq, Structural)]
pub enum AssistantMessageError {
    AuthenticationFailed,
    BillingError,
    RateLimit,
    InvalidRequest,
    ServerError,
    Unknown,
}

impl AssistantMessageError {
    /// The error of that wire name; any other name stands for an unknown error.
    pub open spec fn from_wire(name: Seq<char>) -> AssistantMessageError {
        if name == "authentication_failed"@ {
            AssistantMessageError::AuthenticationFailed
        } else if name == "billing_error"@ {
            AssistantMessageError::BillingError
        } else if name == "rate_limit"@ {
            AssistantMessageError::RateLimit
        } else if name == "invalid_request"@ {
            AssistantMessageError::InvalidRequest
        } else if name == "server_error"@ {
            AssistantMessageError::ServerError
        } else {
            AssistantMessageError::Unknown
        }
    }

    /// The error of that wire name.
    pub fn parse(name: &str) -> (r: AssistantMessageError)
        ensures
            r == Self::from_wire(name@),
    {
        if crate::text::str_eq(name, "authentication_failed") {
            AssistantMessageError::AuthenticationFailed
        } else if crate::text::str_eq(name, "billing_error") {
            AssistantMessageError::BillingError
        } else if crate::text::str_eq(name, "rate_limit") {
            AssistantMessageError::RateLimit
        } else if crate::text::str_eq(name, "invalid_request") {
            AssistantMessageError::InvalidRequest
        } else if crate::text::str_eq(name, "server_error") {
            AssistantMessageError::ServerError
        } else {
            AssistantMessageError::Unknown
        }
    }
}

/// What a user message holds: plain text, or content blocks.
#[derive(Debug, Clone)]
pub enum UserMessageContent {
    Text(String),
    Blocks(Vec<ContentBlock>),
}

/// Mathematical model of [`UserMessageContent`].
pub enum UserMessageContentView {
    Text(Seq<char>),
    Blocks(Seq<ContentBlockView>),
}

impl View for UserMessageContent {
    type V = UserMessageContentView;

    open spec fn view(&self) -> UserMessageContentView {
        match self {
            UserMessageContent::Text(s) => UserMessageContentView::Text(s@),
            UserMessageContent::Blocks(blocks) => UserMessageContentView::Blocks(views(blocks@)),
        }
    }
}

/// A message of the user.
#[derive(Debug, Clone)]
pub struct UserMessage {
    pub content: UserMessageContent,
    pub uuid: Option<String>,
    pub parent_tool_use_id: Option<String>,
}

/// A message of the assistant.
#[derive(Debug, Clone)]
pub struct AssistantMessage {
    pub content: Vec<ContentBlock>,
    pub model: String,
    pub parent_tool_use_id: Option<String>,
    pub error: Option<AssistantMessageError>,
}

/// A message of the system.
#[derive(Debug, Clone)]
pub struct SystemMessage {
    pub subtype: String,
    pub data: Json,
}

/// The message that ends a run, with its cost and usage.
#[derive(Debug, Clone)]
pub struct ResultMessage {
    pub subtype: String,
    pub duration_ms: u64,
    pub duration_api_ms: u64,
    pub is_error: bool,
    pub num_turns: u32,
    pub session_id: String,
    /// The total cost in USD: the text of the JSON number.
    pub total_cost_usd: Option<String>,
    pub usage: Option<Json>,
    pub result: Option<String>,
    pub structured_output: Option<Json>,
}

/// A partial update of a message that is being written.
#[derive(Debug, Clone)]
pub struct StreamEvent {
    pub uuid: String,
    pub session_id: String,
    pub event: Json,
    pub parent_tool_use_id: Option<String>,
}

/// An event message.
#[derive(Debug, Clone)]
pub enum Message {
    User(UserMessage),
    Assistant(AssistantMessage),
    System(SystemMessage),
    Result(ResultMessage),
    StreamEvent(StreamEvent),
}

/// Mathematical model of [`ResultMessage`].
pub struct ResultMessageView {
    pub subtype: Seq<char>,
    pub duration_ms: u64,
    pub duration_api_ms: u64,
    pub is_error: bool,
    pub num_turns: u32,
    pub session_id: Seq<char>,
    pub total_cost_usd: Option<Seq<char>>,
    pub usage: Option<JsonValue>,
    pub result: Option<Seq<char>>,
    pub structured_output: Option<JsonValue>,
}

/// Mathematical model of [`Message`].
#[allow(inconsistent_fields)]
pub enum MessageView {
    User {
        content: UserMessageContentView,
        uuid: Option<Seq<char>>,
        parent_tool_use_id: Option<Seq<char>>,
    },
    Assistant {
        content: Seq<ContentBlockView>,
        model: Seq<char>,
        parent_tool_use_id: Option<Seq<char>>,
        error: Option<AssistantMessageError>,
    },
    System { subtype: Seq<char>, data: JsonValue },
    Result(ResultMessageView),
    StreamEvent {
        uuid: Seq<char>,
        session_id: Seq<char>,
        event: JsonValue,
        parent_tool_use_id: Option<Seq<char>>,
    },
}

impl View for ResultMessage {
    type V = ResultMessageView;

    open spec fn view(&self) -> ResultMessageView {
        ResultMessageView {
            subtype: self.subtype@,
            duration_ms: self.duration_ms,
            duration_api_ms: self.duration_api_ms,
            is_error: self.is_error,
            num_turns: self.num_turns,
            session_id: self.session_id@,
            total_cost_usd: opt_view(self.total_cost_usd),
            usage: opt_json_view(self.usage),
            result: opt_view(self.result),
            structured_output: opt_json_view(self.structured_output),
        }
    }
}

impl View for Message {
    type V = MessageView;

    open spec fn view(&self) -> MessageView {
        match self {
            Message::User(m) => MessageView::User {
                content: m.content@,
                uuid: opt_view(m.uuid),
                parent_tool_use_id: opt_view(m.parent_tool_use_id),
            },
            Message::Assistant(m) => MessageView::Assistant {
                content: views(m.content@),
                model: m.model@,
                parent_tool_use_id: opt_view(m.parent_tool_use_id),
                error: m.error,
            },
            Message::System(m) => MessageView::System { subtype: m.subtype@, data: m.data@ },
            Message::Result(m) => MessageView::Result(m@),
            Message::StreamEvent(m) => MessageView::StreamEvent {
                uuid: m.uuid@,
                session_id: m.session_id@,
                event: m.event@,
                parent_tool_use_id: opt_view(m.parent_tool_use_id),
            },
        }
    }
}

/// The texts of the text blocks, one after the other.
pub open spec fn blocks_text(blocks: Seq<ContentBlockView>) -> Seq<char>
    decreases blocks.len(),
{
    if blocks.len() == 0 {
        Seq::empty()
    } else {
        blocks_text(blocks.drop_last()) + match blocks.last().as_text() {
            Some(text) => text,
            None => Seq::empty(),
        }
    }
}

/// The places of the tool-use blocks, in order.
pub open spec fn tool_use_places(blocks: Seq<ContentBlockView>) -> Seq<int>
    decreases blocks.len(),
{
    if blocks.len() == 0 {
        Seq::empty()
    } else if blocks.last() is ToolUse {
        tool_use_places(blocks.drop_last()).push(blocks.len() - 1)
    } else {
        tool_use_places(blocks.drop_last())
    }
}

impl UserMessage {
    /// The text of a message that is plain text or one text block.
    pub open spec fn text_spec(&self) -> Option<Seq<char>> {
        match self.content@ {
            UserMessageContentView::Text(s) => Some(s),
            UserMessageContentView::Blocks(blocks) => if blocks.len() == 1 {
                blocks[0].as_text()
            } else {
                None
            },
        }
    }

    /// The text of a message that is plain text or one text block.
    pub fn text(&self) -> (r: Option<&str>)
        ensures
            match r {
                Some(s) => self.text_spec() == Some(s@),
                None => self.text_spec() is None,
            },
    {
        match &self.content {
            UserMessageContent::Text(s) => Some(s.as_str()),
            UserMessageContent::Blocks(blocks) => {
                if blocks.len() == 1 {
                    blocks[0].as_text()
                } else {
                    None
                }
            },
        }
    }
}

impl AssistantMessage {
    /// All the text of the message: its text blocks, one after the other.
    pub fn text(&self) -> (r: String)
        ensures
            r@ == blocks_text(views(self.content@)),
    {
        let ghost blocks = views(self.content@);
        let mut out = String::new();
        let mut i: usize = 0;
        proof {
            assert(blocks.subrange(0, 0) =~= Seq::empty());
        }
        while i < self.content.len()
            invariant
                0 <= i <= self.content.len(),
                blocks == views(self.content@),
                out@ == blocks_text(blocks.subrange(0, i as int)),
            decreases self.content.len() - i,
        {
            proof {
                let t = blocks.subrange(0, i as int + 1);
                assert(t.drop_last() =~= blocks.subrange(0, i as int));
                assert(t.last() == self.content@[i as int]@);
            }
            match self.content[i].as_text() {
                Some(text) => {
                    out.append(text);
                },
                None => {
                    assert(out@ + Seq::<char>::empty() =~= out@);
                },
            }
            i += 1;
        }
        proof {
            assert(blocks.subrange(0, self.content.len() as int) =~= blocks);
        }
        out
    }

    /// The tool-use blocks of the message, in order.
    pub fn tool_uses(&self) -> (r: Vec<&ToolUseBlock>)
        ensures
            r@.len() == tool_use_places(views(self.content@)).len(),
            forall|k: int|
                0 <= k < r@.len() ==> ContentBlock::ToolUse(*#[trigger] r@[k])
                    == self.content@[tool_use_places(views(self.content@))[k]],
    {
        let ghost blocks = views(self.content@);
        let mut out: Vec<&ToolUseBlock> = Vec::new();
        let mut i: usize = 0;
        proof {
            assert(blocks.subrange(0, 0) =~= Seq::empty());
        }
        while i < self.content.len()
            invariant
                0 <= i <= self.content.len(),
                blocks == views(self.content@),
                out@.len() == tool_use_places(blocks.subrange(0, i as int)).len(),
                forall|k: int|
                    0 <= k < out@.len() ==> ContentBlock::ToolUse(*#[trigger] out@[k])
                        == self.content@[tool_use_places(blocks.subrange(0, i as int))[k]],
            decreases self.content.len() - i,
        {
            proof {
                let t = blocks.subrange(0, i as int + 1);
                assert(t.drop_last() =~= blocks.subrange(0, i as int));
                assert(t.last() == self.content@[i as int]@);
            }
            match &self.content[i] {
                ContentBlock::ToolUse(block) => {
                    out.push(block);
                },
                _ => {},
            }
            i += 1;
        }
        proof {
            assert(blocks.subrange(0, self.content.len() as int) =~= blocks);
        }
        out
    }
}

impl Message {
    /// Whether this is the message that ends a run.
    pub fn is_result(&self) -> (r: bool)
        ensures
            r == (self@ is Result),
    {
        match self {
            Message::Result(_) => true,
            _ => false,
        }
    }

    /// Whether this is a message of the assistant.
    pub fn is_assistant(&self) -> (r: bool)
        ensures
            r == (self@ is Assistant),
    {
        match self {
            Message::Assistant(_) => true,
            _ => false,
        }
    }

    /// The assistant message, if this is one.
    pub fn as_assistant(&self) -> (r: Option<&AssistantMessage>)
        ensures
            match r {
                Some(m) => *self == Message::Assistant(*m),
                None => !(self@ is Assistant),
            },
    {
        match self {
            Message::Assistant(msg) => Some(msg),
            _ => None,
        }
    }

    /// The result message, if this is one.
    pub fn as_result(&self) -> (r: Option<&ResultMessage>)
        ensures
            match r {
                Some(m) => *self == Message::Result(*m),
                None => !(self@ is Result),
            },
    {
        match self {
            Message::Result(msg) => Some(msg),
            _ => None,
        }
    }
}

} // verus!
