//! Tools that run in the caller's process: what they return, the schema of
//! what they take, and the configuration of the server that offers them.

use crate::json::{lemma_members_view_push, members_view, Json, JsonValue};
use crate::text::views;
use vstd::prelude::*;
use vstd::string::StringExecFns;

verus! {

/// A piece of what a tool returns.
#[derive(Debug, Clone)]
pub enum ToolContent {
    /// Text.
    Text { text: String },
    /// An image: its data in base 64, and its MIME type.
    Image { data: String, mime_type: String },
}

/// Mathematical model of [`ToolContent`].
pub enum ToolContentView {
    Text { text: Seq<char> },
    Image { data: Seq<char>, mime_type: Seq<char> },
}

impl View for ToolContent {
    type V = ToolContentView;

    open spec fn view(&self) -> ToolContentView {
        match self {
            ToolContent::Text { text } => ToolContentView::Text { text: text@ },
            ToolContent::Image { data, mime_type } => ToolContentView::Image {
                data: data@,
                mime_type: mime_type@,
            },
        }
    }
}

impl ToolContent {
    /// A piece of text.
    pub fn text(text: &str) -> (r: Self)
        ensures
            r@ == (ToolContentView::Text { text: text@ }),
    {
        ToolContent::Text { text: String::from_str(text) }
    }

    /// An image.
    pub fn image(data: &str, mime_type: &str) -> (r: Self)
        ensures
            r@ == (ToolContentView::Image { data: data@, mime_type: mime_type@ }),
    {
        ToolContent::Image { data: String::from_str(data), mime_type: String::from_str(mime_type) }
    }
}

/// What a tool returns.
#[derive(Debug, Clone)]
pub struct ToolResult {
    pub content: Vec<ToolContent>,
    /// Whether the result is an error.
    pub is_error: Option<bool>,
}

impl ToolResult {
    /// A result of one piece of text.
    pub fn text(text: &str) -> (r: Self)
        ensures
            views(r.content@) == seq![ToolContentView::Text { text: text@ }],
            r.is_error is None,
    {
        let mut content: Vec<ToolContent> = Vec::new();
        content.push(ToolContent::text(text));
        proof {
            assert(views(content@) =~= seq![ToolContentView::Text { text: text@ }]);
        }
        ToolResult { content, is_error: None }
    }

    /// An error with a message.
    pub fn error(message: &str) -> (r: Self)
        ensures
            views(r.content@) == seq![ToolContentView::Text { text: message@ }],
            r.is_error == Some(true),
    {
        let mut content: Vec<ToolContent> = Vec::new();
        content.push(ToolContent::text(message));
        proof {
            assert(views(content@) =~= seq![ToolContentView::Text { text: message@ }]);
        }
        ToolResult { content, is_error: Some(true) }
    }

    /// A result of several pieces.
    pub fn with_content(content: Vec<ToolContent>) -> (r: Self)
        ensures
            r.content == content,
            r.is_error is None,
    {
        ToolResult { content, is_error: None }
    }
}

/// The schema of what a tool takes.
#[derive(Debug, Clone)]
pub struct ToolInputSchema {
    /// The JSON Schema type, usually `object`.
    pub schema_type: String,
    /// The properties in the order in which they were added; a later one of
    /// the same name counts.
    pub properties: Vec<(String, Json)>,
    /// The names of the properties that must be given.
    pub required: Vec<String>,
}

/// What a schema says of a property of a simple type.
pub open spec fn property_doc(kind: Seq<char>, description: Seq<char>) -> JsonValue {
    JsonValue::empty_object().with("type"@, JsonValue::String(kind)).with(
        "description"@,
        JsonValue::String(description),
    )
}

impl ToolInputSchema {
    /// The schema of an object without properties.
    pub fn object() -> (r: Self)
        ensures
            r.schema_type@ == "object"@,
            r.properties@.len() == 0,
            r.required@.len() == 0,
    {
        ToolInputSchema {
            schema_type: String::from_str("object"),
            properties: Vec::new(),
            required: Vec::new(),
        }
    }

    /// Adds a property of the given simple type.
    fn typed_property(self, kind: &str, name: &str, description: &str) -> (r: Self)
        ensures
            r.schema_type == self.schema_type,
            r.required == self.required,
            members_view(r.properties@) == members_view(self.properties@).push(
                (name@, property_doc(kind@, description@)),
            ),
    {
        let mut r = self;
        let mut doc = Json::object();
        doc.insert("type", Json::string(kind));
        doc.insert("description", Json::string(description));
        let key = String::from_str(name);
        proof {
            lemma_members_view_push(r.properties@, key, doc);
        }
        r.properties.push((key, doc));
        r
    }

    /// Adds a property that holds a string.
    pub fn string_property(self, name: &str, description: &str) -> (r: Self)
        ensures
            r.schema_type == self.schema_type,
            r.required == self.required,
            members_view(r.properties@) == members_view(self.properties@).push(
                (name@, property_doc("string"@, description@)),
            ),
    {
        self.typed_property("string", name, description)
    }

    /// Adds a property that holds a number.
    pub fn number_property(self, name: &str, description: &str) -> (r: Self)
        ensures
            r.schema_type == self.schema_type,
            r.required == self.required,
            members_view(r.properties@) == members_view(self.properties@).push(
                (name@, property_doc("number"@, description@)),
            ),
    {
        self.typed_property("number", name, description)
    }

    /// Adds a property that holds a boolean.
    pub fn boolean_property(self, name: &str, description: &str) -> (r: Self)
        ensures
            r.schema_type == self.schema_type,
            r.required == self.required,
            members_view(r.properties@) == members_view(self.properties@).push(
                (name@, property_doc("boolean"@, description@)),
            ),
    {
        self.typed_property("boolean", name, description)
    }

    /// Says of a property that it must be given.
    pub fn required_property(self, name: &str) -> (r: Self)
        ensures
            r.schema_type == self.schema_type,
            r.properties == self.properties,
            views(r.required@) == views(self.required@).push(name@),
    {
        let mut r = self;
        let ghost before = r.required@;
        r.required.push(String::from_str(name));
        proof {
            assert(views(r.required@) =~= views(before).push(name@));
        }
        r
    }

    /// The schema of the property of that name, if the schema has one.
    pub fn property(&self, name: &str) -> (r: Option<&Json>)
        ensures
            match r {
                Some(doc) => crate::json::lookup(members_view(self.properties@), name@) == Some(
                    doc@,
                ),
                None => crate::json::lookup(members_view(self.properties@), name@) is None,
            },
    {
        let mut i: usize = self.properties.len();
        proof {
            assert(members_view(self.properties@).subrange(0, i as int) =~= members_view(
                self.properties@,
            ));
        }
        while i > 0
            invariant
                0 <= i <= self.properties.len(),
                crate::json::lookup(members_view(self.properties@), name@) == crate::json::lookup(
                    members_view(self.properties@).subrange(0, i as int),
                    name@,
                ),
            decreases i,
        {
            let ghost prefix = members_view(self.properties@).subrange(0, i as int);
            proof {
                assert(prefix.last() == (self.properties@[i - 1].0@, self.properties@[i - 1].1@));
                assert(prefix.drop_last() =~= members_view(self.properties@).subrange(
                    0,
                    i as int - 1,
                ));
            }
            if crate::text::str_eq(self.properties[i - 1].0.as_str(), name) {
                return Some(&self.properties[i - 1].1);
            }
            i -= 1;
        }
        proof {
            assert(members_view(self.properties@).subrange(0, 0) =~= Seq::empty());
        }
        None
    }
}

/// A tool that runs in the caller's process. The function that does the work
/// lives with the caller; the tool holds its place in the caller's list.
#[derive(Debug, Clone)]
pub struct SdkMcpTool {
    pub name: String,
    pub description: String,
    pub input_schema: ToolInputSchema,
    /// The place of the function that does the work.
    pub handler: usize,
}

impl SdkMcpTool {
    /// A tool of that name, description and schema.
    pub fn new(name: &str, description: &str, input_schema: ToolInputSchema, handler: usize) -> (r:
        Self)
        ensures
            r.name@ == name@,
            r.description@ == description@,
            r.input_schema == input_schema,
            r.handler == handler,
    {
        SdkMcpTool {
            name: String::from_str(name),
            description: String::from_str(description),
            input_schema,
            handler,
        }
    }
}

/// The configuration of a server of in-process tools.
#[derive(Debug, Clone)]
pub struct McpSdkServerConfig {
    /// Always `sdk`.
    pub server_type: String,
    pub name: String,
    pub version: String,
}

/// The configuration of a server of in-process tools, and the tools as they
/// were given.
pub fn create_sdk_mcp_server(name: &str, version: &str, tools: Vec<SdkMcpTool>) -> (r: (
    McpSdkServerConfig,
    Vec<SdkMcpTool>,
))
    ensures
        r.0.server_type@ == "sdk"@,
        r.0.name@ == name@,
        r.0.version@ == version@,
        r.1 == tools,
{
    let config = McpSdkServerConfig {
        server_type: String::from_str("sdk"),
        name: String::from_str(name),
        version: String::from_str(version),
    };
    (config, tools)
}

} // verus!
