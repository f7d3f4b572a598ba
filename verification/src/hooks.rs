//! Hooks: the events, what a hook callback is given and answers, and the
//! wire forms of both.

use crate::fault::{
    fault_of, field_fault, first, first_fault, unknown_variant, unknown_variant_text, FieldKind,
};
use crate::json::{opt_json_view, Json, JsonValue};
use crate::permission::PermissionBehavior;
use crate::text::{opt_model, opt_view, str_eq, views};
use vstd::prelude::*;

verus! {

/// The points of a run at which hooks are called.
#[derive(Debug, Clone, Copy, PartialEq, Eq, Hash, Structural)]
pub enum HookEvent {
    PreToolUse,
    PostToolUse,
    PostToolUseFailure,
    UserPromptSubmit,
    Stop,
    SubagentStop,
    PreCompact,
}

impl HookEvent {
    /// The name of the event on the wire.
    pub open spec fn wire_name(self) -> Seq<char> {
        match self {
            HookEvent::PreToolUse => "PreToolUse"@,
            HookEvent::PostToolUse => "PostToolUse"@,
            HookEvent::PostToolUseFailure => "PostToolUseFailure"@,
            HookEvent::UserPromptSubmit => "UserPromptSubmit"@,
            HookEvent::Stop => "Stop"@,
            HookEvent::SubagentStop => "SubagentStop"@,
            HookEvent::PreCompact => "PreCompact"@,
        }
    }

    /// The event of that name.
    pub open spec fn from_wire(name: Seq<char>) -> Option<HookEvent> {
        if name == "PreToolUse"@ {
            Some(HookEvent::PreToolUse)
        } else if name == "PostToolUse"@ {
            Some(HookEvent::PostToolUse)
        } else if name == "PostToolUseFailure"@ {
            Some(HookEvent::PostToolUseFailure)
        } else if name == "UserPromptSubmit"@ {
            Some(HookEvent::UserPromptSubmit)
        } else if name == "Stop"@ {
            Some(HookEvent::Stop)
        } else if name == "SubagentStop"@ {
            Some(HookEvent::SubagentStop)
        } else if name == "PreCompact"@ {
            Some(HookEvent::PreCompact)
        } else {
            None
        }
    }

    /// The name of the event on the wire.
    pub fn as_str(&self) -> (r: &'static str)
        ensures
            r@ == self.wire_name(),
    {
        match self {
            HookEvent::PreToolUse => "PreToolUse",
            HookEvent::PostToolUse => "PostToolUse",
            HookEvent::PostToolUseFailure => "PostToolUseFailure",
            HookEvent::UserPromptSubmit => "UserPromptSubmit",
            HookEvent::Stop => "Stop",
            HookEvent::SubagentStop => "SubagentStop",
            HookEvent::PreCompact => "PreCompact",
        }
    }

    /// The event of that name.
    pub fn parse(name: &str) -> (r: Option<HookEvent>)
        ensures
            r == Self::from_wire(name@),
    {
        if str_eq(name, "PreToolUse") {
            Some(HookEvent::PreToolUse)
        } else if str_eq(name, "PostToolUse") {
            Some(HookEvent::PostToolUse)
        } else if str_eq(name, "PostToolUseFailure") {
            Some(HookEvent::PostToolUseFailure)
        } else if str_eq(name, "UserPromptSubmit") {
            Some(HookEvent::UserPromptSubmit)
        } else if str_eq(name, "Stop") {
            Some(HookEvent::Stop)
        } else if str_eq(name, "SubagentStop") {
            Some(HookEvent::SubagentStop)
        } else if str_eq(name, "PreCompact") {
            Some(HookEvent::PreCompact)
        } else {
            None
        }
    }
}

/// What triggered a compaction.
#[derive(Debug, Clone, Copy, PartialEq, Eq, Structural)]
pub enum CompactTrigger {
    Manual,
    Auto,
}

impl CompactTrigger {
    /// The name on the wire.
    pub open spec fn wire_name(self) -> Seq<char> {
        match self {
            CompactTrigger::Manual => "manual"@,
            CompactTrigger::Auto => "auto"@,
        }
    }

    /// The value that a wire name stands for.
    pub open spec fn from_wire(name: Seq<char>) -> Option<CompactTrigger> {
        if name == "manual"@ {
            Some(CompactTrigger::Manual)
        } else if name == "auto"@ {
            Some(CompactTrigger::Auto)
        } else {
            None
        }
    }

    /// The name on the wire.
    pub fn as_str(&self) -> (r: &'static str)
        ensures
            r@ == self.wire_name(),
    {
        match self {
            CompactTrigger::Manual => "manual",
            CompactTrigger::Auto => "auto",
        }
    }

    /// The value that a wire name stands for, if it is one.
    pub fn parse(name: &str) -> (r: Option<CompactTrigger>)
        ensures
            r == Self::from_wire(name@),
    {
        if str_eq(name, "manual") {
            Some(CompactTrigger::Manual)
        } else if str_eq(name, "auto") {
            Some(CompactTrigger::Auto)
        } else {
            None
        }
    }
}

/// The fields that every hook input has.
#[derive(Debug, Clone)]
pub struct BaseHookInput {
    pub session_id: String,
    pub transcript_path: String,
    pub cwd: String,
    pub permission_mode: Option<String>,
}

/// Input of a hook called before a tool is used.
#[derive(Debug, Clone)]
pub struct PreToolUseHookInput {
    pub base: BaseHookInput,
    pub hook_event_name: String,
    pub tool_name: String,
    pub tool_input: Json,
}

/// Input of a hook called after a tool was used.
#[derive(Debug, Clone)]
pub struct PostToolUseHookInput {
    pub base: BaseHookInput,
    pub hook_event_name: String,
    pub tool_name: String,
    pub tool_input: Json,
    pub tool_response: Json,
}

/// Input of a hook called after a tool failed.
#[derive(Debug, Clone)]
pub struct PostToolUseFailureHookInput {
    pub base: BaseHookInput,
    pub hook_event_name: String,
    pub tool_name: String,
    pub tool_input: Json,
    pub tool_use_id: String,
    pub error: String,
    pub is_interrupt: Option<bool>,
}

/// Input of a hook called when the user submits a prompt.
#[derive(Debug, Clone)]
pub struct UserPromptSubmitHookInput {
    pub base: BaseHookInput,
    pub hook_event_name: String,
    pub prompt: String,
}

/// Input of a hook called when the run stops.
#[derive(Debug, Clone)]
pub struct StopHookInput {
    pub base: BaseHookInput,
    pub hook_event_name: String,
    pub stop_hook_active: bool,
}

/// Input of a hook called when a subagent stops.
#[derive(Debug, Clone)]
pub struct SubagentStopHookInput {
    pub base: BaseHookInput,
    pub hook_event_name: String,
    pub stop_hook_active: bool,
}

/// Input of a hook called before the context is compacted.
#[derive(Debug, Clone)]
pub struct PreCompactHookInput {
    pub base: BaseHookInput,
    pub hook_event_name: String,
    pub trigger: CompactTrigger,
    pub custom_instructions: Option<String>,
}

/// The input of a hook callback, by event.
#[derive(Debug, Clone)]
pub enum HookInput {
    PreToolUse(PreToolUseHookInput),
    PostToolUse(PostToolUseHookInput),
    PostToolUseFailure(PostToolUseFailureHookInput),
    UserPromptSubmit(UserPromptSubmitHookInput),
    Stop(StopHookInput),
    SubagentStop(SubagentStopHookInput),
    PreCompact(PreCompactHookInput),
}

/// Mathematical model of [`BaseHookInput`].
pub struct BaseHookInputView {
    pub session_id: Seq<char>,
    pub transcript_path: Seq<char>,
    pub cwd: Seq<char>,
    pub permission_mode: Option<Seq<char>>,
}

/// Mathematical model of [`HookInput`]: the common fields, the event's name
/// as it stood on the wire, and the fields of the event.
pub enum HookInputView {
    PreToolUse {
        base: BaseHookInputView,
        hook_event_name: Seq<char>,
        tool_name: Seq<char>,
        tool_input: JsonValue,
    },
    PostToolUse {
        base: BaseHookInputView,
        hook_event_name: Seq<char>,
        tool_name: Seq<char>,
        tool_input: JsonValue,
        tool_response: JsonValue,
    },
    PostToolUseFailure {
        base: BaseHookInputView,
        hook_event_name: Seq<char>,
        tool_name: Seq<char>,
        tool_input: JsonValue,
        tool_use_id: Seq<char>,
        error: Seq<char>,
        is_interrupt: Option<bool>,
    },
    UserPromptSubmit { base: BaseHookInputView, hook_event_name: Seq<char>, prompt: Seq<char> },
    Stop { base: BaseHookInputView, hook_event_name: Seq<char>, stop_hook_active: bool },
    SubagentStop { base: BaseHookInputView, hook_event_name: Seq<char>, stop_hook_active: bool },
    PreCompact {
        base: BaseHookInputView,
        hook_event_name: Seq<char>,
        trigger: CompactTrigger,
        custom_instructions: Option<Seq<char>>,
    },
}

impl View for BaseHookInput {
    type V = BaseHookInputView;

    open spec fn view(&self) -> BaseHookInputView {
        BaseHookInputView {
            session_id: self.session_id@,
            transcript_path: self.transcript_path@,
            cwd: self.cwd@,
            permission_mode: opt_view(self.permission_mode),
        }
    }
}

impl HookInput {
    /// The event that the input belongs to.
    pub open spec fn event(&self) -> HookEvent {
        match self {
            HookInput::PreToolUse(_) => HookEvent::PreToolUse,
            HookInput::PostToolUse(_) => HookEvent::PostToolUse,
            HookInput::PostToolUseFailure(_) => HookEvent::PostToolUseFailure,
            HookInput::UserPromptSubmit(_) => HookEvent::UserPromptSubmit,
            HookInput::Stop(_) => HookEvent::Stop,
            HookInput::SubagentStop(_) => HookEvent::SubagentStop,
            HookInput::PreCompact(_) => HookEvent::PreCompact,
        }
    }

    /// The event's name as the input holds it.
    pub open spec fn event_name(&self) -> Seq<char> {
        match self {
            HookInput::PreToolUse(i) => i.hook_event_name@,
            HookInput::PostToolUse(i) => i.hook_event_name@,
            HookInput::PostToolUseFailure(i) => i.hook_event_name@,
            HookInput::UserPromptSubmit(i) => i.hook_event_name@,
            HookInput::Stop(i) => i.hook_event_name@,
            HookInput::SubagentStop(i) => i.hook_event_name@,
            HookInput::PreCompact(i) => i.hook_event_name@,
        }
    }
}

impl View for HookInput {
    type V = HookInputView;

    open spec fn view(&self) -> HookInputView {
        match self {
            HookInput::PreToolUse(i) => HookInputView::PreToolUse {
                base: i.base@,
                hook_event_name: i.hook_event_name@,
                tool_name: i.tool_name@,
                tool_input: i.tool_input@,
            },
            HookInput::PostToolUse(i) => HookInputView::PostToolUse {
                base: i.base@,
                hook_event_name: i.hook_event_name@,
                tool_name: i.tool_name@,
                tool_input: i.tool_input@,
                tool_response: i.tool_response@,
            },
            HookInput::PostToolUseFailure(i) => HookInputView::PostToolUseFailure {
                base: i.base@,
                hook_event_name: i.hook_event_name@,
                tool_name: i.tool_name@,
                tool_input: i.tool_input@,
                tool_use_id: i.tool_use_id@,
                error: i.error@,
                is_interrupt: i.is_interrupt,
            },
            HookInput::UserPromptSubmit(i) => HookInputView::UserPromptSubmit {
                base: i.base@,
                hook_event_name: i.hook_event_name@,
                prompt: i.prompt@,
            },
            HookInput::Stop(i) => HookInputView::Stop {
                base: i.base@,
                hook_event_name: i.hook_event_name@,
                stop_hook_active: i.stop_hook_active,
            },
            HookInput::SubagentStop(i) => HookInputView::SubagentStop {
                base: i.base@,
                hook_event_name: i.hook_event_name@,
                stop_hook_active: i.stop_hook_active,
            },
            HookInput::PreCompact(i) => HookInputView::PreCompact {
                base: i.base@,
                hook_event_name: i.hook_event_name@,
                trigger: i.trigger,
                custom_instructions: opt_view(i.custom_instructions),
            },
        }
    }
}

impl BaseHookInputView {
    /// Reads the common fields: the session, the transcript and the working
    /// directory must be there; the permission mode may be absent or `null`.
    pub open spec fn from_json(v: JsonValue) -> Option<BaseHookInputView> {
        match (
            v.get_str("session_id"@),
            v.get_str("transcript_path"@),
            v.get_str("cwd"@),
            v.opt_str_field("permission_mode"@),
        ) {
            (Some(session_id), Some(transcript_path), Some(cwd), Some(permission_mode)) => Some(
                BaseHookInputView { session_id, transcript_path, cwd, permission_mode },
            ),
            _ => None,
        }
    }
}

impl HookInputView {
    /// The event that the input belongs to.
    pub open spec fn event(self) -> HookEvent {
        match self {
            HookInputView::PreToolUse { .. } => HookEvent::PreToolUse,
            HookInputView::PostToolUse { .. } => HookEvent::PostToolUse,
            HookInputView::PostToolUseFailure { .. } => HookEvent::PostToolUseFailure,
            HookInputView::UserPromptSubmit { .. } => HookEvent::UserPromptSubmit,
            HookInputView::Stop { .. } => HookEvent::Stop,
            HookInputView::SubagentStop { .. } => HookEvent::SubagentStop,
            HookInputView::PreCompact { .. } => HookEvent::PreCompact,
        }
    }

    /// The event's name as the input holds it.
    pub open spec fn event_name(self) -> Seq<char> {
        match self {
            HookInputView::PreToolUse { hook_event_name, .. } => hook_event_name,
            HookInputView::PostToolUse { hook_event_name, .. } => hook_event_name,
            HookInputView::PostToolUseFailure { hook_event_name, .. } => hook_event_name,
            HookInputView::UserPromptSubmit { hook_event_name, .. } => hook_event_name,
            HookInputView::Stop { hook_event_name, .. } => hook_event_name,
            HookInputView::SubagentStop { hook_event_name, .. } => hook_event_name,
            HookInputView::PreCompact { hook_event_name, .. } => hook_event_name,
        }
    }

    /// Reads the wire form of a hook input. The member `hook_event_name`
    /// selects the event; the common fields and the event's own fields must be
    /// there with the right types, an optional one may be absent or `null`.
    pub open spec fn from_json(v: JsonValue) -> Option<HookInputView> {
        match (v.get_str("hook_event_name"@), BaseHookInputView::from_json(v)) {
            (Some(name), Some(base)) => match HookEvent::from_wire(name) {
                Some(HookEvent::PreToolUse) => match (
                    v.get_str("tool_name"@),
                    v.get("tool_input"@),
                ) {
                    (Some(tool_name), Some(tool_input)) => Some(
                        HookInputView::PreToolUse { base, hook_event_name: name, tool_name, tool_input },
                    ),
                    _ => None,
                },
                Some(HookEvent::PostToolUse) => match (
                    v.get_str("tool_name"@),
                    v.get("tool_input"@),
                    v.get("tool_response"@),
                ) {
                    (Some(tool_name), Some(tool_input), Some(tool_response)) => Some(
                        HookInputView::PostToolUse { base, hook_event_name: name, tool_name, tool_input, tool_response },
                    ),
                    _ => None,
                },
                Some(HookEvent::PostToolUseFailure) => match (
                    v.get_str("tool_name"@),
                    v.get("tool_input"@),
                    v.get_str("tool_use_id"@),
                    v.get_str("error"@),
                    v.opt_bool_field("is_interrupt"@),
                ) {
                    (
                        Some(tool_name),
                        Some(tool_input),
                        Some(tool_use_id),
                        Some(error),
                        Some(is_interrupt),
                    ) => Some(
                        HookInputView::PostToolUseFailure {
                            base,
                            hook_event_name: name,
                            tool_name,
                            tool_input,
                            tool_use_id,
                            error,
                            is_interrupt,
                        },
                    ),
                    _ => None,
                },
                Some(HookEvent::UserPromptSubmit) => match v.get_str("prompt"@) {
                    Some(prompt) => Some(HookInputView::UserPromptSubmit { base, hook_event_name: name, prompt }),
                    None => None,
                },
                Some(HookEvent::Stop) => match v.get_bool("stop_hook_active"@) {
                    Some(stop_hook_active) => Some(HookInputView::Stop { base, hook_event_name: name, stop_hook_active }),
                    None => None,
                },
                Some(HookEvent::SubagentStop) => match v.get_bool("stop_hook_active"@) {
                    Some(stop_hook_active) => Some(
                        HookInputView::SubagentStop { base, hook_event_name: name, stop_hook_active },
                    ),
                    None => None,
                },
                Some(HookEvent::PreCompact) => match (
                    v.get_str("trigger"@),
                    v.opt_str_field("custom_instructions"@),
                ) {
                    (Some(trigger_name), Some(custom_instructions)) => match CompactTrigger::from_wire(
                        trigger_name,
                    ) {
                        Some(trigger) => Some(
                            HookInputView::PreCompact { base, hook_event_name: name, trigger, custom_instructions },
                        ),
                        None => None,
                    },
                    _ => None,
                },
                None => None,
            },
            _ => None,
        }
    }
}

impl BaseHookInputView {
    /// What is wrong with the common fields, if anything is.
    pub open spec fn fault(v: JsonValue) -> Option<Seq<char>> {
        first_fault(
            fault_of(v, "session_id"@, FieldKind::Str),
            first_fault(
                fault_of(v, "transcript_path"@, FieldKind::Str),
                first_fault(
                    fault_of(v, "cwd"@, FieldKind::Str),
                    fault_of(v, "permission_mode"@, FieldKind::OptStr),
                ),
            ),
        )
    }
}

/// What is wrong with the fields of the event's own, if anything is.
pub open spec fn event_fault(v: JsonValue, event: HookEvent) -> Option<Seq<char>> {
    match event {
        HookEvent::PreToolUse => first_fault(
            fault_of(v, "tool_name"@, FieldKind::Str),
            fault_of(v, "tool_input"@, FieldKind::Any),
        ),
        HookEvent::PostToolUse => first_fault(
            fault_of(v, "tool_name"@, FieldKind::Str),
            first_fault(
                fault_of(v, "tool_input"@, FieldKind::Any),
                fault_of(v, "tool_response"@, FieldKind::Any),
            ),
        ),
        HookEvent::PostToolUseFailure => first_fault(
            fault_of(v, "tool_name"@, FieldKind::Str),
            first_fault(
                fault_of(v, "tool_input"@, FieldKind::Any),
                first_fault(
                    fault_of(v, "tool_use_id"@, FieldKind::Str),
                    first_fault(
                        fault_of(v, "error"@, FieldKind::Str),
                        fault_of(v, "is_interrupt"@, FieldKind::OptBool),
                    ),
                ),
            ),
        ),
        HookEvent::UserPromptSubmit => fault_of(v, "prompt"@, FieldKind::Str),
        HookEvent::Stop => fault_of(v, "stop_hook_active"@, FieldKind::Bool),
        HookEvent::SubagentStop => fault_of(v, "stop_hook_active"@, FieldKind::Bool),
        HookEvent::PreCompact => first_fault(
            fault_of(v, "trigger"@, FieldKind::Str),
            first_fault(
                fault_of(v, "custom_instructions"@, FieldKind::OptStr),
                match v.get_str("trigger"@) {
                    Some(name) => if CompactTrigger::from_wire(name) is None {
                        Some(unknown_variant(name))
                    } else {
                        None
                    },
                    None => None,
                },
            ),
        ),
    }
}

impl HookInputView {
    /// What is wrong with a document that is to be a hook input, if
    /// anything is: the event's name is missing or names no event, or the
    /// first field, common ones first, that is missing or of the wrong type.
    pub open spec fn fault(v: JsonValue) -> Option<Seq<char>> {
        match v.get_str("hook_event_name"@) {
            None => fault_of(v, "hook_event_name"@, FieldKind::Str),
            Some(name) => match HookEvent::from_wire(name) {
                None => Some(unknown_variant(name)),
                Some(event) => first_fault(BaseHookInputView::fault(v), event_fault(v, event)),
            },
        }
    }
}

/// A hook input that was read holds the event's name as the document
/// gives it, and belongs to the event of that name.
pub proof fn lemma_hook_input_is_named(v: JsonValue)
    ensures
        HookInputView::from_json(v) matches Some(input) ==> {
            &&& v.get_str("hook_event_name"@) == Some(input.event_name())
            &&& HookEvent::from_wire(input.event_name()) == Some(input.event())
        },
{
}

/// A document has a fault as a hook input exactly where it cannot be read
/// as one.
pub proof fn lemma_hook_input_fault(v: JsonValue)
    ensures
        HookInputView::fault(v) is Some <==> HookInputView::from_json(v) is None,
{
}

impl BaseHookInput {
    /// What is wrong with the common fields, if anything is.
    pub fn fault(v: &Json) -> (r: Option<String>)
        ensures
            opt_view(r) == BaseHookInputView::fault(v@),
    {
        first(
            field_fault(v, "session_id", FieldKind::Str),
            first(
                field_fault(v, "transcript_path", FieldKind::Str),
                first(
                    field_fault(v, "cwd", FieldKind::Str),
                    field_fault(v, "permission_mode", FieldKind::OptStr),
                ),
            ),
        )
    }
}

/// What is wrong with the fields of the event's own, if anything is.
pub fn fault_of_event(v: &Json, event: HookEvent) -> (r: Option<String>)
    ensures
        opt_view(r) == event_fault(v@, event),
{
    match event {
        HookEvent::PreToolUse => first(
            field_fault(v, "tool_name", FieldKind::Str),
            field_fault(v, "tool_input", FieldKind::Any),
        ),
        HookEvent::PostToolUse => first(
            field_fault(v, "tool_name", FieldKind::Str),
            first(
                field_fault(v, "tool_input", FieldKind::Any),
                field_fault(v, "tool_response", FieldKind::Any),
            ),
        ),
        HookEvent::PostToolUseFailure => first(
            field_fault(v, "tool_name", FieldKind::Str),
            first(
                field_fault(v, "tool_input", FieldKind::Any),
                first(
                    field_fault(v, "tool_use_id", FieldKind::Str),
                    first(
                        field_fault(v, "error", FieldKind::Str),
                        field_fault(v, "is_interrupt", FieldKind::OptBool),
                    ),
                ),
            ),
        ),
        HookEvent::UserPromptSubmit => field_fault(v, "prompt", FieldKind::Str),
        HookEvent::Stop => field_fault(v, "stop_hook_active", FieldKind::Bool),
        HookEvent::SubagentStop => field_fault(v, "stop_hook_active", FieldKind::Bool),
        HookEvent::PreCompact => {
            let unknown = match v.get_str("trigger") {
                Some(name) => if CompactTrigger::parse(name).is_none() {
                    Some(unknown_variant_text(name))
                } else {
                    None
                },
                None => None,
            };
            first(
                field_fault(v, "trigger", FieldKind::Str),
                first(field_fault(v, "custom_instructions", FieldKind::OptStr), unknown),
            )
        },
    }
}

impl HookInput {
    /// What is wrong with a document that is to be a hook input, if anything is.
    pub fn fault(v: &Json) -> (r: Option<String>)
        ensures
            opt_view(r) == HookInputView::fault(v@),
    {
        match v.get_str("hook_event_name") {
            None => field_fault(v, "hook_event_name", FieldKind::Str),
            Some(name) => match HookEvent::parse(name) {
                None => Some(unknown_variant_text(name)),
                Some(event) => first(BaseHookInput::fault(v), fault_of_event(v, event)),
            },
        }
    }
}

impl BaseHookInput {
    /// Reads the common fields of a hook input.
    pub fn from_json(v: &Json) -> (r: Option<BaseHookInput>)
        ensures
            opt_model(r) == BaseHookInputView::from_json(v@),
    {
        let session_id = v.get_string("session_id");
        let transcript_path = v.get_string("transcript_path");
        let cwd = v.get_string("cwd");
        let permission_mode = v.opt_str_field("permission_mode");
        match (session_id, transcript_path, cwd, permission_mode) {
            (Some(session_id), Some(transcript_path), Some(cwd), Some(permission_mode)) => Some(
                BaseHookInput { session_id, transcript_path, cwd, permission_mode },
            ),
            _ => None,
        }
    }
}

impl HookInput {
    /// Reads the wire form of a hook input. The input that comes back belongs
    /// to the event that `hook_event_name` names, and holds that name.
    pub fn from_json(v: &Json) -> (r: Option<HookInput>)
        ensures
            opt_model(r) == HookInputView::from_json(v@),
            r matches Some(input) ==> Some(input.event_name()) == v@.get_str("hook_event_name"@)
                && input.event() == input@.event() && input.event_name() == input@.event_name(),
    {
        let name = match v.get_string("hook_event_name") {
            Some(n) => n,
            None => { return None; },
        };
        let base = match BaseHookInput::from_json(v) {
            Some(b) => b,
            None => { return None; },
        };
        let event = match HookEvent::parse(name.as_str()) {
            Some(e) => e,
            None => { return None; },
        };
        match event {
            HookEvent::PreToolUse => {
                let tool_name = v.get_string("tool_name");
                let tool_input = v.get("tool_input");
                match (tool_name, tool_input) {
                    (Some(tool_name), Some(tool_input)) => Some(
                        HookInput::PreToolUse(
                            PreToolUseHookInput {
                                base,
                                hook_event_name: name,
                                tool_name,
                                tool_input: tool_input.clone(),
                            },
                        ),
                    ),
                    _ => None,
                }
            },
            HookEvent::PostToolUse => {
                let tool_name = v.get_string("tool_name");
                let tool_input = v.get("tool_input");
                let tool_response = v.get("tool_response");
                match (tool_name, tool_input, tool_response) {
                    (Some(tool_name), Some(tool_input), Some(tool_response)) => Some(
                        HookInput::PostToolUse(
                            PostToolUseHookInput {
                                base,
                                hook_event_name: name,
                                tool_name,
                                tool_input: tool_input.clone(),
                                tool_response: tool_response.clone(),
                            },
                        ),
                    ),
                    _ => None,
                }
            },
            HookEvent::PostToolUseFailure => {
                let tool_name = v.get_string("tool_name");
                let tool_input = v.get("tool_input");
                let tool_use_id = v.get_string("tool_use_id");
                let error = v.get_string("error");
                let is_interrupt = v.opt_bool_field("is_interrupt");
                match (tool_name, tool_input, tool_use_id, error, is_interrupt) {
                    (
                        Some(tool_name),
                        Some(tool_input),
                        Some(tool_use_id),
                        Some(error),
                        Some(is_interrupt),
                    ) => Some(
                        HookInput::PostToolUseFailure(
                            PostToolUseFailureHookInput {
                                base,
                                hook_event_name: name,
                                tool_name,
                                tool_input: tool_input.clone(),
                                tool_use_id,
                                error,
                                is_interrupt,
                            },
                        ),
                    ),
                    _ => None,
                }
            },
            HookEvent::UserPromptSubmit => match v.get_string("prompt") {
                Some(prompt) => Some(
                    HookInput::UserPromptSubmit(
                        UserPromptSubmitHookInput { base, hook_event_name: name, prompt },
                    ),
                ),
                None => None,
            },
            HookEvent::Stop => match v.get_bool("stop_hook_active") {
                Some(stop_hook_active) => Some(
                    HookInput::Stop(StopHookInput { base, hook_event_name: name, stop_hook_active }),
                ),
                None => None,
            },
            HookEvent::SubagentStop => match v.get_bool("stop_hook_active") {
                Some(stop_hook_active) => Some(
                    HookInput::SubagentStop(
                        SubagentStopHookInput { base, hook_event_name: name, stop_hook_active },
                    ),
                ),
                None => None,
            },
            HookEvent::PreCompact => {
                let trigger = match v.get_str("trigger") {
                    Some(t) => CompactTrigger::parse(t),
                    None => None,
                };
                let custom_instructions = v.opt_str_field("custom_instructions");
                match (trigger, custom_instructions) {
                    (Some(trigger), Some(custom_instructions)) => Some(
                        HookInput::PreCompact(
                            PreCompactHookInput {
                                base,
                                hook_event_name: name,
                                trigger,
                                custom_instructions,
                            },
                        ),
                    ),
                    _ => None,
                }
            },
        }
    }
}

/// What a hook called before a tool is used may add to its answer.
#[derive(Debug, Clone)]
pub struct PreToolUseHookSpecificOutput {
    pub hook_event_name: String,
    pub permission_decision: Option<PermissionBehavior>,
    pub permission_decision_reason: Option<String>,
    pub updated_input: Option<Json>,
}

/// What a hook called after a tool was used may add to its answer.
#[derive(Debug, Clone)]
pub struct PostToolUseHookSpecificOutput {
    pub hook_event_name: String,
    pub additional_context: Option<String>,
}

/// What a hook called after a tool failed may add to its answer.
#[derive(Debug, Clone)]
pub struct PostToolUseFailureHookSpecificOutput {
    pub hook_event_name: String,
    pub additional_context: Option<String>,
}

/// What a hook called on a submitted prompt may add to its answer.
#[derive(Debug, Clone)]
pub struct UserPromptSubmitHookSpecificOutput {
    pub hook_event_name: String,
    pub additional_context: Option<String>,
}

/// The part of a hook's answer that depends on the event.
#[derive(Debug, Clone)]
pub enum HookSpecificOutput {
    PreToolUse(PreToolUseHookSpecificOutput),
    PostToolUse(PostToolUseHookSpecificOutput),
    PostToolUseFailure(PostToolUseFailureHookSpecificOutput),
    UserPromptSubmit(UserPromptSubmitHookSpecificOutput),
}

/// An answer that defers the hook's work.
#[derive(Debug, Clone)]
pub struct AsyncHookOutput {
    /// Whether the work is deferred; `async` on the wire.
    pub async_: bool,
    /// How long to wait for it, in milliseconds.
    pub async_timeout: Option<u64>,
}

/// An answer given at once.
#[derive(Debug, Clone)]
pub struct SyncHookOutput {
    /// Whether the run should go on; `continue` on the wire.
    pub continue_: Option<bool>,
    pub suppress_output: Option<bool>,
    pub stop_reason: Option<String>,
    pub decision: Option<String>,
    pub system_message: Option<String>,
    pub reason: Option<String>,
    pub hook_specific_output: Option<HookSpecificOutput>,
}

/// The answer of a hook callback.
#[derive(Debug, Clone)]
pub enum HookOutput {
    Async(AsyncHookOutput),
    Sync(SyncHookOutput),
}

/// A string member when there is a string.
pub open spec fn opt_string_member(o: Option<String>) -> Option<JsonValue> {
    match o {
        Some(s) => Some(JsonValue::String(s@)),
        None => None,
    }
}

/// A boolean member when there is a boolean.
pub open spec fn opt_bool_member(o: Option<bool>) -> Option<JsonValue> {
    match o {
        Some(b) => Some(JsonValue::Bool(b)),
        None => None,
    }
}

fn opt_string_json(o: &Option<String>) -> (r: Option<Json>)
    ensures
        opt_json_view(r) == opt_string_member(*o),
{
    match o {
        Some(s) => Some(Json::String(s.clone())),
        None => None,
    }
}

fn opt_bool_json(o: &Option<bool>) -> (r: Option<Json>)
    ensures
        opt_json_view(r) == opt_bool_member(*o),
{
    match o {
        Some(b) => Some(Json::Bool(*b)),
        None => None,
    }
}

impl PreToolUseHookSpecificOutput {
    /// The wire form: `hookEventName`, then each further field when there is one.
    pub open spec fn wire(&self) -> JsonValue {
        JsonValue::empty_object().with(
            "hookEventName"@,
            JsonValue::String(self.hook_event_name@),
        ).with_opt(
            "permissionDecision"@,
            match self.permission_decision {
                Some(b) => Some(JsonValue::String(b.wire_name())),
                None => None,
            },
        ).with_opt(
            "permissionDecisionReason"@,
            opt_string_member(self.permission_decision_reason),
        ).with_opt("updatedInput"@, opt_json_view(self.updated_input))
    }

    /// The wire form.
    pub fn to_json(&self) -> (r: Json)
        ensures
            r@ == self.wire(),
    {
        let mut o = Json::object();
        o.insert("hookEventName", Json::String(self.hook_event_name.clone()));
        match &self.permission_decision {
            Some(b) => o.insert("permissionDecision", Json::string(b.as_str())),
            None => {},
        }
        o.insert_opt("permissionDecisionReason", opt_string_json(&self.permission_decision_reason));
        match &self.updated_input {
            Some(input) => o.insert("updatedInput", input.clone()),
            None => {},
        }
        o
    }
}

/// The wire form of an answer part that holds a name and an optional context.
pub open spec fn context_output_wire(
    hook_event_name: Seq<char>,
    additional_context: Option<String>,
) -> JsonValue {
    JsonValue::empty_object().with("hookEventName"@, JsonValue::String(hook_event_name)).with_opt(
        "additionalContext"@,
        opt_string_member(additional_context),
    )
}

fn context_output_json(hook_event_name: &String, additional_context: &Option<String>) -> (r: Json)
    ensures
        r@ == context_output_wire(hook_event_name@, *additional_context),
{
    let mut o = Json::object();
    o.insert("hookEventName", Json::String(hook_event_name.clone()));
    o.insert_opt("additionalContext", opt_string_json(additional_context));
    o
}

impl HookSpecificOutput {
    /// The wire form: that of the part inside, with nothing around it.
    pub open spec fn wire(&self) -> JsonValue {
        match self {
            HookSpecificOutput::PreToolUse(o) => o.wire(),
            HookSpecificOutput::PostToolUse(o) => context_output_wire(
                o.hook_event_name@,
                o.additional_context,
            ),
            HookSpecificOutput::PostToolUseFailure(o) => context_output_wire(
                o.hook_event_name@,
                o.additional_context,
            ),
            HookSpecificOutput::UserPromptSubmit(o) => context_output_wire(
                o.hook_event_name@,
                o.additional_context,
            ),
        }
    }

    /// The wire form.
    pub fn to_json(&self) -> (r: Json)
        ensures
            r@ == self.wire(),
    {
        match self {
            HookSpecificOutput::PreToolUse(o) => o.to_json(),
            HookSpecificOutput::PostToolUse(o) => context_output_json(
                &o.hook_event_name,
                &o.additional_context,
            ),
            HookSpecificOutput::PostToolUseFailure(o) => context_output_json(
                &o.hook_event_name,
                &o.additional_context,
            ),
            HookSpecificOutput::UserPromptSubmit(o) => context_output_json(
                &o.hook_event_name,
                &o.additional_context,
            ),
        }
    }
}

impl AsyncHookOutput {
    /// The wire form: `async`, and `asyncTimeout` when there is one.
    pub open spec fn wire(&self) -> JsonValue {
        JsonValue::empty_object().with("async"@, JsonValue::Bool(self.async_)).with_opt(
            "asyncTimeout"@,
            match self.async_timeout {
                Some(t) => Some(JsonValue::of_u64(t)),
                None => None,
            },
        )
    }

    /// The wire form.
    pub fn to_json(&self) -> (r: Json)
        ensures
            r@ == self.wire(),
    {
        let mut o = Json::object();
        o.insert("async", Json::Bool(self.async_));
        match self.async_timeout {
            Some(t) => o.insert("asyncTimeout", Json::from_u64(t)),
            None => {},
        }
        o
    }
}

impl SyncHookOutput {
    /// The wire form: each field when there is one, `continue` first.
    pub open spec fn wire(&self) -> JsonValue {
        JsonValue::empty_object().with_opt("continue"@, opt_bool_member(self.continue_)).with_opt(
            "suppressOutput"@,
            opt_bool_member(self.suppress_output),
        ).with_opt("stopReason"@, opt_string_member(self.stop_reason)).with_opt(
            "decision"@,
            opt_string_member(self.decision),
        ).with_opt("systemMessage"@, opt_string_member(self.system_message)).with_opt(
            "reason"@,
            opt_string_member(self.reason),
        ).with_opt(
            "hookSpecificOutput"@,
            match self.hook_specific_output {
                Some(o) => Some(o.wire()),
                None => None,
            },
        )
    }

    /// The wire form.
    pub fn to_json(&self) -> (r: Json)
        ensures
            r@ == self.wire(),
    {
        let mut o = Json::object();
        o.insert_opt("continue", opt_bool_json(&self.continue_));
        o.insert_opt("suppressOutput", opt_bool_json(&self.suppress_output));
        o.insert_opt("stopReason", opt_string_json(&self.stop_reason));
        o.insert_opt("decision", opt_string_json(&self.decision));
        o.insert_opt("systemMessage", opt_string_json(&self.system_message));
        o.insert_opt("reason", opt_string_json(&self.reason));
        match &self.hook_specific_output {
            Some(specific) => o.insert("hookSpecificOutput", specific.to_json()),
            None => {},
        }
        o
    }
}

impl Default for SyncHookOutput {
    fn default() -> (r: Self)
        ensures
            r.continue_ is None,
            r.suppress_output is None,
            r.stop_reason is None,
            r.decision is None,
            r.system_message is None,
            r.reason is None,
            r.hook_specific_output is None,
    {
        SyncHookOutput {
            continue_: None,
            suppress_output: None,
            stop_reason: None,
            decision: None,
            system_message: None,
            reason: None,
            hook_specific_output: None,
        }
    }
}

impl HookOutput {
    /// The wire form: that of the answer inside, with nothing around it. The
    /// fields `async_` and `continue_` go by the names `async` and `continue`.
    pub open spec fn wire(&self) -> JsonValue {
        match self {
            HookOutput::Async(o) => o.wire(),
            HookOutput::Sync(o) => o.wire(),
        }
    }

    /// The wire form.
    pub fn to_json(&self) -> (r: Json)
        ensures
            r@ == self.wire(),
    {
        match self {
            HookOutput::Async(o) => o.to_json(),
            HookOutput::Sync(o) => o.to_json(),
        }
    }
}

impl Default for HookOutput {
    fn default() -> (r: Self)
        ensures
            r matches HookOutput::Sync(o) && o.continue_ is None && o.suppress_output is None
                && o.stop_reason is None && o.decision is None && o.system_message is None
                && o.reason is None && o.hook_specific_output is None,
    {
        HookOutput::Sync(SyncHookOutput::default())
    }
}

/// What a hook callback is told besides its input. It holds nothing yet.
#[derive(Debug, Clone, Copy, PartialEq, Eq, Structural)]
pub struct HookContext {}

impl Default for HookContext {
    fn default() -> (r: Self)
        ensures
            r == (HookContext {  }),
    {
        HookContext {  }
    }
}

/// A hook callback of a session. The callback itself lives with the caller, in
/// a list of its own; the session knows it by its place in that list.
#[derive(Debug, Clone, Copy, PartialEq, Eq, Structural)]
pub struct HookCallback {
    pub slot: usize,
}

/// The hooks that answer to one pattern.
#[derive(Debug)]
pub struct HookMatcher {
    /// What the peer matches against, such as a tool's name.
    pub matcher: Option<String>,
    /// The callbacks to call.
    pub hooks: Vec<HookCallback>,
    /// How long the peer waits for them: a JSON number of seconds.
    pub timeout: Option<Json>,
}

/// Mathematical model of [`HookMatcher`].
pub struct HookMatcherView {
    pub matcher: Option<Seq<char>>,
    pub hooks: Seq<HookCallback>,
    pub timeout: Option<JsonValue>,
}

impl View for HookMatcher {
    type V = HookMatcherView;

    open spec fn view(&self) -> HookMatcherView {
        HookMatcherView {
            matcher: opt_view(self.matcher),
            hooks: self.hooks@,
            timeout: opt_json_view(self.timeout),
        }
    }
}

impl Clone for HookMatcher {
    fn clone(&self) -> (r: Self)
        ensures
            r@ == self@,
    {
        let mut hooks: Vec<HookCallback> = Vec::new();
        let mut i: usize = 0;
        while i < self.hooks.len()
            invariant
                0 <= i <= self.hooks.len(),
                hooks@ == self.hooks@.subrange(0, i as int),
            decreases self.hooks.len() - i,
        {
            hooks.push(self.hooks[i]);
            proof {
                assert(hooks@ =~= self.hooks@.subrange(0, i as int + 1));
            }
            i += 1;
        }
        proof {
            assert(hooks@ =~= self.hooks@);
        }
        HookMatcher {
            matcher: match &self.matcher {
                Some(m) => Some(m.clone()),
                None => None,
            },
            hooks,
            timeout: match &self.timeout {
                Some(t) => Some(t.clone()),
                None => None,
            },
        }
    }
}

/// The hooks of a session as they stand in its options: by event, the
/// matchers of the event in order.
pub open spec fn hooks_view(hooks: Seq<(HookEvent, Vec<HookMatcher>)>) -> Seq<
    (HookEvent, Seq<HookMatcherView>),
> {
    Seq::new(hooks.len(), |i: int| (hooks[i].0, views(hooks[i].1@)))
}

/// A copy of the hooks of a session.
pub fn clone_hooks(hooks: &Vec<(HookEvent, Vec<HookMatcher>)>) -> (r: Vec<
    (HookEvent, Vec<HookMatcher>),
>)
    ensures
        hooks_view(r@) == hooks_view(hooks@),
{
    let mut out: Vec<(HookEvent, Vec<HookMatcher>)> = Vec::new();
    let mut i: usize = 0;
    while i < hooks.len()
        invariant
            0 <= i <= hooks.len(),
            out@.len() == i,
            forall|k: int|
                0 <= k < i ==> (#[trigger] out@[k]).0 == hooks@[k].0 && views(out@[k].1@) == views(
                    hooks@[k].1@,
                ),
        decreases hooks.len() - i,
    {
        let matchers = &hooks[i].1;
        let mut copies: Vec<HookMatcher> = Vec::new();
        let mut j: usize = 0;
        while j < matchers.len()
            invariant
                0 <= j <= matchers.len(),
                copies@.len() == j,
                forall|k: int| 0 <= k < j ==> (#[trigger] copies@[k])@ == matchers@[k]@,
            decreases matchers.len() - j,
        {
            copies.push(matchers[j].clone());
            j += 1;
        }
        proof {
            assert(views(copies@) =~= views(matchers@));
        }
        out.push((hooks[i].0, copies));
        i += 1;
    }
    proof {
        assert(hooks_view(out@) =~= hooks_view(hooks@));
    }
    out
}

impl Default for HookMatcher {
    fn default() -> (r: Self)
        ensures
            r.matcher is None,
            r.hooks@ == Seq::<HookCallback>::empty(),
            r.timeout is None,
    {
        HookMatcher { matcher: None, hooks: Vec::new(), timeout: None }
    }
}

} // verus!
