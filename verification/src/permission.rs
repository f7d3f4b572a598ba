//! Permission modes, permission updates, and what a tool-permission callback
//! is given and answers, with their wire forms.

use crate::json::{items_view, opt_json_view, Json, JsonValue};
use crate::text::{opt_model, opt_view, opt_views, str_eq, views};
use vstd::prelude::*;
use vstd::string::StringExecFns;

verus! {

/// How the peer handles tool permissions.
#[derive(Debug, Clone, Copy, PartialEq, Eq, Structural)]
pub enum PermissionMode {
    /// Asks for permission on sensitive operations.
    Default,
    /// Accepts all file edits.
    AcceptEdits,
    /// Plans without executing.
    Plan,
    /// Checks nothing.
    BypassPermissions,
}

/// What is allowed of a tool.
#[derive(Debug, Clone, Copy, PartialEq, Eq, Structural)]
pub enum PermissionBehavior {
    Allow,
    Deny,
    Ask,
}

/// Where a permission update is stored.
#[derive(Debug, Clone, Copy, PartialEq, Eq, Structural)]
pub enum PermissionUpdateDestination {
    UserSettings,
    ProjectSettings,
    LocalSettings,
    Session,
}

/// What a permission update does.
#[derive(Debug, Clone, Copy, PartialEq, Eq, Structural)]
pub enum PermissionUpdateType {
    AddRules,
    ReplaceRules,
    RemoveRules,
    SetMode,
    AddDirectories,
    RemoveDirectories,
}

impl PermissionMode {
    /// The name of the mode on the wire and on the command line.
    pub open spec fn wire_name(self) -> Seq<char> {
        match self {
            PermissionMode::Default => "default"@,
            PermissionMode::AcceptEdits => "acceptEdits"@,
            PermissionMode::Plan => "plan"@,
            PermissionMode::BypassPermissions => "bypassPermissions"@,
        }
    }

    /// The mode of that name.
    pub open spec fn from_wire(name: Seq<char>) -> Option<PermissionMode> {
        if name == "default"@ {
            Some(PermissionMode::Default)
        } else if name == "acceptEdits"@ {
            Some(PermissionMode::AcceptEdits)
        } else if name == "plan"@ {
            Some(PermissionMode::Plan)
        } else if name == "bypassPermissions"@ {
            Some(PermissionMode::BypassPermissions)
        } else {
            None
        }
    }

    /// The name of the mode on the wire and on the command line.
    pub fn as_str(&self) -> (r: &'static str)
        ensures
            r@ == self.wire_name(),
    {
        match self {
            PermissionMode::Default => "default",
            PermissionMode::AcceptEdits => "acceptEdits",
            PermissionMode::Plan => "plan",
            PermissionMode::BypassPermissions => "bypassPermissions",
        }
    }

    /// The mode of that name.
    pub fn parse(name: &str) -> (r: Option<PermissionMode>)
        ensures
            r == Self::from_wire(name@),
    {
        if str_eq(name, "default") {
            Some(PermissionMode::Default)
        } else if str_eq(name, "acceptEdits") {
            Some(PermissionMode::AcceptEdits)
        } else if str_eq(name, "plan") {
            Some(PermissionMode::Plan)
        } else if str_eq(name, "bypassPermissions") {
            Some(PermissionMode::BypassPermissions)
        } else {
            None
        }
    }
}

impl Default for PermissionMode {
    fn default() -> (r: Self)
        ensures
            r == PermissionMode::Default,
    {
        PermissionMode::Default
    }
}

impl PermissionBehavior {
    /// The name on the wire.
    pub open spec fn wire_name(self) -> Seq<char> {
        match self {
            PermissionBehavior::Allow => "allow"@,
            PermissionBehavior::Deny => "deny"@,
            PermissionBehavior::Ask => "ask"@,
        }
    }

    /// The value that a wire name stands for.
    pub open spec fn from_wire(name: Seq<char>) -> Option<PermissionBehavior> {
        if name == "allow"@ {
            Some(PermissionBehavior::Allow)
        } else if name == "deny"@ {
            Some(PermissionBehavior::Deny)
        } else if name == "ask"@ {
            Some(PermissionBehavior::Ask)
        } else {
            None
        }
    }

    /// The name on the wire.
    pub fn as_str(&self) -> (r: &'static str)
        ensures
            r@ == self.wire_name(),
    {
        match self {
            PermissionBehavior::Allow => "allow",
            PermissionBehavior::Deny => "deny",
            PermissionBehavior::Ask => "ask",
        }
    }

    /// The value that a wire name stands for, if it is one.
    pub fn parse(name: &str) -> (r: Option<PermissionBehavior>)
        ensures
            r == Self::from_wire(name@),
    {
        if str_eq(name, "allow") {
            Some(PermissionBehavior::Allow)
        } else if str_eq(name, "deny") {
            Some(PermissionBehavior::Deny)
        } else if str_eq(name, "ask") {
            Some(PermissionBehavior::Ask)
        } else {
            None
        }
    }
}

impl PermissionUpdateDestination {
    /// The name on the wire.
    pub open spec fn wire_name(self) -> Seq<char> {
        match self {
            PermissionUpdateDestination::UserSettings => "userSettings"@,
            PermissionUpdateDestination::ProjectSettings => "projectSettings"@,
            PermissionUpdateDestination::LocalSettings => "localSettings"@,
            PermissionUpdateDestination::Session => "session"@,
        }
    }

    /// The value that a wire name stands for.
    pub open spec fn from_wire(name: Seq<char>) -> Option<PermissionUpdateDestination> {
        if name == "userSettings"@ {
            Some(PermissionUpdateDestination::UserSettings)
        } else if name == "projectSettings"@ {
            Some(PermissionUpdateDestination::ProjectSettings)
        } else if name == "localSettings"@ {
            Some(PermissionUpdateDestination::LocalSettings)
        } else if name == "session"@ {
            Some(PermissionUpdateDestination::Session)
        } else {
            None
        }
    }

    /// The name on the wire.
    pub fn as_str(&self) -> (r: &'static str)
        ensures
            r@ == self.wire_name(),
    {
        match self {
            PermissionUpdateDestination::UserSettings => "userSettings",
            PermissionUpdateDestination::ProjectSettings => "projectSettings",
            PermissionUpdateDestination::LocalSettings => "localSettings",
            PermissionUpdateDestination::Session => "session",
        }
    }

    /// The value that a wire name stands for, if it is one.
    pub fn parse(name: &str) -> (r: Option<PermissionUpdateDestination>)
        ensures
            r == Self::from_wire(name@),
    {
        if str_eq(name, "userSettings") {
            Some(PermissionUpdateDestination::UserSettings)
        } else if str_eq(name, "projectSettings") {
            Some(PermissionUpdateDestination::ProjectSettings)
        } else if str_eq(name, "localSettings") {
            Some(PermissionUpdateDestination::LocalSettings)
        } else if str_eq(name, "session") {
            Some(PermissionUpdateDestination::Session)
        } else {
            None
        }
    }
}

impl PermissionUpdateType {
    /// The name on the wire.
    pub open spec fn wire_name(self) -> Seq<char> {
        match self {
            PermissionUpdateType::AddRules => "addRules"@,
            PermissionUpdateType::ReplaceRules => "replaceRules"@,
            PermissionUpdateType::RemoveRules => "removeRules"@,
            PermissionUpdateType::SetMode => "setMode"@,
            PermissionUpdateType::AddDirectories => "addDirectories"@,
            PermissionUpdateType::RemoveDirectories => "removeDirectories"@,
        }
    }

    /// The value that a wire name stands for.
    pub open spec fn from_wire(name: Seq<char>) -> Option<PermissionUpdateType> {
        if name == "addRules"@ {
            Some(PermissionUpdateType::AddRules)
        } else if name == "replaceRules"@ {
            Some(PermissionUpdateType::ReplaceRules)
        } else if name == "removeRules"@ {
            Some(PermissionUpdateType::RemoveRules)
        } else if name == "setMode"@ {
            Some(PermissionUpdateType::SetMode)
        } else if name == "addDirectories"@ {
            Some(PermissionUpdateType::AddDirectories)
        } else if name == "removeDirectories"@ {
            Some(PermissionUpdateType::RemoveDirectories)
        } else {
            None
        }
    }

    /// The name on the wire.
    pub fn as_str(&self) -> (r: &'static str)
        ensures
            r@ == self.wire_name(),
    {
        match self {
            PermissionUpdateType::AddRules => "addRules",
            PermissionUpdateType::ReplaceRules => "replaceRules",
            PermissionUpdateType::RemoveRules => "removeRules",
            PermissionUpdateType::SetMode => "setMode",
            PermissionUpdateType::AddDirectories => "addDirectories",
            PermissionUpdateType::RemoveDirectories => "removeDirectories",
        }
    }

    /// The value that a wire name stands for, if it is one.
    pub fn parse(name: &str) -> (r: Option<PermissionUpdateType>)
        ensures
            r == Self::from_wire(name@),
    {
        if str_eq(name, "addRules") {
            Some(PermissionUpdateType::AddRules)
        } else if str_eq(name, "replaceRules") {
            Some(PermissionUpdateType::ReplaceRules)
        } else if str_eq(name, "removeRules") {
            Some(PermissionUpdateType::RemoveRules)
        } else if str_eq(name, "setMode") {
            Some(PermissionUpdateType::SetMode)
        } else if str_eq(name, "addDirectories") {
            Some(PermissionUpdateType::AddDirectories)
        } else if str_eq(name, "removeDirectories") {
            Some(PermissionUpdateType::RemoveDirectories)
        } else {
            None
        }
    }
}

/// A permission rule: a tool, and optionally what of it.
#[derive(Debug, Clone)]
pub struct PermissionRuleValue {
    pub tool_name: String,
    pub rule_content: Option<String>,
}

/// Mathematical model of [`PermissionRuleValue`].
pub struct PermissionRuleValueView {
    pub tool_name: Seq<char>,
    pub rule_content: Option<Seq<char>>,
}

impl View for PermissionRuleValue {
    type V = PermissionRuleValueView;

    open spec fn view(&self) -> PermissionRuleValueView {
        PermissionRuleValueView {
            tool_name: self.tool_name@,
            rule_content: opt_view(self.rule_content),
        }
    }
}

/// A change to the permission settings.
#[derive(Debug, Clone)]
pub struct PermissionUpdate {
    pub update_type: PermissionUpdateType,
    pub rules: Option<Vec<PermissionRuleValue>>,
    pub behavior: Option<PermissionBehavior>,
    pub mode: Option<PermissionMode>,
    pub directories: Option<Vec<String>>,
    pub destination: Option<PermissionUpdateDestination>,
}

/// Mathematical model of [`PermissionUpdate`].
pub struct PermissionUpdateView {
    pub update_type: PermissionUpdateType,
    pub rules: Option<Seq<PermissionRuleValueView>>,
    pub behavior: Option<PermissionBehavior>,
    pub mode: Option<PermissionMode>,
    pub directories: Option<Seq<Seq<char>>>,
    pub destination: Option<PermissionUpdateDestination>,
}

impl View for PermissionUpdate {
    type V = PermissionUpdateView;

    open spec fn view(&self) -> PermissionUpdateView {
        PermissionUpdateView {
            update_type: self.update_type,
            rules: opt_views(self.rules),
            behavior: self.behavior,
            mode: self.mode,
            directories: opt_views(self.directories),
            destination: self.destination,
        }
    }
}

/// All the items as strings; nothing where one of them is no string.
pub open spec fn all_strings(items: Seq<JsonValue>) -> Option<Seq<Seq<char>>> {
    if forall|i: int| 0 <= i < items.len() ==> (#[trigger] items[i]) is String {
        Some(Seq::new(items.len(), |i: int| items[i]->String_0))
    } else {
        None
    }
}

/// All the items as permission rules; nothing where one of them is none.
pub open spec fn all_rules(items: Seq<JsonValue>) -> Option<Seq<PermissionRuleValueView>> {
    if forall|i: int|
        0 <= i < items.len() ==> PermissionRuleValueView::from_json(#[trigger] items[i]) is Some {
        Some(Seq::new(items.len(), |i: int| PermissionRuleValueView::from_json(items[i])->0))
    } else {
        None
    }
}

/// An optional member that names one of a closed set: absent and `null` stand
/// for nothing; a string must be one of the names. `known` reads a name.
pub open spec fn opt_named_field<T>(
    v: JsonValue,
    key: Seq<char>,
    known: spec_fn(Seq<char>) -> Option<T>,
) -> Option<Option<T>> {
    match v.opt_str_field(key) {
        Some(Some(name)) => match known(name) {
            Some(x) => Some(Some(x)),
            None => None,
        },
        Some(None) => Some(None),
        None => None,
    }
}

impl PermissionRuleValueView {
    /// The wire form: `toolName`, and `ruleContent` when there is one.
    pub open spec fn to_json(self) -> JsonValue {
        JsonValue::empty_object().with("toolName"@, JsonValue::String(self.tool_name)).with_opt(
            "ruleContent"@,
            match self.rule_content {
                Some(s) => Some(JsonValue::String(s)),
                None => None,
            },
        )
    }

    /// Reads the wire form.
    pub open spec fn from_json(v: JsonValue) -> Option<PermissionRuleValueView> {
        match (v.get_str("toolName"@), v.opt_str_field("ruleContent"@)) {
            (Some(tool_name), Some(rule_content)) => Some(
                PermissionRuleValueView { tool_name, rule_content },
            ),
            _ => None,
        }
    }
}

impl PermissionUpdateView {
    /// The wire form: `type`, and each further field when there is one.
    pub open spec fn to_json(self) -> JsonValue {
        JsonValue::empty_object().with(
            "type"@,
            JsonValue::String(self.update_type.wire_name()),
        ).with_opt(
            "rules"@,
            match self.rules {
                Some(rules) => Some(
                    JsonValue::Array(Seq::new(rules.len(), |i: int| rules[i].to_json())),
                ),
                None => None,
            },
        ).with_opt(
            "behavior"@,
            match self.behavior {
                Some(b) => Some(JsonValue::String(b.wire_name())),
                None => None,
            },
        ).with_opt(
            "mode"@,
            match self.mode {
                Some(m) => Some(JsonValue::String(m.wire_name())),
                None => None,
            },
        ).with_opt(
            "directories"@,
            match self.directories {
                Some(d) => Some(JsonValue::of_strings(d)),
                None => None,
            },
        ).with_opt(
            "destination"@,
            match self.destination {
                Some(d) => Some(JsonValue::String(d.wire_name())),
                None => None,
            },
        )
    }

    /// Reads the wire form: `type` must name a kind of update; each further
    /// field may be absent or `null`, and must be well formed where it is there.
    pub open spec fn from_json(v: JsonValue) -> Option<PermissionUpdateView> {
        let update_type = match v.get_str("type"@) {
            Some(name) => PermissionUpdateType::from_wire(name),
            None => None,
        };
        let rules = match v.opt_array_field("rules"@) {
            Some(Some(items)) => match all_rules(items) {
                Some(rules) => Some(Some(rules)),
                None => None,
            },
            Some(None) => Some(None),
            None => None,
        };
        let behavior = opt_named_field(
            v,
            "behavior"@,
            |name: Seq<char>| PermissionBehavior::from_wire(name),
        );
        let mode = opt_named_field(v, "mode"@, |name: Seq<char>| PermissionMode::from_wire(name));
        let directories = match v.opt_array_field("directories"@) {
            Some(Some(items)) => match all_strings(items) {
                Some(d) => Some(Some(d)),
                None => None,
            },
            Some(None) => Some(None),
            None => None,
        };
        let destination = opt_named_field(
            v,
            "destination"@,
            |name: Seq<char>| PermissionUpdateDestination::from_wire(name),
        );
        match (update_type, rules, behavior, mode, directories, destination) {
            (
                Some(update_type),
                Some(rules),
                Some(behavior),
                Some(mode),
                Some(directories),
                Some(destination),
            ) => Some(
                PermissionUpdateView { update_type, rules, behavior, mode, directories, destination },
            ),
            _ => None,
        }
    }
}

/// The suggestions that can be read, in order; those that cannot are left out.
pub open spec fn readable_updates(items: Seq<JsonValue>) -> Seq<PermissionUpdateView>
    decreases items.len(),
{
    if items.len() == 0 {
        Seq::empty()
    } else {
        let rest = readable_updates(items.drop_last());
        match PermissionUpdateView::from_json(items.last()) {
            Some(u) => rest.push(u),
            None => rest,
        }
    }
}

/// The wire form of a list of updates.
pub open spec fn updates_wire(updates: Seq<PermissionUpdateView>) -> JsonValue {
    JsonValue::Array(Seq::new(updates.len(), |i: int| updates[i].to_json()))
}

/// All the items as strings of their own.
fn strings_from(items: &Vec<Json>) -> (r: Option<Vec<String>>)
    ensures
        opt_views(r) == all_strings(items_view(items@)),
{
    let mut out: Vec<String> = Vec::new();
    let mut i: usize = 0;
    while i < items.len()
        invariant
            0 <= i <= items.len(),
            out@.len() == i,
            forall|k: int| 0 <= k < i ==> (#[trigger] items_view(items@)[k]) is String,
            forall|k: int| 0 <= k < i ==> (#[trigger] out@[k])@ == items_view(items@)[k]->String_0,
        decreases items.len() - i,
    {
        match &items[i] {
            Json::String(s) => {
                out.push(s.clone());
            },
            _ => {
                assert(!(items_view(items@)[i as int] is String));
                return None;
            },
        }
        i += 1;
    }
    proof {
        assert(views(out@) =~= all_strings(items_view(items@))->0);
    }
    Some(out)
}

impl PermissionRuleValue {
    /// The wire form of the rule.
    pub fn to_json(&self) -> (r: Json)
        ensures
            r@ == self@.to_json(),
    {
        let mut o = Json::object();
        o.insert("toolName", Json::String(self.tool_name.clone()));
        match &self.rule_content {
            Some(s) => o.insert("ruleContent", Json::String(s.clone())),
            None => {},
        }
        o
    }

    /// Reads the wire form of a rule.
    pub fn from_json(v: &Json) -> (r: Option<PermissionRuleValue>)
        ensures
            opt_model(r) == PermissionRuleValueView::from_json(v@),
    {
        let tool_name = v.get_string("toolName");
        let rule_content = v.opt_str_field("ruleContent");
        match (tool_name, rule_content) {
            (Some(tool_name), Some(rule_content)) => Some(
                PermissionRuleValue { tool_name, rule_content },
            ),
            _ => None,
        }
    }
}

/// All the items as permission rules.
fn rules_from(items: &Vec<Json>) -> (r: Option<Vec<PermissionRuleValue>>)
    ensures
        opt_views(r) == all_rules(items_view(items@)),
{
    let mut out: Vec<PermissionRuleValue> = Vec::new();
    let mut i: usize = 0;
    while i < items.len()
        invariant
            0 <= i <= items.len(),
            out@.len() == i,
            forall|k: int|
                0 <= k < i ==> PermissionRuleValueView::from_json(
                    #[trigger] items_view(items@)[k],
                ) is Some,
            forall|k: int|
                0 <= k < i ==> (#[trigger] out@[k])@ == PermissionRuleValueView::from_json(
                    items_view(items@)[k],
                )->0,
        decreases items.len() - i,
    {
        match PermissionRuleValue::from_json(&items[i]) {
            Some(rule) => {
                out.push(rule);
            },
            None => {
                assert(PermissionRuleValueView::from_json(items_view(items@)[i as int]) is None);
                return None;
            },
        }
        i += 1;
    }
    proof {
        assert(views(out@) =~= all_rules(items_view(items@))->0);
    }
    Some(out)
}

/// The wire form of a list of rules.
fn rules_to_json(rules: &Vec<PermissionRuleValue>) -> (r: Json)
    ensures
        r@ == JsonValue::Array(Seq::new(views(rules@).len(), |i: int| views(rules@)[i].to_json())),
{
    let mut out: Vec<Json> = Vec::new();
    let mut i: usize = 0;
    while i < rules.len()
        invariant
            0 <= i <= rules.len(),
            out@.len() == i,
            forall|k: int| 0 <= k < i ==> (#[trigger] out@[k])@ == rules@[k]@.to_json(),
        decreases rules.len() - i,
    {
        out.push(rules[i].to_json());
        i += 1;
    }
    proof {
        assert(items_view(out@) =~= Seq::new(
            views(rules@).len(),
            |i: int| views(rules@)[i].to_json(),
        ));
    }
    Json::Array(out)
}

impl PermissionUpdate {
    /// The wire form of the update.
    pub fn to_json(&self) -> (r: Json)
        ensures
            r@ == self@.to_json(),
    {
        let mut o = Json::object();
        o.insert("type", Json::string(self.update_type.as_str()));
        match &self.rules {
            Some(rules) => o.insert("rules", rules_to_json(rules)),
            None => {},
        }
        match &self.behavior {
            Some(b) => o.insert("behavior", Json::string(b.as_str())),
            None => {},
        }
        match &self.mode {
            Some(m) => o.insert("mode", Json::string(m.as_str())),
            None => {},
        }
        match &self.directories {
            Some(d) => o.insert("directories", Json::of_strings(d)),
            None => {},
        }
        match &self.destination {
            Some(d) => o.insert("destination", Json::string(d.as_str())),
            None => {},
        }
        o
    }

    /// Reads the wire form of an update.
    pub fn from_json(v: &Json) -> (r: Option<PermissionUpdate>)
        ensures
            opt_model(r) == PermissionUpdateView::from_json(v@),
    {
        let update_type = match v.get_str("type") {
            Some(name) => PermissionUpdateType::parse(name),
            None => None,
        };
        let rules = match v.opt_array_field("rules") {
            Some(Some(items)) => match rules_from(&items) {
                Some(rules) => Some(Some(rules)),
                None => None,
            },
            Some(None) => Some(None),
            None => None,
        };
        let behavior = match v.opt_str_field("behavior") {
            Some(Some(name)) => match PermissionBehavior::parse(name.as_str()) {
                Some(b) => Some(Some(b)),
                None => None,
            },
            Some(None) => Some(None),
            None => None,
        };
        let mode = match v.opt_str_field("mode") {
            Some(Some(name)) => match PermissionMode::parse(name.as_str()) {
                Some(m) => Some(Some(m)),
                None => None,
            },
            Some(None) => Some(None),
            None => None,
        };
        let directories = match v.opt_array_field("directories") {
            Some(Some(items)) => match strings_from(&items) {
                Some(d) => Some(Some(d)),
                None => None,
            },
            Some(None) => Some(None),
            None => None,
        };
        let destination = match v.opt_str_field("destination") {
            Some(Some(name)) => match PermissionUpdateDestination::parse(name.as_str()) {
                Some(d) => Some(Some(d)),
                None => None,
            },
            Some(None) => Some(None),
            None => None,
        };
        match (update_type, rules, behavior, mode, directories, destination) {
            (
                Some(update_type),
                Some(rules),
                Some(behavior),
                Some(mode),
                Some(directories),
                Some(destination),
            ) => Some(
                PermissionUpdate { update_type, rules, behavior, mode, directories, destination },
            ),
            _ => None,
        }
    }
}

/// The wire form of a list of updates.
pub fn updates_to_json(updates: &Vec<PermissionUpdate>) -> (r: Json)
    ensures
        r@ == updates_wire(views(updates@)),
{
    let mut out: Vec<Json> = Vec::new();
    let mut i: usize = 0;
    while i < updates.len()
        invariant
            0 <= i <= updates.len(),
            out@.len() == i,
            forall|k: int| 0 <= k < i ==> (#[trigger] out@[k])@ == updates@[k]@.to_json(),
        decreases updates.len() - i,
    {
        out.push(updates[i].to_json());
        i += 1;
    }
    proof {
        assert(items_view(out@) =~= Seq::new(
            views(updates@).len(),
            |i: int| views(updates@)[i].to_json(),
        ));
    }
    Json::Array(out)
}

/// What a tool-permission callback is told besides the tool and its input.
#[derive(Debug, Clone)]
pub struct ToolPermissionContext {
    /// The permission updates that the peer suggests.
    pub suggestions: Vec<PermissionUpdate>,
}

impl View for ToolPermissionContext {
    type V = Seq<PermissionUpdateView>;

    open spec fn view(&self) -> Seq<PermissionUpdateView> {
        views(self.suggestions@)
    }
}

impl Default for ToolPermissionContext {
    fn default() -> (r: Self)
        ensures
            r@ == Seq::<PermissionUpdateView>::empty(),
    {
        let r = ToolPermissionContext { suggestions: Vec::new() };
        proof {
            assert(r@ =~= Seq::<PermissionUpdateView>::empty());
        }
        r
    }
}

impl ToolPermissionContext {
    /// The context of a request: the suggestions that can be read, in order.
    /// A suggestion that cannot be read is left out.
    pub fn from_suggestions(suggestions: &Option<Vec<Json>>) -> (r: Self)
        ensures
            r@ == match *suggestions {
                Some(items) => readable_updates(items_view(items@)),
                None => Seq::empty(),
            },
    {
        let mut out: Vec<PermissionUpdate> = Vec::new();
        match suggestions {
            Some(items) => {
                let mut i: usize = 0;
                proof {
                    assert(items_view(items@).subrange(0, 0) =~= Seq::empty());
                    assert(views(out@) =~= Seq::empty());
                }
                while i < items.len()
                    invariant
                        0 <= i <= items.len(),
                        views(out@) == readable_updates(items_view(items@).subrange(0, i as int)),
                    decreases items.len() - i,
                {
                    let ghost before = out@;
                    proof {
                        let t = items_view(items@).subrange(0, i as int + 1);
                        assert(t.drop_last() =~= items_view(items@).subrange(0, i as int));
                        assert(t.last() == items@[i as int]@);
                    }
                    match PermissionUpdate::from_json(&items[i]) {
                        Some(update) => {
                            out.push(update);
                            proof {
                                assert(views(out@) =~= views(before).push(update@));
                            }
                        },
                        None => {},
                    }
                    i += 1;
                }
                proof {
                    assert(items_view(items@).subrange(0, items.len() as int) =~= items_view(
                        items@,
                    ));
                }
            },
            None => {
                proof {
                    assert(views(out@) =~= Seq::empty());
                }
            },
        }
        ToolPermissionContext { suggestions: out }
    }
}

/// The answer that allows the tool.
#[derive(Debug, Clone)]
pub struct PermissionResultAllow {
    /// Always `allow`.
    pub behavior: String,
    /// The input to use in place of the one asked about.
    pub updated_input: Option<Json>,
    /// Permission updates to apply.
    pub updated_permissions: Option<Vec<PermissionUpdate>>,
}

/// The answer that denies the tool.
#[derive(Debug, Clone)]
pub struct PermissionResultDeny {
    /// Always `deny`.
    pub behavior: String,
    /// Why the tool is denied.
    pub message: String,
    /// Whether to interrupt the run as well.
    pub interrupt: bool,
}

/// The answer of a tool-permission callback.
#[derive(Debug, Clone)]
pub enum PermissionResult {
    Allow(PermissionResultAllow),
    Deny(PermissionResultDeny),
}

impl PermissionResultAllow {
    /// The wire form: `behavior`, then `updatedInput` and `updatedPermissions`
    /// when there are any.
    pub open spec fn wire(&self) -> JsonValue {
        JsonValue::empty_object().with("behavior"@, JsonValue::String(self.behavior@)).with_opt(
            "updatedInput"@,
            opt_json_view(self.updated_input),
        ).with_opt(
            "updatedPermissions"@,
            match self.updated_permissions {
                Some(updates) => Some(updates_wire(views(updates@))),
                None => None,
            },
        )
    }

    /// An answer that allows the tool as it was asked for.
    pub fn new() -> (r: Self)
        ensures
            r.behavior@ == "allow"@,
            r.updated_input is None,
            r.updated_permissions is None,
    {
        PermissionResultAllow {
            behavior: String::from_str("allow"),
            updated_input: None,
            updated_permissions: None,
        }
    }

    /// An answer that allows the tool with another input.
    pub fn with_updated_input(input: Json) -> (r: Self)
        ensures
            r.behavior@ == "allow"@,
            r.updated_input == Some(input),
            r.updated_permissions is None,
    {
        PermissionResultAllow {
            behavior: String::from_str("allow"),
            updated_input: Some(input),
            updated_permissions: None,
        }
    }

    /// The wire form of the answer.
    pub fn to_json(&self) -> (r: Json)
        ensures
            r@ == self.wire(),
    {
        let mut o = Json::object();
        o.insert("behavior", Json::String(self.behavior.clone()));
        match &self.updated_input {
            Some(input) => o.insert("updatedInput", input.clone()),
            None => {},
        }
        match &self.updated_permissions {
            Some(updates) => o.insert("updatedPermissions", updates_to_json(updates)),
            None => {},
        }
        o
    }
}

impl Default for PermissionResultAllow {
    fn default() -> (r: Self)
        ensures
            r.behavior@ == "allow"@,
            r.updated_input is None,
            r.updated_permissions is None,
    {
        PermissionResultAllow::new()
    }
}

impl PermissionResultDeny {
    /// The wire form: `behavior`, `message` and `interrupt`.
    pub open spec fn wire(&self) -> JsonValue {
        JsonValue::empty_object().with("behavior"@, JsonValue::String(self.behavior@)).with(
            "message"@,
            JsonValue::String(self.message@),
        ).with("interrupt"@, JsonValue::Bool(self.interrupt))
    }

    /// An answer that denies the tool without a word.
    pub fn new() -> (r: Self)
        ensures
            r.behavior@ == "deny"@,
            r.message@ == Seq::<char>::empty(),
            !r.interrupt,
    {
        PermissionResultDeny {
            behavior: String::from_str("deny"),
            message: String::new(),
            interrupt: false,
        }
    }

    /// An answer that denies the tool and says why.
    pub fn with_message(message: &str) -> (r: Self)
        ensures
            r.behavior@ == "deny"@,
            r.message@ == message@,
            !r.interrupt,
    {
        PermissionResultDeny {
            behavior: String::from_str("deny"),
            message: String::from_str(message),
            interrupt: false,
        }
    }

    /// An answer that denies the tool, says why, and interrupts the run.
    pub fn with_interrupt(message: &str) -> (r: Self)
        ensures
            r.behavior@ == "deny"@,
            r.message@ == message@,
            r.interrupt,
    {
        PermissionResultDeny {
            behavior: String::from_str("deny"),
            message: String::from_str(message),
            interrupt: true,
        }
    }

    /// The wire form of the answer.
    pub fn to_json(&self) -> (r: Json)
        ensures
            r@ == self.wire(),
    {
        let mut o = Json::object();
        o.insert("behavior", Json::String(self.behavior.clone()));
        o.insert("message", Json::String(self.message.clone()));
        o.insert("interrupt", Json::Bool(self.interrupt));
        o
    }
}

impl Default for PermissionResultDeny {
    fn default() -> (r: Self)
        ensures
            r.behavior@ == "deny"@,
            r.message@ == Seq::<char>::empty(),
            !r.interrupt,
    {
        PermissionResultDeny::new()
    }
}

impl PermissionResult {
    /// The wire form: that of the answer inside, with nothing around it.
    pub open spec fn wire(&self) -> JsonValue {
        match self {
            PermissionResult::Allow(a) => a.wire(),
            PermissionResult::Deny(d) => d.wire(),
        }
    }

    /// The answer that allows the tool as it was asked for.
    pub fn allow() -> (r: Self)
        ensures
            r matches PermissionResult::Allow(a) && a.behavior@ == "allow"@ && a.updated_input
                is None && a.updated_permissions is None,
    {
        PermissionResult::Allow(PermissionResultAllow::new())
    }

    /// The answer that denies the tool without a word.
    pub fn deny() -> (r: Self)
        ensures
            r matches PermissionResult::Deny(d) && d.behavior@ == "deny"@ && d.message@
                == Seq::<char>::empty() && !d.interrupt,
    {
        PermissionResult::Deny(PermissionResultDeny::new())
    }

    /// The answer that denies the tool and says why.
    pub fn deny_with_message(message: &str) -> (r: Self)
        ensures
            r matches PermissionResult::Deny(d) && d.behavior@ == "deny"@ && d.message@ == message@
                && !d.interrupt,
    {
        PermissionResult::Deny(PermissionResultDeny::with_message(message))
    }

    /// The wire form of the answer.
    pub fn to_json(&self) -> (r: Json)
        ensures
            r@ == self.wire(),
    {
        match self {
            PermissionResult::Allow(a) => a.to_json(),
            PermissionResult::Deny(d) => d.to_json(),
        }
    }
}

/// The answer given where no tool-permission callback is registered: allow.
pub open spec fn default_allow() -> JsonValue {
    JsonValue::empty_object().with("behavior"@, JsonValue::String("allow"@))
}

/// The tool-permission callback of a session. The callback itself lives with
/// the caller; the session only needs to know that there is one.
#[derive(Debug, Clone, Copy, PartialEq, Eq, Structural)]
pub struct CanUseTool {}

} // verus!
