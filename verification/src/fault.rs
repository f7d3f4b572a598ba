//! Why a document could not be read as a record: the first member that is
//! missing or of the wrong type, in words.

use crate::json::{Json, JsonValue};
use crate::text::opt_view;
use vstd::prelude::*;
use vstd::string::StringExecFns;

verus! {

/// What a member of a record must be.
#[derive(Debug, Clone, Copy, PartialEq, Eq, Structural)]
pub enum FieldKind {
    /// Any document; the member must be there.
    Any,
    /// A string; the member must be there.
    Str,
    /// A boolean; the member must be there.
    Bool,
    /// A string; the member may be absent or `null`.
    OptStr,
    /// A boolean; the member may be absent or `null`.
    OptBool,
    /// An array; the member may be absent or `null`.
    OptArray,
}

impl FieldKind {
    /// The kind in words.
    pub open spec fn wire_name(self) -> Seq<char> {
        match self {
            FieldKind::Any => "a value"@,
            FieldKind::Str => "a string"@,
            FieldKind::Bool => "a boolean"@,
            FieldKind::OptStr => "a string or null"@,
            FieldKind::OptBool => "a boolean or null"@,
            FieldKind::OptArray => "an array or null"@,
        }
    }

    /// The kind in words.
    pub fn as_str(&self) -> (r: &'static str)
        ensures
            r@ == self.wire_name(),
    {
        match self {
            FieldKind::Any => "a value",
            FieldKind::Str => "a string",
            FieldKind::Bool => "a boolean",
            FieldKind::OptStr => "a string or null",
            FieldKind::OptBool => "a boolean or null",
            FieldKind::OptArray => "an array or null",
        }
    }
}

/// Whether the document holds the member as the kind asks.
pub open spec fn field_ok(v: JsonValue, name: Seq<char>, kind: FieldKind) -> bool {
    match kind {
        FieldKind::Any => v.get(name) is Some,
        FieldKind::Str => v.get_str(name) is Some,
        FieldKind::Bool => v.get_bool(name) is Some,
        FieldKind::OptStr => v.opt_str_field(name) is Some,
        FieldKind::OptBool => v.opt_bool_field(name) is Some,
        FieldKind::OptArray => v.opt_array_field(name) is Some,
    }
}

/// The words for a member that is not there.
pub open spec fn missing_field(name: Seq<char>) -> Seq<char> {
    "missing field `"@ + name + "`"@
}

/// The words for a member that is there and is of the wrong type.
pub open spec fn invalid_field(name: Seq<char>, kind: FieldKind) -> Seq<char> {
    "invalid type for field `"@ + name + "`: expected "@ + kind.wire_name()
}

/// The words for a name that selects a variant and is the name of none.
pub open spec fn unknown_variant(name: Seq<char>) -> Seq<char> {
    "unknown variant `"@ + name + "`"@
}

/// What is wrong with the member, if anything is: it is missing, or it is
/// of the wrong type.
pub open spec fn fault_of(v: JsonValue, name: Seq<char>, kind: FieldKind) -> Option<Seq<char>> {
    if field_ok(v, name, kind) {
        None
    } else if v.get(name) is None {
        Some(missing_field(name))
    } else {
        Some(invalid_field(name, kind))
    }
}

/// The first of two faults: the earlier one where there is one.
pub open spec fn first_fault(a: Option<Seq<char>>, b: Option<Seq<char>>) -> Option<Seq<char>> {
    match a {
        Some(_) => a,
        None => b,
    }
}

/// The fault in words; a document without a fault gives no words.
pub open spec fn fault_text(fault: Option<Seq<char>>) -> Seq<char> {
    match fault {
        Some(text) => text,
        None => Seq::empty(),
    }
}

/// What is wrong with the member, if anything is.
pub fn field_fault(v: &Json, name: &str, kind: FieldKind) -> (r: Option<String>)
    ensures
        opt_view(r) == fault_of(v@, name@, kind),
{
    let ok = match kind {
        FieldKind::Any => v.get(name).is_some(),
        FieldKind::Str => v.get_str(name).is_some(),
        FieldKind::Bool => v.get_bool(name).is_some(),
        FieldKind::OptStr => v.opt_str_field(name).is_some(),
        FieldKind::OptBool => v.opt_bool_field(name).is_some(),
        FieldKind::OptArray => v.opt_array_field(name).is_some(),
    };
    if ok {
        None
    } else if v.get(name).is_none() {
        let mut text = String::from_str("missing field `");
        text.append(name);
        text.append("`");
        Some(text)
    } else {
        let mut text = String::from_str("invalid type for field `");
        text.append(name);
        text.append("`: expected ");
        text.append(kind.as_str());
        Some(text)
    }
}

/// The words for a name that selects a variant and is the name of none.
pub fn unknown_variant_text(name: &str) -> (r: String)
    ensures
        r@ == unknown_variant(name@),
{
    let mut text = String::from_str("unknown variant `");
    text.append(name);
    text.append("`");
    text
}

/// The first of two faults.
pub fn first(a: Option<String>, b: Option<String>) -> (r: Option<String>)
    ensures
        opt_view(r) == first_fault(opt_view(a), opt_view(b)),
{
    match a {
        Some(text) => Some(text),
        None => b,
    }
}

/// A text that begins with `prefix` and goes on with the fault in words.
pub fn failure_text(prefix: &str, fault: &Option<String>) -> (r: String)
    ensures
        r@ == prefix@ + fault_text(opt_view(*fault)),
{
    let mut text = String::from_str(prefix);
    match fault {
        Some(words) => {
            text.append(words.as_str());
        },
        None => {
            proof {
                assert(prefix@ + Seq::<char>::empty() =~= prefix@);
            }
        },
    }
    text
}

} // verus!
