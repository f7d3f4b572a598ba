//! JSON documents: the in-memory form that the protocol code reads and
//! builds, and its mathematical model.

use crate::text::{decimal, opt_view, parse_u64, parse_u64_spec, str_eq, u64_to_string, views};
use vstd::prelude::*;
use vstd::string::StringExecFns;

verus! {

/// Mathematical model of a JSON document. A number is held as the text that
/// writes it; an object as its members in order, where a later member hides
/// an earlier one of the same name.
pub enum JsonValue {
    Null,
    Bool(bool),
    Number(Seq<char>),
    String(Seq<char>),
    Array(Seq<JsonValue>),
    Object(Seq<(Seq<char>, JsonValue)>),
}

/// A JSON document held in memory.
#[derive(Debug, PartialEq)]
pub enum Json {
    Null,
    Bool(bool),
    /// A number, as the text that writes it.
    Number(String),
    String(String),
    Array(Vec<Json>),
    /// The members in order; a later member hides an earlier one of the same name.
    Object(Vec<(String, Json)>),
}

/// The member of that name that counts: the last one.
pub open spec fn lookup(members: Seq<(Seq<char>, JsonValue)>, key: Seq<char>) -> Option<JsonValue>
    decreases members.len(),
{
    if members.len() == 0 {
        None
    } else if members.last().0 == key {
        Some(members.last().1)
    } else {
        lookup(members.drop_last(), key)
    }
}

/// The members without those named `key`.
pub open spec fn without(members: Seq<(Seq<char>, JsonValue)>, key: Seq<char>) -> Seq<
    (Seq<char>, JsonValue),
>
    decreases members.len(),
{
    if members.len() == 0 {
        Seq::empty()
    } else if members.last().0 == key {
        without(members.drop_last(), key)
    } else {
        without(members.drop_last(), key).push(members.last())
    }
}

impl JsonValue {
    /// The member named `key` of an object; nothing for any other document.
    pub open spec fn get(self, key: Seq<char>) -> Option<JsonValue> {
        match self {
            JsonValue::Object(members) => lookup(members, key),
            _ => None,
        }
    }

    /// The string that the document is, if it is one.
    pub open spec fn as_str(self) -> Option<Seq<char>> {
        match self {
            JsonValue::String(s) => Some(s),
            _ => None,
        }
    }

    /// The boolean that the document is, if it is one.
    pub open spec fn as_bool(self) -> Option<bool> {
        match self {
            JsonValue::Bool(b) => Some(b),
            _ => None,
        }
    }

    /// The value of a number written as a canonical unsigned decimal that
    /// fits 64 bits; nothing for any other document.
    pub open spec fn as_u64(self) -> Option<u64> {
        match self {
            JsonValue::Number(text) => parse_u64_spec(text),
            _ => None,
        }
    }

    /// The items of the document, if it is an array.
    pub open spec fn as_array(self) -> Option<Seq<JsonValue>> {
        match self {
            JsonValue::Array(items) => Some(items),
            _ => None,
        }
    }

    /// The string held by the member named `key`, if there is such a member
    /// and it is a string.
    pub open spec fn get_str(self, key: Seq<char>) -> Option<Seq<char>> {
        match self.get(key) {
            Some(v) => v.as_str(),
            None => None,
        }
    }

    /// The boolean held by the member named `key`.
    pub open spec fn get_bool(self, key: Seq<char>) -> Option<bool> {
        match self.get(key) {
            Some(v) => v.as_bool(),
            None => None,
        }
    }

    /// The unsigned number held by the member named `key`.
    pub open spec fn get_u64(self, key: Seq<char>) -> Option<u64> {
        match self.get(key) {
            Some(v) => v.as_u64(),
            None => None,
        }
    }

    /// The member named `key`, or the one named `alt` where there is no `key`.
    pub open spec fn get_either(self, key: Seq<char>, alt: Seq<char>) -> Option<JsonValue> {
        match self.get(key) {
            Some(v) => Some(v),
            None => self.get(alt),
        }
    }

    /// An optional member that holds any document: absent and `null` both
    /// stand for nothing.
    pub open spec fn opt_field(self, key: Seq<char>) -> Option<JsonValue> {
        match self.get(key) {
            Some(JsonValue::Null) => None,
            other => other,
        }
    }

    /// An optional member that holds a string: absent and `null` both stand for
    /// nothing, a string for itself. The outer result is nothing where the
    /// member holds anything else.
    pub open spec fn opt_str_field(self, key: Seq<char>) -> Option<Option<Seq<char>>> {
        match self.get(key) {
            None => Some(None),
            Some(JsonValue::Null) => Some(None),
            Some(JsonValue::String(s)) => Some(Some(s)),
            Some(_) => None,
        }
    }

    /// An optional member that holds a boolean, read like [`Self::opt_str_field`].
    pub open spec fn opt_bool_field(self, key: Seq<char>) -> Option<Option<bool>> {
        match self.get(key) {
            None => Some(None),
            Some(JsonValue::Null) => Some(None),
            Some(JsonValue::Bool(b)) => Some(Some(b)),
            Some(_) => None,
        }
    }

    /// An optional member that holds an array, read like [`Self::opt_str_field`].
    pub open spec fn opt_array_field(self, key: Seq<char>) -> Option<Option<Seq<JsonValue>>> {
        match self.get(key) {
            None => Some(None),
            Some(JsonValue::Null) => Some(None),
            Some(JsonValue::Array(items)) => Some(Some(items)),
            Some(_) => None,
        }
    }

    /// A string, or `null` for nothing.
    pub open spec fn of_opt_str(o: Option<Seq<char>>) -> JsonValue {
        match o {
            Some(s) => JsonValue::String(s),
            None => JsonValue::Null,
        }
    }

    /// The document, or `null` for nothing.
    pub open spec fn of_opt(o: Option<JsonValue>) -> JsonValue {
        match o {
            Some(v) => v,
            None => JsonValue::Null,
        }
    }

    /// An array, or `null` for nothing.
    pub open spec fn of_opt_array(o: Option<Seq<JsonValue>>) -> JsonValue {
        match o {
            Some(items) => JsonValue::Array(items),
            None => JsonValue::Null,
        }
    }

    /// An array of strings.
    pub open spec fn of_strings(items: Seq<Seq<char>>) -> JsonValue {
        JsonValue::Array(Seq::new(items.len(), |i: int| JsonValue::String(items[i])))
    }

    /// The document of the unsigned number `n`.
    pub open spec fn of_u64(n: u64) -> JsonValue {
        JsonValue::Number(decimal(n as nat))
    }

    /// The empty object.
    pub open spec fn empty_object() -> JsonValue {
        JsonValue::Object(Seq::empty())
    }

    /// Whether every number in the document is written as the canonical
    /// numeral of an unsigned number of sixty-four bits. A document without
    /// numbers is plain.
    pub open spec fn is_plain(self) -> bool
        decreases self,
    {
        match self {
            JsonValue::Number(text) => exists|n: u64| text == #[trigger] decimal(n as nat),
            JsonValue::Array(items) => forall|i: int|
                0 <= i < items.len() ==> (#[trigger] items[i]).is_plain(),
            JsonValue::Object(members) => forall|i: int|
                0 <= i < members.len() ==> (#[trigger] members[i]).1.is_plain(),
            _ => true,
        }
    }

    /// An object with one more member at its end; any other document unchanged.
    pub open spec fn with(self, key: Seq<char>, value: JsonValue) -> JsonValue {
        match self {
            JsonValue::Object(members) => JsonValue::Object(members.push((key, value))),
            other => other,
        }
    }

    /// An object with the member added when there is a value for it.
    pub open spec fn with_opt(self, key: Seq<char>, value: Option<JsonValue>) -> JsonValue {
        match value {
            Some(v) => self.with(key, v),
            None => self,
        }
    }

    /// An object in which the member named `from`, if there is one, has left
    /// and stands at the end under the name `to`, in place of any member of
    /// that name; any other document unchanged.
    pub open spec fn renamed(self, from: Seq<char>, to: Seq<char>) -> JsonValue {
        match self {
            JsonValue::Object(members) => match lookup(members, from) {
                Some(v) => JsonValue::Object(without(without(members, from), to).push((to, v))),
                None => self,
            },
            other => other,
        }
    }
}

/// The models of the documents, in order.
pub open spec fn items_view(items: Seq<Json>) -> Seq<JsonValue>
    decreases items,
{
    Seq::new(
        items.len(),
        |i: int|
            if 0 <= i < items.len() {
                items[i].view()
            } else {
                JsonValue::Null
            },
    )
}

/// The names and the models of the members, in order.
pub open spec fn members_view(members: Seq<(String, Json)>) -> Seq<(Seq<char>, JsonValue)>
    decreases members,
{
    Seq::new(
        members.len(),
        |i: int|
            if 0 <= i < members.len() {
                (members[i].0@, members[i].1.view())
            } else {
                (Seq::empty(), JsonValue::Null)
            },
    )
}

impl View for Json {
    type V = JsonValue;

    open spec fn view(&self) -> JsonValue
        decreases self,
    {
        match self {
            Json::Null => JsonValue::Null,
            Json::Bool(b) => JsonValue::Bool(*b),
            Json::Number(n) => JsonValue::Number(n@),
            Json::String(s) => JsonValue::String(s@),
            Json::Array(items) => JsonValue::Array(items_view(items@)),
            Json::Object(members) => JsonValue::Object(members_view(members@)),
        }
    }
}

/// `Some(j)` becomes `Some` of the model of `j`.
pub open spec fn opt_json_view(o: Option<Json>) -> Option<JsonValue> {
    match o {
        Some(j) => Some(j@),
        None => None,
    }
}

/// The model of a list of members with one more member at its end.
pub proof fn lemma_members_view_push(members: Seq<(String, Json)>, key: String, value: Json)
    ensures
        members_view(members.push((key, value))) == members_view(members).push((key@, value@)),
{
    assert(members_view(members.push((key, value))) =~= members_view(members).push(
        (key@, value@),
    ));
}

/// Looking a name up after one more member was added.
pub proof fn lemma_lookup_push(
    members: Seq<(Seq<char>, JsonValue)>,
    key: Seq<char>,
    value: JsonValue,
    wanted: Seq<char>,
)
    ensures
        lookup(members.push((key, value)), wanted) == if key == wanted {
            Some(value)
        } else {
            lookup(members, wanted)
        },
{
    let m = members.push((key, value));
    assert(m.last() == (key, value));
    assert(m.drop_last() =~= members);
}

/// Reading a member of an object to which one more member was added.
pub proof fn lemma_get_with(o: JsonValue, key: Seq<char>, value: JsonValue, wanted: Seq<char>)
    requires
        o is Object,
    ensures
        o.with(key, value) is Object,
        o.with(key, value).get(wanted) == if key == wanted {
            Some(value)
        } else {
            o.get(wanted)
        },
{
    lemma_lookup_push(o->Object_0, key, value, wanted);
}

/// Reading a member of an object to which an optional member was added.
pub proof fn lemma_get_with_opt(
    o: JsonValue,
    key: Seq<char>,
    value: Option<JsonValue>,
    wanted: Seq<char>,
)
    requires
        o is Object,
    ensures
        o.with_opt(key, value) is Object,
        o.with_opt(key, value).get(wanted) == if key == wanted && value is Some {
            value
        } else {
            o.get(wanted)
        },
{
    if value is Some {
        lemma_get_with(o, key, value->0, wanted);
    }
}

/// An object stays plain when a plain member is added to it.
pub proof fn lemma_plain_with(o: JsonValue, key: Seq<char>, value: JsonValue)
    requires
        o.is_plain(),
        value.is_plain(),
    ensures
        o.with(key, value).is_plain(),
        JsonValue::empty_object().is_plain(),
{
    match o {
        JsonValue::Object(members) => {
            let after = members.push((key, value));
            assert forall|i: int| 0 <= i < after.len() implies (#[trigger] after[i]).1.is_plain() by {
                if i < members.len() {
                    assert(after[i] == members[i]);
                }
            }
        },
        _ => {},
    }
}

/// An object stays plain when an optional plain member is added to it.
pub proof fn lemma_plain_with_opt(o: JsonValue, key: Seq<char>, value: Option<JsonValue>)
    requires
        o.is_plain(),
        value matches Some(v) ==> v.is_plain(),
    ensures
        o.with_opt(key, value).is_plain(),
{
    if value is Some {
        lemma_plain_with(o, key, value->0);
    }
}

/// The document of an unsigned number is plain, and so is every text.
pub proof fn lemma_plain_leaves(n: u64, text: Seq<char>)
    ensures
        JsonValue::of_u64(n).is_plain(),
        JsonValue::String(text).is_plain(),
        JsonValue::Null.is_plain(),
{
    assert(decimal(n as nat) == decimal(n as nat));
}

/// The document of an unsigned number reads back as that number.
pub proof fn lemma_number_round_trip(n: u64)
    ensures
        JsonValue::of_u64(n).as_u64() == Some(n),
{
    crate::text::lemma_parse_u64_of_decimal(n);
}

/// Once a member was renamed, its value is found under the new name and
/// nothing under the old one; every other member is found as before.
pub proof fn lemma_renamed(doc: JsonValue, from: Seq<char>, to: Seq<char>, wanted: Seq<char>)
    requires
        doc.get(from) is Some,
        from != to,
    ensures
        doc.renamed(from, to).get(wanted) == if wanted == to {
            doc.get(from)
        } else if wanted == from {
            None
        } else {
            doc.get(wanted)
        },
{
    let members = doc->Object_0;
    let value = lookup(members, from)->0;
    lemma_without(members, from, wanted);
    lemma_without(without(members, from), to, wanted);
    lemma_lookup_push(without(without(members, from), to), to, value, wanted);
}

/// `without` leaves no member of that name and keeps the others as they were.
pub proof fn lemma_without(members: Seq<(Seq<char>, JsonValue)>, key: Seq<char>, wanted: Seq<char>)
    ensures
        lookup(without(members, key), wanted) == if key == wanted {
            None
        } else {
            lookup(members, wanted)
        },
    decreases members.len(),
{
    if members.len() == 0 {
    } else {
        let rest = members.drop_last();
        lemma_without(rest, key, wanted);
        if members.last().0 == key {
        } else {
            lemma_lookup_push(without(rest, key), members.last().0, members.last().1, wanted);
        }
    }
}

impl Clone for Json {
    fn clone(&self) -> (r: Self)
        ensures
            r@ == self@,
        decreases self,
    {
        match self {
            Json::Null => Json::Null,
            Json::Bool(b) => Json::Bool(*b),
            Json::Number(n) => Json::Number(n.clone()),
            Json::String(s) => Json::String(s.clone()),
            Json::Array(items) => {
                let mut out: Vec<Json> = Vec::new();
                let mut i: usize = 0;
                while i < items.len()
                    invariant
                        0 <= i <= items.len(),
                        decreases_to!(*self => *items),
                        out@.len() == i,
                        forall|k: int| 0 <= k < i ==> (#[trigger] out@[k])@ == items@[k]@,
                    decreases items.len() - i,
                {
                    proof {
                        vstd::std_specs::vec::axiom_vec_index_decreases(*items, i as int);
                    }
                    let item = items[i].clone();
                    out.push(item);
                    i += 1;
                }
                proof {
                    assert(items_view(out@) =~= items_view(items@));
                }
                Json::Array(out)
            },
            Json::Object(members) => {
                let mut out: Vec<(String, Json)> = Vec::new();
                let mut i: usize = 0;
                while i < members.len()
                    invariant
                        0 <= i <= members.len(),
                        decreases_to!(*self => *members),
                        out@.len() == i,
                        forall|k: int|
                            0 <= k < i ==> (#[trigger] out@[k]).0@ == members@[k].0@ && out@[k].1@
                                == members@[k].1@,
                    decreases members.len() - i,
                {
                    proof {
                        vstd::std_specs::vec::axiom_vec_index_decreases(*members, i as int);
                        assert(decreases_to!(members[i as int] => members[i as int].1));
                    }
                    let key = members[i].0.clone();
                    let value = members[i].1.clone();
                    out.push((key, value));
                    i += 1;
                }
                proof {
                    assert(members_view(out@) =~= members_view(members@));
                }
                Json::Object(out)
            },
        }
    }
}

/// Copies of the documents, in order.
pub fn clone_items(items: &Vec<Json>) -> (r: Vec<Json>)
    ensures
        items_view(r@) == items_view(items@),
{
    let mut out: Vec<Json> = Vec::new();
    let mut i: usize = 0;
    while i < items.len()
        invariant
            0 <= i <= items.len(),
            out@.len() == i,
            forall|k: int| 0 <= k < i ==> (#[trigger] out@[k])@ == items@[k]@,
        decreases items.len() - i,
    {
        out.push(items[i].clone());
        i += 1;
    }
    proof {
        assert(items_view(out@) =~= items_view(items@));
    }
    out
}

/// Copies of the members that are not named `key`, in order.
fn members_without(members: &Vec<(String, Json)>, key: &str) -> (r: Vec<(String, Json)>)
    ensures
        members_view(r@) == without(members_view(members@), key@),
{
    let mut out: Vec<(String, Json)> = Vec::new();
    let mut i: usize = 0;
    proof {
        assert(members_view(members@).subrange(0, 0) =~= Seq::empty());
        assert(members_view(out@) =~= Seq::empty());
    }
    while i < members.len()
        invariant
            0 <= i <= members.len(),
            members_view(out@) == without(members_view(members@).subrange(0, i as int), key@),
        decreases members.len() - i,
    {
        proof {
            let t = members_view(members@).subrange(0, i as int + 1);
            assert(t.drop_last() =~= members_view(members@).subrange(0, i as int));
            assert(t.last() == (members@[i as int].0@, members@[i as int].1@));
        }
        if !str_eq(members[i].0.as_str(), key) {
            let ghost before = out@;
            let name = members[i].0.clone();
            let value = members[i].1.clone();
            proof {
                lemma_members_view_push(before, name, value);
            }
            out.push((name, value));
        }
        i += 1;
    }
    proof {
        assert(members_view(members@).subrange(0, members.len() as int) =~= members_view(
            members@,
        ));
    }
    out
}

impl Json {
    /// Gives the member named `from` the name `to`: where an object holds a
    /// member named `from`, it leaves under that name and stands at the end
    /// under the name `to`, in place of any member of that name. Any other
    /// document stays as it is.
    pub fn rename_member(&mut self, from: &str, to: &str)
        ensures
            final(self)@ == old(self)@.renamed(from@, to@),
    {
        let found = match self.get(from) {
            Some(v) => Some(v.clone()),
            None => None,
        };
        match found {
            Some(value) => {
                let rest = match &*self {
                    Json::Object(members) => {
                        let kept = members_without(members, from);
                        Some(members_without(&kept, to))
                    },
                    _ => None,
                };
                match rest {
                    Some(mut members) => {
                        let ghost before = members@;
                        let name = String::from_str(to);
                        proof {
                            lemma_members_view_push(before, name, value);
                        }
                        members.push((name, value));
                        *self = Json::Object(members);
                    },
                    None => {},
                }
            },
            None => {},
        }
    }

    /// The member named `key` of an object.
    pub fn get(&self, key: &str) -> (r: Option<&Json>)
        ensures
            match r {
                Some(j) => self@.get(key@) == Some(j@),
                None => self@.get(key@) is None,
            },
    {
        match self {
            Json::Object(members) => {
                let mut i: usize = members.len();
                proof {
                    assert(members_view(members@).subrange(0, i as int) =~= members_view(
                        members@,
                    ));
                }
                while i > 0
                    invariant
                        0 <= i <= members.len(),
                        *self == Json::Object(*members),
                        lookup(members_view(members@), key@) == lookup(
                            members_view(members@).subrange(0, i as int),
                            key@,
                        ),
                    decreases i,
                {
                    let ghost prefix = members_view(members@).subrange(0, i as int);
                    proof {
                        assert(prefix.last() == (members@[i - 1].0@, members@[i - 1].1@));
                        assert(prefix.drop_last() =~= members_view(members@).subrange(
                            0,
                            i as int - 1,
                        ));
                    }
                    if str_eq(members[i - 1].0.as_str(), key) {
                        assert(lookup(prefix, key@) == Some(members@[i - 1].1@));
                        return Some(&members[i - 1].1);
                    }
                    assert(lookup(prefix, key@) == lookup(prefix.drop_last(), key@));
                    i -= 1;
                }
                proof {
                    assert(members_view(members@).subrange(0, 0) =~= Seq::empty());
                }
                None
            },
            _ => None,
        }
    }

    /// The string that the document is, if it is one.
    pub fn as_str(&self) -> (r: Option<&str>)
        ensures
            match r {
                Some(s) => self@.as_str() == Some(s@),
                None => self@.as_str() is None,
            },
    {
        match self {
            Json::String(s) => Some(s.as_str()),
            _ => None,
        }
    }

    /// The boolean that the document is, if it is one.
    pub fn as_bool(&self) -> (r: Option<bool>)
        ensures
            r == self@.as_bool(),
    {
        match self {
            Json::Bool(b) => Some(*b),
            _ => None,
        }
    }

    /// The value of a number written as a canonical unsigned decimal.
    pub fn as_u64(&self) -> (r: Option<u64>)
        ensures
            r == self@.as_u64(),
    {
        match self {
            Json::Number(text) => parse_u64(text.as_str()),
            _ => None,
        }
    }

    /// The items of the document, if it is an array.
    pub fn as_array(&self) -> (r: Option<&Vec<Json>>)
        ensures
            match r {
                Some(items) => self@.as_array() == Some(items_view(items@)),
                None => self@.as_array() is None,
            },
    {
        match self {
            Json::Array(items) => Some(items),
            _ => None,
        }
    }

    /// Whether the document is `null`.
    pub fn is_null(&self) -> (r: bool)
        ensures
            r == (self@ == JsonValue::Null),
    {
        match self {
            Json::Null => true,
            _ => false,
        }
    }

    /// Whether the document is an object.
    pub fn is_object(&self) -> (r: bool)
        ensures
            r == (self@ is Object),
    {
        match self {
            Json::Object(_) => true,
            _ => false,
        }
    }

    /// The string held by the member named `key`.
    pub fn get_str(&self, key: &str) -> (r: Option<&str>)
        ensures
            match r {
                Some(s) => self@.get_str(key@) == Some(s@),
                None => self@.get_str(key@) is None,
            },
    {
        match self.get(key) {
            Some(v) => v.as_str(),
            None => None,
        }
    }

    /// The member named `key`, or the one named `alt` where there is no `key`.
    pub fn get_either(&self, key: &str, alt: &str) -> (r: Option<&Json>)
        ensures
            match r {
                Some(j) => self@.get_either(key@, alt@) == Some(j@),
                None => self@.get_either(key@, alt@) is None,
            },
    {
        match self.get(key) {
            Some(v) => Some(v),
            None => self.get(alt),
        }
    }

    /// The string held by the member named `key`, as a string of its own.
    pub fn get_string(&self, key: &str) -> (r: Option<String>)
        ensures
            opt_view(r) == self@.get_str(key@),
    {
        match self.get_str(key) {
            Some(s) => Some(String::from_str(s)),
            None => None,
        }
    }

    /// The boolean held by the member named `key`.
    pub fn get_bool(&self, key: &str) -> (r: Option<bool>)
        ensures
            r == self@.get_bool(key@),
    {
        match self.get(key) {
            Some(v) => v.as_bool(),
            None => None,
        }
    }

    /// The unsigned number held by the member named `key`.
    pub fn get_u64(&self, key: &str) -> (r: Option<u64>)
        ensures
            r == self@.get_u64(key@),
    {
        match self.get(key) {
            Some(v) => v.as_u64(),
            None => None,
        }
    }

    /// An optional member that holds any document.
    pub fn opt_field(&self, key: &str) -> (r: Option<Json>)
        ensures
            opt_json_view(r) == self@.opt_field(key@),
    {
        match self.get(key) {
            Some(v) => if v.is_null() {
                None
            } else {
                Some(v.clone())
            },
            None => None,
        }
    }

    /// An optional member that holds a string.
    pub fn opt_str_field(&self, key: &str) -> (r: Option<Option<String>>)
        ensures
            match r {
                Some(o) => self@.opt_str_field(key@) == Some(opt_view(o)),
                None => self@.opt_str_field(key@) is None,
            },
    {
        match self.get(key) {
            None => Some(None),
            Some(v) => match v {
                Json::Null => Some(None),
                Json::String(s) => Some(Some(s.clone())),
                _ => None,
            },
        }
    }

    /// An optional member that holds a boolean.
    pub fn opt_bool_field(&self, key: &str) -> (r: Option<Option<bool>>)
        ensures
            r == self@.opt_bool_field(key@),
    {
        match self.get(key) {
            None => Some(None),
            Some(v) => match v {
                Json::Null => Some(None),
                Json::Bool(b) => Some(Some(*b)),
                _ => None,
            },
        }
    }

    /// An optional member that holds an array.
    pub fn opt_array_field(&self, key: &str) -> (r: Option<Option<Vec<Json>>>)
        ensures
            match r {
                Some(Some(items)) => self@.opt_array_field(key@) == Some(Some(items_view(items@))),
                Some(None) => self@.opt_array_field(key@) == Some(None::<Seq<JsonValue>>),
                None => self@.opt_array_field(key@) is None,
            },
    {
        match self.get(key) {
            None => Some(None),
            Some(v) => match v {
                Json::Null => Some(None),
                Json::Array(items) => Some(Some(clone_items(items))),
                _ => None,
            },
        }
    }

    /// A string, or `null` for nothing.
    pub fn of_opt_str(o: &Option<String>) -> (r: Json)
        ensures
            r@ == JsonValue::of_opt_str(opt_view(*o)),
    {
        match o {
            Some(s) => Json::String(s.clone()),
            None => Json::Null,
        }
    }

    /// A copy of the document, or `null` for nothing.
    pub fn of_opt(o: &Option<Json>) -> (r: Json)
        ensures
            r@ == JsonValue::of_opt(opt_json_view(*o)),
    {
        match o {
            Some(v) => v.clone(),
            None => Json::Null,
        }
    }

    /// An array of copies of the items, or `null` for nothing.
    pub fn of_opt_array(o: &Option<Vec<Json>>) -> (r: Json)
        ensures
            r@ == JsonValue::of_opt_array(
                match *o {
                    Some(items) => Some(items_view(items@)),
                    None => None,
                },
            ),
    {
        match o {
            Some(items) => Json::Array(clone_items(items)),
            None => Json::Null,
        }
    }

    /// An array of strings.
    pub fn of_strings(items: &Vec<String>) -> (r: Json)
        ensures
            r@ == JsonValue::of_strings(views(items@)),
    {
        let mut out: Vec<Json> = Vec::new();
        let mut i: usize = 0;
        while i < items.len()
            invariant
                0 <= i <= items.len(),
                out@.len() == i,
                forall|k: int| 0 <= k < i ==> (#[trigger] out@[k])@ == JsonValue::String(items@[k]@),
            decreases items.len() - i,
        {
            out.push(Json::String(items[i].clone()));
            i += 1;
        }
        proof {
            assert(items_view(out@) =~= Seq::new(
                views(items@).len(),
                |i: int| JsonValue::String(views(items@)[i]),
            ));
        }
        Json::Array(out)
    }

    /// Adds a member at the end of an object when there is a value for it.
    pub fn insert_opt(&mut self, key: &str, value: Option<Json>)
        ensures
            final(self)@ == old(self)@.with_opt(key@, opt_json_view(value)),
    {
        match value {
            Some(v) => self.insert(key, v),
            None => {},
        }
    }

    /// A string document.
    pub fn string(s: &str) -> (r: Json)
        ensures
            r@ == JsonValue::String(s@),
    {
        Json::String(String::from_str(s))
    }

    /// The document of an unsigned number.
    pub fn from_u64(n: u64) -> (r: Json)
        ensures
            r@ == JsonValue::of_u64(n),
    {
        Json::Number(u64_to_string(n))
    }

    /// The empty object.
    pub fn object() -> (r: Json)
        ensures
            r@ == JsonValue::empty_object(),
    {
        let members: Vec<(String, Json)> = Vec::new();
        proof {
            assert(members_view(members@) =~= Seq::empty());
        }
        Json::Object(members)
    }

    /// Adds a member at the end of an object; leaves any other document as it is.
    pub fn insert(&mut self, key: &str, value: Json)
        ensures
            final(self)@ == old(self)@.with(key@, value@),
    {
        match self {
            Json::Object(members) => {
                let ghost before = members@;
                let k = String::from_str(key);
                proof {
                    lemma_members_view_push(before, k, value);
                }
                members.push((k, value));
            },
            _ => {},
        }
    }
}

} // verus!
