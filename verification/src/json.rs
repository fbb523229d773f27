//! The untyped JSON value that parameters and results are carried in.

use vstd::prelude::*;
use crate::codec::{json_text, parse_json, parsed_json, printed_json};

verus! {

/// The mathematical model of a JSON value.
///
/// Numbers are kept in three forms: non-negative integers, negative integers
/// and every other number by its decimal text. An object is the sequence of
/// its members.
pub enum JsonValue {
    Null,
    Bool(bool),
    Unsigned(u64),
    Signed(i64),
    Real(Seq<char>),
    String(Seq<char>),
    Array(Seq<JsonValue>),
    Object(Seq<(Seq<char>, JsonValue)>),
}

/// A JSON value.
#[derive(Debug, PartialEq)]
pub enum Json {
    Null,
    Bool(bool),
    /// A non-negative integer.
    Unsigned(u64),
    /// An integer; the parser uses this form for negative integers only.
    Signed(i64),
    /// Any other number, by its decimal text.
    Real(String),
    String(String),
    Array(Vec<Json>),
    /// The members, in order. The parser gives them in the order of their
    /// names, each name once.
    Object(Vec<(String, Json)>),
}

/// The value of the last member named `key` among `members`: a later
/// member takes the place of an earlier one of the same name.
pub open spec fn find_member(members: Seq<(Seq<char>, JsonValue)>, key: Seq<char>) -> Option<
    JsonValue,
>
    decreases members.len(),
{
    if members.len() == 0 {
        None
    } else if members.last().0 == key {
        Some(members.last().1)
    } else {
        find_member(members.drop_last(), key)
    }
}

impl JsonValue {
    /// The value under `key`, where this is an object that has such a member;
    /// of several members with that name, the last. Every other kind of value
    /// has no members.
    pub open spec fn member(self, key: Seq<char>) -> Option<JsonValue> {
        match self {
            JsonValue::Object(members) => find_member(members, key),
            _ => None,
        }
    }

    /// The integer that the value holds, where it holds one.
    pub open spec fn integer(self) -> Option<int> {
        match self {
            JsonValue::Unsigned(n) => Some(n as int),
            JsonValue::Signed(n) => Some(n as int),
            _ => None,
        }
    }

    /// Whether the two values are equal, or hold the same integer in
    /// different forms.
    pub open spec fn same_scalar(self, other: JsonValue) -> bool {
        self == other || (self.integer().is_some() && self.integer() == other.integer())
    }

    /// Equality of JSON values that ignores the order of the members of an
    /// object and the form in which an integer is held, down to `depth`
    /// levels of nesting; below that the values are compared as they are.
    /// Two objects are alike where each name has like members in both, or
    /// in neither; two arrays where they have like items, place by place.
    pub open spec fn alike_within(self, other: JsonValue, depth: nat) -> bool
        decreases depth,
    {
        self.same_scalar(other) || (depth > 0 && match (self, other) {
            (JsonValue::Object(_), JsonValue::Object(_)) => forall|name: Seq<char>|
                match (#[trigger] self.member(name), other.member(name)) {
                    (None, None) => true,
                    (Some(a), Some(b)) => a.alike_within(b, (depth - 1) as nat),
                    _ => false,
                },
            (JsonValue::Array(a), JsonValue::Array(b)) => a.len() == b.len() && forall|i: int|
                0 <= i < a.len() ==> (#[trigger] a[i]).alike_within(b[i], (depth - 1) as nat),
            _ => false,
        })
    }

    /// The same value with `Some(Null)` read as absent, the way an optional
    /// field is read.
    pub open spec fn optional(field: Option<JsonValue>) -> Option<JsonValue> {
        match field {
            Some(JsonValue::Null) => None,
            other => other,
        }
    }
}

/// The model of `value`.
pub open spec fn model_of(value: Json) -> JsonValue
    decreases value,
{
    match value {
        Json::Null => JsonValue::Null,
        Json::Bool(b) => JsonValue::Bool(b),
        Json::Unsigned(n) => JsonValue::Unsigned(n),
        Json::Signed(n) => JsonValue::Signed(n),
        Json::Real(text) => JsonValue::Real(text@),
        Json::String(text) => JsonValue::String(text@),
        Json::Array(items) => JsonValue::Array(
            Seq::new(
                items.len() as nat,
                |i: int|
                    if 0 <= i < items.len() {
                        model_of(items[i])
                    } else {
                        JsonValue::Null
                    },
            ),
        ),
        Json::Object(members) => JsonValue::Object(
            Seq::new(
                members.len() as nat,
                |i: int|
                    if 0 <= i < members.len() {
                        (members[i].0@, model_of(members[i].1))
                    } else {
                        (Seq::empty(), JsonValue::Null)
                    },
            ),
        ),
    }
}

/// The model of an array holds the models of its items, in order.
pub proof fn lemma_array_model(items: Vec<Json>)
    ensures
        Json::Array(items)@ is Array,
        Json::Array(items)@->Array_0.len() == items.len(),
        forall|k: int| 0 <= k < items.len() ==> Json::Array(items)@->Array_0[k] == items[k]@,
{
    reveal_with_fuel(model_of, 2);
}

/// The model of an object holds the names and the models of its members, in
/// order.
pub proof fn lemma_object_model(members: Vec<(String, Json)>)
    ensures
        Json::Object(members)@ is Object,
        Json::Object(members)@->Object_0.len() == members.len(),
        forall|k: int|
            0 <= k < members.len() ==> Json::Object(members)@->Object_0[k] == (
                members[k].0@,
                members[k].1@,
            ),
{
    reveal_with_fuel(model_of, 2);
}

impl View for Json {
    type V = JsonValue;

    open spec fn view(&self) -> JsonValue {
        model_of(*self)
    }
}

impl Json {
    /// Parses JSON text; `None` where the text is no JSON.
    pub fn parse(text: &str) -> (out: Option<Json>)
        ensures
            match out {
                Some(value) => parsed_json(text@) == Some(value@),
                None => parsed_json(text@).is_none(),
            },
    {
        parse_json(text)
    }

    /// The compact JSON text of the value.
    pub fn to_text(&self) -> (out: String)
        ensures
            out@ == printed_json(self@),
    {
        json_text(self)
    }

    /// A JSON string with the given text.
    pub fn string(text: &str) -> (out: Json)
        ensures
            out@ == JsonValue::String(text@),
    {
        Json::String(text.to_owned())
    }

    /// Looks up a member of an object by its name. Where several members
    /// have the name, the last of them is found.
    pub fn get(&self, key: &str) -> (out: Option<&Json>)
        ensures
            match out {
                Some(value) => self@.member(key@) == Some(value@),
                None => self@.member(key@).is_none(),
            },
    {
        match self {
            Json::Object(members) => {
                let wanted = key.to_owned();
                let ghost all = self@->Object_0;
                proof {
                    lemma_object_model(*members);
                    assert(all.take(all.len() as int) =~= all);
                }
                let mut i: usize = members.len();
                while i > 0
                    invariant
                        i <= members.len(),
                        all.len() == members.len(),
                        forall|k: int|
                            0 <= k < all.len() ==> all[k] == (members[k].0@, members[k].1@),
                        self@.member(key@) == find_member(all, key@),
                        wanted@ == key@,
                        find_member(all, key@) == find_member(all.take(i as int), key@),
                    decreases i,
                {
                    proof {
                        assert(all.take(i as int).drop_last() =~= all.take(i as int - 1));
                        assert(all.take(i as int).last() == all[i as int - 1]);
                    }
                    i -= 1;
                    if members[i].0 == wanted {
                        return Some(&members[i].1);
                    }
                }
                None
            },
            _ => None,
        }
    }

    /// A deep copy.
    pub fn duplicate(&self) -> (out: Json)
        ensures
            out@ == self@,
        decreases self,
    {
        match self {
            Json::Null => Json::Null,
            Json::Bool(b) => Json::Bool(*b),
            Json::Unsigned(n) => Json::Unsigned(*n),
            Json::Signed(n) => Json::Signed(*n),
            Json::Real(text) => Json::Real(text.clone()),
            Json::String(text) => Json::String(text.clone()),
            Json::Array(items) => {
                let mut copy: Vec<Json> = Vec::new();
                let mut i: usize = 0;
                while i < items.len()
                    invariant
                        *self == Json::Array(*items),
                        i <= items.len(),
                        copy.len() == i,
                        forall|k: int| 0 <= k < i ==> copy[k]@ == items[k]@,
                    decreases items.len() - i,
                {
                    proof {
                        vstd::std_specs::vec::axiom_vec_index_decreases(*items, i as int);
                        assert(decreases_to!(*self => self->Array_0));
                    }
                    let item = items[i].duplicate();
                    copy.push(item);
                    i += 1;
                }
                let out = Json::Array(copy);
                proof {
                    assert(out@->Array_0 =~= self@->Array_0);
                }
                out
            },
            Json::Object(members) => {
                let mut copy: Vec<(String, Json)> = Vec::new();
                let mut i: usize = 0;
                while i < members.len()
                    invariant
                        *self == Json::Object(*members),
                        i <= members.len(),
                        copy.len() == i,
                        forall|k: int|
                            0 <= k < i ==> copy[k].0@ == members[k].0@ && copy[k].1@
                                == members[k].1@,
                    decreases members.len() - i,
                {
                    proof {
                        vstd::std_specs::vec::axiom_vec_index_decreases(*members, i as int);
                        assert(decreases_to!(*self => self->Object_0));
                    }
                    let value = members[i].1.duplicate();
                    copy.push((members[i].0.clone(), value));
                    i += 1;
                }
                let out = Json::Object(copy);
                proof {
                    assert(out@->Object_0 =~= self@->Object_0);
                }
                out
            },
        }
    }
}

impl Clone for Json {
    fn clone(&self) -> (out: Json)
        ensures
            out@ == self@,
    {
        self.duplicate()
    }
}

} // verus!
