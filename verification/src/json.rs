//! A JSON value as the library reads it: tool arguments, request ids and
//! request parameters arrive in this form.

use vstd::prelude::*;
use crate::text::text_equal;

verus! {

/// A JSON number, kept exactly as it was read: a non-negative integer, a
/// negative integer, or a floating-point number held by its IEEE-754 bits.
#[derive(Debug, Clone, Copy, PartialEq, Eq, Structural)]
pub enum JsonNumber {
    PosInt(u64),
    NegInt(i64),
    Float(u64),
}

/// A JSON value. Object members keep the order in which they were read.
#[derive(Debug, PartialEq)]
pub enum JsonValue {
    Null,
    Bool(bool),
    Number(JsonNumber),
    String(String),
    Array(Vec<JsonValue>),
    Object(Vec<(String, JsonValue)>),
}

/// The mathematical content of a [`JsonValue`]: strings as character sequences.
pub enum JsonModel {
    Null,
    Bool(bool),
    Number(JsonNumber),
    Text(Seq<char>),
    Array(Seq<JsonModel>),
    Object(Seq<(Seq<char>, JsonModel)>),
}

/// The models of a sequence of values, in order.
pub open spec fn models_of(s: Seq<JsonValue>) -> Seq<JsonModel>
    decreases s,
{
    if s.len() == 0 {
        Seq::empty()
    } else {
        models_of(s.drop_last()).push(s.last().model())
    }
}

/// The models of a sequence of object members, in order.
pub open spec fn members_of(s: Seq<(String, JsonValue)>) -> Seq<(Seq<char>, JsonModel)>
    decreases s,
{
    if s.len() == 0 {
        Seq::empty()
    } else {
        members_of(s.drop_last()).push((s.last().0@, s.last().1.model()))
    }
}

/// The value an optional reference refers to.
pub open spec fn opt_deref<T>(o: Option<&T>) -> Option<T> {
    match o {
        Some(v) => Some(*v),
        None => None,
    }
}

/// The first member of `members` named `key`, if any.
pub open spec fn lookup(members: Seq<(String, JsonValue)>, key: Seq<char>) -> Option<JsonValue>
    decreases members.len(),
{
    if members.len() == 0 {
        None
    } else if members[0].0@ == key {
        Some(members[0].1)
    } else {
        lookup(members.drop_first(), key)
    }
}

impl JsonValue {
    /// The mathematical content of this value.
    pub open spec fn model(self) -> JsonModel
        decreases self,
    {
        match self {
            JsonValue::Null => JsonModel::Null,
            JsonValue::Bool(b) => JsonModel::Bool(b),
            JsonValue::Number(n) => JsonModel::Number(n),
            JsonValue::String(s) => JsonModel::Text(s@),
            JsonValue::Array(items) => JsonModel::Array(models_of(items@)),
            JsonValue::Object(members) => JsonModel::Object(members_of(members@)),
        }
    }

    /// What `get(key)` finds: the first member named `key` of an object; nothing for
    /// any other kind of value.
    pub open spec fn field(self, key: Seq<char>) -> Option<JsonValue> {
        match self {
            JsonValue::Object(members) => lookup(members@, key),
            _ => None,
        }
    }

    /// The text of a JSON string.
    pub open spec fn text_of(self) -> Option<Seq<char>> {
        match self {
            JsonValue::String(s) => Some(s@),
            _ => None,
        }
    }

    /// The value of a JSON boolean.
    pub open spec fn bool_of(self) -> Option<bool> {
        match self {
            JsonValue::Bool(b) => Some(b),
            _ => None,
        }
    }

    /// The value of a JSON number that is a non-negative integer.
    pub open spec fn u64_of(self) -> Option<u64> {
        match self {
            JsonValue::Number(JsonNumber::PosInt(n)) => Some(n),
            _ => None,
        }
    }

    /// The member of an object named `key` (the first one, if names repeat).
    pub fn get(&self, key: &str) -> (r: Option<&JsonValue>)
        ensures
            opt_deref(r) == self.field(key@),
    {
        match self {
            JsonValue::Object(members) => {
                let mut i: usize = 0;
                assert(members@.skip(0) =~= members@);
                while i < members.len()
                    invariant
                        *self == JsonValue::Object(*members),
                        i <= members.len(),
                        lookup(members@, key@) == lookup(members@.skip(i as int), key@),
                    decreases members.len() - i,
                {
                    assert(members@.skip(i as int).drop_first() =~= members@.skip(i + 1));
                    if text_equal(members[i].0.as_str(), key) {
                        return Some(&members[i].1);
                    }
                    i = i + 1;
                }
                None
            },
            _ => None,
        }
    }

    /// The text of a JSON string; `None` for any other kind of value.
    pub fn as_str(&self) -> (r: Option<&str>)
        ensures
            match r {
                Some(s) => self.text_of() == Some(s@),
                None => self.text_of() is None,
            },
    {
        match self {
            JsonValue::String(s) => Some(s.as_str()),
            _ => None,
        }
    }

    /// The value of a JSON boolean; `None` for any other kind of value.
    pub fn as_bool(&self) -> (r: Option<bool>)
        ensures
            r == self.bool_of(),
    {
        match self {
            JsonValue::Bool(b) => Some(*b),
            _ => None,
        }
    }

    /// The value of a non-negative JSON integer; `None` otherwise.
    pub fn as_u64(&self) -> (r: Option<u64>)
        ensures
            r == self.u64_of(),
    {
        match self {
            JsonValue::Number(JsonNumber::PosInt(n)) => Some(*n),
            _ => None,
        }
    }

    /// Whether this is a JSON array.
    pub fn is_array(&self) -> (r: bool)
        ensures
            r == (self is Array),
    {
        match self {
            JsonValue::Array(_) => true,
            _ => false,
        }
    }

    /// A copy of this value with the same content.
    pub fn deep_copy(&self) -> (r: JsonValue)
        ensures
            r.model() == self.model(),
        decreases self,
    {
        match self {
            JsonValue::Null => JsonValue::Null,
            JsonValue::Bool(b) => JsonValue::Bool(*b),
            JsonValue::Number(n) => JsonValue::Number(*n),
            JsonValue::String(s) => JsonValue::String(s.clone()),
            JsonValue::Array(items) => {
                let mut out: Vec<JsonValue> = Vec::new();
                let mut i: usize = 0;
                while i < items.len()
                    invariant
                        *self == JsonValue::Array(*items),
                        i <= items.len(),
                        out.len() == i,
                        models_of(out@) == models_of(items@.take(i as int)),
                    decreases items.len() - i,
                {
                    proof {
                        broadcast use vstd::std_specs::vec::group_vec_axioms;
                        assert(decreases_to!(*self => (*self)->Array_0));
                    }
                    let c = items[i].deep_copy();
                    let ghost before = out@;
                    out.push(c);
                    assert(out@.drop_last() =~= before);
                    assert(items@.take(i + 1).drop_last() =~= items@.take(i as int));
                    i = i + 1;
                }
                assert(items@.take(items.len() as int) =~= items@);
                JsonValue::Array(out)
            },
            JsonValue::Object(members) => {
                let mut out: Vec<(String, JsonValue)> = Vec::new();
                let mut i: usize = 0;
                while i < members.len()
                    invariant
                        *self == JsonValue::Object(*members),
                        i <= members.len(),
                        out.len() == i,
                        members_of(out@) == members_of(members@.take(i as int)),
                    decreases members.len() - i,
                {
                    let k = members[i].0.clone();
                    proof {
                        broadcast use vstd::std_specs::vec::group_vec_axioms;
                        assert(decreases_to!(*self => (*self)->Object_0));
                    }
                    let c = members[i].1.deep_copy();
                    let ghost before = out@;
                    out.push((k, c));
                    assert(out@.drop_last() =~= before);
                    assert(members@.take(i + 1).drop_last() =~= members@.take(i as int));
                    i = i + 1;
                }
                assert(members@.take(members.len() as int) =~= members@);
                JsonValue::Object(out)
            },
        }
    }
}

/// The text of the string argument `key`, if the arguments hold one.
pub open spec fn arg_text(args: JsonValue, key: Seq<char>) -> Option<Seq<char>> {
    match args.field(key) {
        Some(v) => v.text_of(),
        None => None,
    }
}

/// The boolean argument `key`, if the arguments hold one.
pub open spec fn arg_bool(args: JsonValue, key: Seq<char>) -> Option<bool> {
    match args.field(key) {
        Some(v) => v.bool_of(),
        None => None,
    }
}

/// The non-negative integer argument `key`, if the arguments hold one.
pub open spec fn arg_u64(args: JsonValue, key: Seq<char>) -> Option<u64> {
    match args.field(key) {
        Some(v) => v.u64_of(),
        None => None,
    }
}

/// Reads the string argument `key` (`args.get(key).and_then(as_str)`).
pub fn text_arg<'a>(args: &'a JsonValue, key: &str) -> (r: Option<&'a str>)
    ensures
        crate::seqs::opt_text(r) == arg_text(*args, key@),
{
    match args.get(key) {
        Some(v) => v.as_str(),
        None => None,
    }
}

/// Reads the boolean argument `key`.
pub fn bool_arg(args: &JsonValue, key: &str) -> (r: Option<bool>)
    ensures
        r == arg_bool(*args, key@),
{
    match args.get(key) {
        Some(v) => v.as_bool(),
        None => None,
    }
}

/// Reads the non-negative integer argument `key`.
pub fn u64_arg(args: &JsonValue, key: &str) -> (r: Option<u64>)
    ensures
        r == arg_u64(*args, key@),
{
    match args.get(key) {
        Some(v) => v.as_u64(),
        None => None,
    }
}

} // verus!
