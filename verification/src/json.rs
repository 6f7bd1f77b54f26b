//! A JSON document as plain data.
//!
//! The transit API answers with loosely typed JSON. This module holds such a
//! document in a tree of ordinary values, so that every rule of the client can
//! be stated over it: a number is kept by the integer it holds or, for a
//! float, by its bit pattern and decimal rendering; an object is the list of
//! its members in the order in which they are walked.

use vstd::prelude::*;

verus! {

/// A JSON number.
#[derive(Clone, Debug, PartialEq)]
pub enum JsonNumber {
    /// An integer that is not negative.
    PosInt(u64),
    /// An integer below zero.
    NegInt(i64),
    /// A finite float: `bits` is its IEEE-754 binary64 pattern, `text` its
    /// shortest decimal rendering, as both were read from the document.
    Float { bits: u64, text: String },
}

/// A JSON value.
///
/// An object keeps its members as `(name, value)` pairs in document order.
/// Looking a name up finds the first member that carries it.
#[derive(Debug, PartialEq)]
pub enum JsonValue {
    Null,
    Bool(bool),
    Number(JsonNumber),
    String(String),
    Array(Vec<JsonValue>),
    Object(Vec<(String, JsonValue)>),
}

/// The value of the first member of `members` named `key`, if there is one.
pub open spec fn lookup(members: Seq<(String, JsonValue)>, key: Seq<char>) -> Option<JsonValue>
    decreases members.len(),
{
    if members.len() == 0 {
        None
    } else if members[0].0@ == key {
        Some(members[0].1)
    } else {
        lookup(members.skip(1), key)
    }
}

/// No two members of `members` share a name.
pub open spec fn distinct_names(members: Seq<(String, JsonValue)>) -> bool {
    forall|i: int, j: int|
        0 <= i < j < members.len() ==> (#[trigger] members[i]).0@ != (#[trigger] members[j]).0@
}

/// The value behind an optional reference.
pub open spec fn pointee(v: Option<&JsonValue>) -> Option<JsonValue> {
    match v {
        Some(x) => Some(*x),
        None => None,
    }
}

impl JsonValue {
    /// The items of an array; empty for every other value.
    pub open spec fn items(self) -> Seq<JsonValue> {
        match self {
            JsonValue::Array(a) => a@,
            _ => Seq::empty(),
        }
    }

    /// The members of an object; empty for every other value.
    pub open spec fn members(self) -> Seq<(String, JsonValue)> {
        match self {
            JsonValue::Object(m) => m@,
            _ => Seq::empty(),
        }
    }

    /// The member named `key` of an object; `None` for every other value.
    pub open spec fn member(self, key: Seq<char>) -> Option<JsonValue> {
        lookup(self.members(), key)
    }

    /// The items of the array that the member named `key` holds; empty where
    /// there is no such member or it is no array.
    pub open spec fn member_items(self, key: Seq<char>) -> Seq<JsonValue> {
        match self.member(key) {
            Some(v) => v.items(),
            None => Seq::empty(),
        }
    }

    /// The members of the object that the member named `key` holds; empty
    /// where there is no such member or it is no object.
    pub open spec fn member_members(self, key: Seq<char>) -> Seq<(String, JsonValue)> {
        match self.member(key) {
            Some(v) => v.members(),
            None => Seq::empty(),
        }
    }

    /// Looks up the member named `key`.
    pub fn get<'a>(&'a self, key: &str) -> (r: Option<&'a JsonValue>)
        ensures
            pointee(r) == self.member(key@),
    {
        match self {
            JsonValue::Object(members) => {
                let mut i: usize = 0;
                proof {
                    assert(members@.skip(0) == members@);
                }
                while i < members.len()
                    invariant
                        i <= members.len(),
                        self.member(key@) == lookup(members@.skip(i as int), key@),
                    decreases members.len() - i,
                {
                    proof {
                        assert(members@.skip(i as int)[0] == members@[i as int]);
                        assert(members@.skip(i as int).skip(1) == members@.skip(i + 1));
                    }
                    if crate::text::str_eq(members[i].0.as_str(), key) {
                        return Some(&members[i].1);
                    }
                    i += 1;
                }
                None
            },
            _ => None,
        }
    }

    /// The items of an array, or nothing for any other value.
    pub fn as_array<'a>(&'a self) -> (r: Option<&'a Vec<JsonValue>>)
        ensures
            r is Some <==> self is Array,
            r is Some ==> r.unwrap()@ == self.items(),
            r is None ==> self.items().len() == 0,
    {
        match self {
            JsonValue::Array(a) => Some(a),
            _ => None,
        }
    }

    /// The members of an object, or nothing for any other value.
    pub fn as_object<'a>(&'a self) -> (r: Option<&'a Vec<(String, JsonValue)>>)
        ensures
            r is Some <==> self is Object,
            r is Some ==> r.unwrap()@ == self.members(),
            r is None ==> self.members().len() == 0,
    {
        match self {
            JsonValue::Object(m) => Some(m),
            _ => None,
        }
    }
}

} // verus!
