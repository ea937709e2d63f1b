//! The mathematical model of a JSON document, over which every contract of
//! this library is stated.

use vstd::prelude::*;

verus! {

/// A JSON number, in the three forms in which a document can hold one.
pub enum JsonNumber {
    /// A non-negative integer.
    PosInt(u64),
    /// A negative integer.
    NegInt(i64),
    /// A finite binary64 number, given by its bit pattern.
    Float(u64),
}

/// A JSON document. The members of an object form a map: a key occurs once,
/// and the members have no order of their own.
pub enum Json {
    Null,
    Bool(bool),
    Number(JsonNumber),
    String(Seq<char>),
    Array(Seq<Json>),
    Object(Map<Seq<char>, Json>),
}

impl Json {
    /// The member stored under `key`, where this is an object that has one.
    pub open spec fn get(self, key: Seq<char>) -> Option<Json> {
        match self {
            Json::Object(members) => if members.contains_key(key) {
                Some(members[key])
            } else {
                None
            },
            _ => None,
        }
    }

    /// The member stored under `key`, and `Null` where there is none.
    pub open spec fn field(self, key: Seq<char>) -> Json {
        match self.get(key) {
            Some(member) => member,
            None => Json::Null,
        }
    }

    /// The text of a string.
    pub open spec fn as_str(self) -> Option<Seq<char>> {
        match self {
            Json::String(text) => Some(text),
            _ => None,
        }
    }

    /// The items of an array.
    pub open spec fn as_array(self) -> Option<Seq<Json>> {
        match self {
            Json::Array(items) => Some(items),
            _ => None,
        }
    }

    /// The value of a non-negative integer.
    pub open spec fn as_u64(self) -> Option<u64> {
        match self {
            Json::Number(JsonNumber::PosInt(n)) => Some(n),
            _ => None,
        }
    }

    /// The object that has the members of this object and `member` under `key`.
    pub open spec fn with(self, key: Seq<char>, member: Json) -> Json
        recommends
            self is Object,
    {
        Json::Object(self->Object_0.insert(key, member))
    }

    /// The object without members.
    pub open spec fn empty_object() -> Json {
        Json::Object(Map::empty())
    }

    /// The non-negative integer `n`.
    pub open spec fn unsigned(n: u64) -> Json {
        Json::Number(JsonNumber::PosInt(n))
    }
}

} // verus!
