//! The values of a settings file, as the `serde_hjson` crate reads them, and
//! what this library takes for granted of that crate.

use vstd::prelude::*;

verus! {

#[verifier::external_type_specification]
#[verifier::external_body]
pub struct ExValue(serde_hjson::Value);

/// What a value of a settings file holds.
pub enum Hjson {
    Null,
    Bool(bool),
    I64(int),
    U64(int),
    F64,
    String(Seq<char>),
    Array(Seq<Hjson>),
    Object(Map<Seq<char>, Hjson>),
}

/// The kinds of value that a settings file has.
#[derive(Debug, Clone, Copy, PartialEq, Eq, Structural)]
pub enum ValueKind {
    Null,
    Bool,
    I64,
    U64,
    F64,
    String,
    Array,
    Object,
}

impl Hjson {
    /// The kind of the value.
    pub open spec fn kind(self) -> ValueKind {
        match self {
            Hjson::Null => ValueKind::Null,
            Hjson::Bool(_) => ValueKind::Bool,
            Hjson::I64(_) => ValueKind::I64,
            Hjson::U64(_) => ValueKind::U64,
            Hjson::F64 => ValueKind::F64,
            Hjson::String(_) => ValueKind::String,
            Hjson::Array(_) => ValueKind::Array,
            Hjson::Object(_) => ValueKind::Object,
        }
    }

    /// The entry `key` of an object; nothing of any other value.
    pub open spec fn find(self, key: Seq<char>) -> Option<Hjson> {
        match self {
            Hjson::Object(entries) => if entries.dom().contains(key) {
                Some(entries[key])
            } else {
                None
            },
            _ => None,
        }
    }

    /// A number as an unsigned integer, if it is a whole number that is not
    /// negative.
    pub open spec fn as_u64(self) -> Option<int> {
        match self {
            Hjson::I64(n) => if n >= 0 {
                Some(n)
            } else {
                None
            },
            Hjson::U64(n) => Some(n),
            _ => None,
        }
    }

    /// A number as a signed integer, if it is a whole number that fits.
    pub open spec fn as_i64(self) -> Option<int> {
        match self {
            Hjson::I64(n) => Some(n),
            Hjson::U64(n) => if n <= i64::MAX {
                Some(n)
            } else {
                None
            },
            _ => None,
        }
    }

    /// The text of a string; nothing of any other value.
    pub open spec fn as_str(self) -> Option<Seq<char>> {
        match self {
            Hjson::String(text) => Some(text),
            _ => None,
        }
    }

    /// The items of an array; nothing of any other value.
    pub open spec fn as_array(self) -> Option<Seq<Hjson>> {
        match self {
            Hjson::Array(items) => Some(items),
            _ => None,
        }
    }
}

/// What `value` holds.
pub uninterp spec fn hjson_of(value: serde_hjson::Value) -> Hjson;

/// What the values of `items` hold, in order.
pub open spec fn hjsons_of(items: Seq<serde_hjson::Value>) -> Seq<Hjson> {
    items.map_values(|item: serde_hjson::Value| hjson_of(item))
}

/// Tells the variants of `serde_hjson::Value` apart.
#[verifier::external_body]
pub(crate) fn value_kind(value: &serde_hjson::Value) -> (kind: ValueKind)
    ensures
        kind == hjson_of(*value).kind(),
{
    match value {
        serde_hjson::Value::Null => ValueKind::Null,
        serde_hjson::Value::Bool(_) => ValueKind::Bool,
        serde_hjson::Value::I64(_) => ValueKind::I64,
        serde_hjson::Value::U64(_) => ValueKind::U64,
        serde_hjson::Value::F64(_) => ValueKind::F64,
        serde_hjson::Value::String(_) => ValueKind::String,
        serde_hjson::Value::Array(_) => ValueKind::Array,
        serde_hjson::Value::Object(_) => ValueKind::Object,
    }
}

/// `Value::find`: the value that an object has under `key`; `None` where
/// the object has no such key, and where `value` is no object.
#[verifier::external_body]
pub(crate) fn value_find<'a>(value: &'a serde_hjson::Value, key: &str) -> (found: Option<
    &'a serde_hjson::Value,
>)
    ensures
        match found {
            Some(entry) => hjson_of(*value).find(key@) == Some(hjson_of(*entry)),
            None => hjson_of(*value).find(key@) is None,
        },
{
    value.find(key)
}

/// `Value::as_array`: the items of an array; `None` for any other value.
#[verifier::external_body]
pub(crate) fn value_as_array<'a>(value: &'a serde_hjson::Value) -> (items: Option<
    &'a Vec<serde_hjson::Value>,
>)
    ensures
        match items {
            Some(items) => hjson_of(*value).as_array() == Some(hjsons_of(items@)),
            None => hjson_of(*value).as_array() is None,
        },
{
    value.as_array()
}

/// `Value::as_str`: the text of a string; `None` for any other value.
#[verifier::external_body]
pub(crate) fn value_as_str<'a>(value: &'a serde_hjson::Value) -> (text: Option<&'a str>)
    ensures
        match text {
            Some(text) => hjson_of(*value).as_str() == Some(text@),
            None => hjson_of(*value).as_str() is None,
        },
{
    value.as_str()
}

/// `Value::as_u64`: an unsigned integer as it is, a signed integer if it is
/// not negative; `None` for a negative integer and for any other value.
#[verifier::external_body]
pub(crate) fn value_as_u64(value: &serde_hjson::Value) -> (number: Option<u64>)
    ensures
        match number {
            Some(n) => hjson_of(*value).as_u64() == Some(n as int),
            None => hjson_of(*value).as_u64() is None,
        },
{
    value.as_u64()
}

/// `Value::as_i64`: a signed integer as it is, an unsigned integer if it
/// fits; `None` for a larger integer and for any other value.
#[verifier::external_body]
pub(crate) fn value_as_i64(value: &serde_hjson::Value) -> (number: Option<i64>)
    ensures
        match number {
            Some(n) => hjson_of(*value).as_i64() == Some(n as int),
            None => hjson_of(*value).as_i64() is None,
        },
{
    value.as_i64()
}

} // verus!
