//! JSON documents: the mathematical model of a parsed document, and the
//! parts of `serde_json` through which the library reads one.

use vstd::prelude::*;

verus! {

/// What a JSON document holds.
pub enum Json {
    Null,
    Bool(bool),
    /// A number that the parser holds as an integer.
    Integer(int),
    /// Any other number: one written with a fraction or an exponent, or
    /// too large for an integer of 64 bits.
    Fractional,
    Text(Seq<char>),
    List(Seq<Json>),
    /// The members of an object, each a name and a value, in the order in
    /// which the object hands them out.
    Record(Seq<(Seq<char>, Json)>),
}

/// The value of the first of `members` that is called `name`.
pub open spec fn lookup(members: Seq<(Seq<char>, Json)>, name: Seq<char>) -> Option<Json>
    decreases members.len(),
{
    if members.len() == 0 {
        None
    } else if members[0].0 == name {
        Some(members[0].1)
    } else {
        lookup(members.drop_first(), name)
    }
}

impl Json {
    /// The value of the member called `name`; `None` where there is no such
    /// member or the document is not an object.
    pub open spec fn member(self, name: Seq<char>) -> Option<Json> {
        match self {
            Json::Record(members) => lookup(members, name),
            _ => None,
        }
    }

    /// The names of an object's members, in order; empty for any other
    /// document.
    pub open spec fn names(self) -> Seq<Seq<char>> {
        match self {
            Json::Record(members) => Seq::new(members.len(), |i: int| members[i].0),
            _ => Seq::empty(),
        }
    }

    /// The document as an unsigned 64-bit integer, where it is one.
    pub open spec fn as_u64(self) -> Option<u64> {
        match self {
            Json::Integer(n) if 0 <= n <= u64::MAX => Some(n as u64),
            _ => None,
        }
    }

    /// The document as a signed 64-bit integer, where it is one.
    pub open spec fn as_i64(self) -> Option<i64> {
        match self {
            Json::Integer(n) if i64::MIN <= n <= i64::MAX => Some(n as i64),
            _ => None,
        }
    }
}

/// `serde_json::Value`, carried through as it is: the verifier sees
/// nothing inside it, and `json_of` names what it holds.
#[verifier::external_type_specification]
#[verifier::external_body]
pub struct ExValue(serde_json::Value);

/// The document that a `serde_json::Value` holds.
pub uninterp spec fn json_of(value: serde_json::Value) -> Json;

/// What `serde_json::from_slice` makes of `bytes`: the document, or the
/// text of the parser's error.
pub uninterp spec fn json_parsed(bytes: Seq<u8>) -> Result<Json, Seq<char>>;

/// Parses `bytes` with `serde_json::from_slice` into a `serde_json::Value`.
/// The contract names the outcome: the document that the value holds, or
/// the parser's error rendered as text.
#[verifier::external_body]
pub(crate) fn parse_value(bytes: &[u8]) -> (r: Result<serde_json::Value, String>)
    ensures
        match r {
            Ok(value) => json_parsed(bytes@) == Ok::<Json, Seq<char>>(json_of(value)),
            Err(text) => json_parsed(bytes@) == Err::<Json, Seq<char>>(text@),
        },
{
    serde_json::from_slice::<serde_json::Value>(bytes).map_err(|error| error.to_string())
}

/// `serde_json::Value::get` with a string index: the member of that name,
/// if the value is an object that has one. An object holds no name twice,
/// so the first member of a name is the only one.
#[verifier::external_body]
pub(crate) fn member_of<'a>(value: &'a serde_json::Value, name: &str) -> (r: Option<
    &'a serde_json::Value,
>)
    ensures
        match r {
            Some(found) => json_of(*value).member(name@) == Some(json_of(*found)),
            None => json_of(*value).member(name@) is None,
        },
{
    value.get(name)
}

/// `serde_json::Value::as_object` followed by `serde_json::Map::keys`:
/// the names of an object's members, in the order in which the map hands
/// them out; `None` for a value that is no object.
#[verifier::external_body]
pub(crate) fn names_of(value: &serde_json::Value) -> (r: Option<Vec<String>>)
    ensures
        match r {
            Some(names) => json_of(*value) is Record && json_of(*value).names() == Seq::new(
                names@.len(),
                |i: int| names@[i]@,
            ),
            None => !(json_of(*value) is Record),
        },
{
    value.as_object().map(|members| members.keys().cloned().collect())
}

/// `serde_json::Value::as_array`: the elements, if the value is an array.
pub assume_specification<'a>[ serde_json::Value::as_array ](value: &'a serde_json::Value) -> (r:
    Option<&'a Vec<serde_json::Value>>)
    ensures
        match r {
            Some(items) => json_of(*value) == Json::List(
                Seq::new(items@.len(), |i: int| json_of(items@[i])),
            ),
            None => !(json_of(*value) is List),
        },
;

/// `serde_json::Value::as_str`: the text, if the value is a string.
pub assume_specification<'a>[ serde_json::Value::as_str ](value: &'a serde_json::Value) -> (r:
    Option<&'a str>)
    ensures
        match r {
            Some(text) => json_of(*value) == Json::Text(text@),
            None => !(json_of(*value) is Text),
        },
;

/// `serde_json::Value::as_bool`: the truth value, if the value is one.
pub assume_specification[ serde_json::Value::as_bool ](value: &serde_json::Value) -> (r: Option<
    bool,
>)
    ensures
        match r {
            Some(b) => json_of(*value) == Json::Bool(b),
            None => !(json_of(*value) is Bool),
        },
;

/// `serde_json::Value::is_object`.
pub assume_specification[ serde_json::Value::is_object ](value: &serde_json::Value) -> (r: bool)
    ensures
        r == (json_of(*value) is Record),
;

/// `serde_json::Value::is_null`.
pub assume_specification[ serde_json::Value::is_null ](value: &serde_json::Value) -> (r: bool)
    ensures
        r == (json_of(*value) is Null),
;

/// `serde_json::Value::as_u64`: the number, if the value is an integer
/// that fits.
pub assume_specification[ serde_json::Value::as_u64 ](value: &serde_json::Value) -> (r: Option<
    u64,
>)
    ensures
        r == json_of(*value).as_u64(),
;

/// `serde_json::Value::as_i64`: the number, if the value is an integer
/// that fits.
pub assume_specification[ serde_json::Value::as_i64 ](value: &serde_json::Value) -> (r: Option<
    i64,
>)
    ensures
        r == json_of(*value).as_i64(),
;

} // verus!
