//! JSON values as `serde_json` holds them, and the mathematical model the
//! wire codecs are stated over.
//!
//! Parsing and printing JSON text is `serde_json`'s work. This module gives
//! its `Value` a model, [`Json`], and one small function per `serde_json`
//! operation the codecs use. The contracts of those functions are believed,
//! not proved: each doc comment says which operation is called and what is
//! claimed of it.

use vstd::prelude::*;

verus! {

/// What a JSON value is, independent of how it is stored.
///
/// Numbers come in the three shapes `serde_json` tells apart: an integer that
/// fits `u64`, a negative integer that fits `i64`, and everything else, which
/// it keeps as a double and which is identified here by that double's bits.
pub enum Json {
    Null,
    Bool(bool),
    Unsigned(u64),
    Negative(i64),
    Real(u64),
    Text(Seq<char>),
    Array(Seq<Json>),
    Object(JsonObject),
}

/// What a JSON object is: its members by name, and the names in the order
/// in which the object holds them, which is the order in which they are
/// written.
pub struct JsonObject {
    pub names: Seq<Seq<char>>,
    pub members: Map<Seq<char>, Json>,
}

impl JsonObject {
    /// The object without members.
    pub open spec fn empty() -> JsonObject {
        JsonObject { names: Seq::empty(), members: Map::empty() }
    }

    /// The object with one member set: a member of that name takes the new
    /// value and keeps its place, a new member comes last.
    pub open spec fn with(self, name: Seq<char>, value: Json) -> JsonObject {
        JsonObject {
            names: if self.members.contains_key(name) {
                self.names
            } else {
                self.names.push(name)
            },
            members: self.members.insert(name, value),
        }
    }
}

/// `serde_json::Value`, carried through as it is; [`json_view`] names what
/// it holds.
#[verifier::external_type_specification]
#[verifier::external_body]
pub struct ExValue(serde_json::Value);

/// `serde_json::Map`, carried through as it is; [`object_view`] names what
/// it holds.
#[verifier::external_type_specification]
#[verifier::external_body]
#[verifier::reject_recursive_types(K)]
#[verifier::reject_recursive_types(V)]
pub struct ExObject<K, V>(serde_json::Map<K, V>);

/// `serde_json::Error`, carried through as it is.
#[verifier::external_type_specification]
#[verifier::external_body]
pub struct ExJsonError(serde_json::Error);

/// The JSON value that a `serde_json::Value` holds.
pub uninterp spec fn json_view(value: serde_json::Value) -> Json;

/// The members that a `serde_json::Map` holds, and their order.
pub uninterp spec fn object_view(object: serde_json::Map<String, serde_json::Value>) -> JsonObject;

/// The value that `serde_json` reads from a text, or `None` where it rejects
/// the text.
pub uninterp spec fn json_parse(text: Seq<char>) -> Option<Json>;

/// The compact text that `serde_json` writes for a value.
pub uninterp spec fn json_text(value: Json) -> Seq<char>;

/// The text with which a `serde_json::Error` describes itself.
pub uninterp spec fn error_message(error: serde_json::Error) -> Seq<char>;

/// The models of a sequence of values, element by element.
pub open spec fn json_views(values: Seq<serde_json::Value>) -> Seq<Json> {
    Seq::new(values.len(), |i: int| json_view(values[i]))
}

/// Calls `serde_json::from_str` at type `Value`.
///
/// Claimed: whether the text is accepted, and the value read from it, depend
/// on the text alone; [`json_parse`] names that result.
#[verifier::external_body]
pub(crate) fn parse(text: &str) -> (r: Result<serde_json::Value, serde_json::Error>)
    ensures
        match r {
            Ok(value) => json_parse(text@) == Some(json_view(value)),
            Err(_) => json_parse(text@) is None,
        },
{
    serde_json::from_str::<serde_json::Value>(text)
}

/// Calls `serde_json::to_string` on a `Value`.
///
/// Claimed: the call succeeds, and the text written depends on the value
/// alone; [`json_text`] names it. The printer writes into memory, writes a
/// number that is not finite as `null`, and fails only on a member name that
/// is not a string, which a `Value` cannot hold. That the text is a function
/// of the value holds with `serde_json`'s feature `preserve_order`, under
/// which the members of an object are written in the order in which the
/// object holds them.
#[verifier::external_body]
pub(crate) fn print(value: &serde_json::Value) -> (r: Result<String, serde_json::Error>)
    ensures
        r is Ok,
        r matches Ok(text) ==> text@ == json_text(json_view(*value)),
{
    serde_json::to_string(value)
}

/// Renders a `serde_json::Error` with its `Display` impl.
///
/// Claimed: the text depends on the error alone; [`error_message`] names it.
#[verifier::external_body]
pub(crate) fn error_text(error: &serde_json::Error) -> (text: String)
    ensures
        text@ == error_message(*error),
{
    error.to_string()
}

/// Calls `serde_json::from_value` at type `SystemTime`, which runs serde's
/// decoder for that type, and says whether the decoder accepted the value.
///
/// The decoder refuses, among others, an instant that `SystemTime` cannot
/// hold on this machine. Nothing is claimed of the answer.
#[verifier::external_body]
pub(crate) fn clock_accepts(value: &serde_json::Value) -> bool {
    serde_json::from_value::<std::time::SystemTime>(value.clone()).is_ok()
}

/// Calls `Value::as_object`: the members of an object, `None` for any other
/// value.
#[verifier::external_body]
pub(crate) fn as_object(value: &serde_json::Value) -> (r: Option<&serde_json::Map<String, serde_json::Value>>)
    ensures
        match r {
            Some(object) => json_view(*value) == Json::Object(object_view(*object)),
            None => !(json_view(*value) is Object),
        },
{
    value.as_object()
}

/// Calls `Value::as_array`: the elements of an array, `None` for any other
/// value.
#[verifier::external_body]
pub(crate) fn as_array(value: &serde_json::Value) -> (r: Option<&Vec<serde_json::Value>>)
    ensures
        match r {
            Some(items) => json_view(*value) == Json::Array(json_views(items@)),
            None => !(json_view(*value) is Array),
        },
{
    value.as_array()
}

/// Calls `Value::as_str`: the characters of a string, `None` for any other
/// value.
#[verifier::external_body]
pub(crate) fn as_text(value: &serde_json::Value) -> (r: Option<&str>)
    ensures
        match r {
            Some(text) => json_view(*value) == Json::Text(text@),
            None => !(json_view(*value) is Text),
        },
{
    value.as_str()
}

/// Calls `Value::as_u64`: the number where the value is an integer from 0 to
/// `u64::MAX` written without fraction or exponent, `None` for any other
/// value.
#[verifier::external_body]
pub(crate) fn as_unsigned(value: &serde_json::Value) -> (r: Option<u64>)
    ensures
        match r {
            Some(n) => json_view(*value) == Json::Unsigned(n),
            None => !(json_view(*value) is Unsigned),
        },
{
    value.as_u64()
}

/// Calls `Value::as_bool`: the truth value of `true` or `false`, `None` for
/// any other value.
#[verifier::external_body]
pub(crate) fn as_bool(value: &serde_json::Value) -> (r: Option<bool>)
    ensures
        match r {
            Some(b) => json_view(*value) == Json::Bool(b),
            None => !(json_view(*value) is Bool),
        },
{
    value.as_bool()
}

/// Calls `Map::get`: the member of that name, `None` where the object has
/// none.
#[verifier::external_body]
pub(crate) fn member<'a>(object: &'a serde_json::Map<String, serde_json::Value>, name: &str) -> (r: Option<&'a serde_json::Value>)
    ensures
        match r {
            Some(value) => object_view(*object).members.contains_key(name@)
                && object_view(*object).members[name@] == json_view(*value),
            None => !object_view(*object).members.contains_key(name@),
        },
{
    object.get(name)
}

/// Collects `Map::iter`: every member once, as its name and its value, in
/// the order in which the object holds them.
///
/// Claimed: the pairs are the members in their order, every member's name
/// occurs, and no name occurs twice.
#[verifier::external_body]
pub(crate) fn members<'a>(object: &'a serde_json::Map<String, serde_json::Value>) -> (r: Vec<(&'a String, &'a serde_json::Value)>)
    ensures
        r@.len() == object_view(*object).names.len(),
        forall|i: int|
            0 <= i < r@.len() ==> (#[trigger] r@[i]).0@ == object_view(*object).names[i]
                && object_view(*object).members.contains_key(r@[i].0@)
                && object_view(*object).members[r@[i].0@] == json_view(*r@[i].1),
        forall|name: Seq<char>| #[trigger]
            object_view(*object).members.contains_key(name) ==> exists|i: int|
                0 <= i < r@.len() && (#[trigger] r@[i]).0@ == name,
        forall|i: int, j: int|
            0 <= i < j < r@.len() ==> (#[trigger] r@[i]).0@ != (#[trigger] r@[j]).0@,
{
    object.iter().collect()
}

/// Builds `Value::String`.
#[verifier::external_body]
pub(crate) fn text_value(text: String) -> (r: serde_json::Value)
    ensures
        json_view(r) == Json::Text(text@),
{
    serde_json::Value::String(text)
}

/// Builds `Value::Bool`.
#[verifier::external_body]
pub(crate) fn bool_value(b: bool) -> (r: serde_json::Value)
    ensures
        json_view(r) == Json::Bool(b),
{
    serde_json::Value::Bool(b)
}

/// Calls `Value::from` on a `u64`: the number, held as an unsigned integer.
#[verifier::external_body]
pub(crate) fn unsigned_value(n: u64) -> (r: serde_json::Value)
    ensures
        json_view(r) == Json::Unsigned(n),
{
    serde_json::Value::from(n)
}

/// Builds `Value::Array`.
#[verifier::external_body]
pub(crate) fn array_value(items: Vec<serde_json::Value>) -> (r: serde_json::Value)
    ensures
        json_view(r) == Json::Array(json_views(items@)),
{
    serde_json::Value::Array(items)
}

/// Builds `Value::Object`.
#[verifier::external_body]
pub(crate) fn object_value(object: serde_json::Map<String, serde_json::Value>) -> (r: serde_json::Value)
    ensures
        json_view(r) == Json::Object(object_view(object)),
{
    serde_json::Value::Object(object)
}

/// Calls `Map::new`: an object without members.
#[verifier::external_body]
pub(crate) fn empty_object() -> (r: serde_json::Map<String, serde_json::Value>)
    ensures
        object_view(r) == JsonObject::empty(),
{
    serde_json::Map::new()
}

/// Calls `Map::insert`: the object gets the member, in the place of one of
/// the same name if it had one, and last else; the other members stay.
#[verifier::external_body]
pub(crate) fn set_member(object: &mut serde_json::Map<String, serde_json::Value>, name: String, value: serde_json::Value)
    ensures
        object_view(*final(object)) == object_view(*old(object)).with(name@, json_view(value)),
{
    object.insert(name, value);
}

} // verus!
