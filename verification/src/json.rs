//! Reading JSON values: members, strings, arrays and whole numbers.
use vstd::prelude::*;

verus! {

/// `serde_json::Value`, a JSON value that this library carries and asks questions of.
#[verifier::external_type_specification]
#[verifier::external_body]
pub struct ExJsonValue(serde_json::Value);

/// The content of a JSON value.
pub enum Json {
    /// `null`.
    Null,
    /// `true` or `false`.
    Flag(bool),
    /// A number, with its value where it is whole and fits 64 signed bits.
    Number(Option<i64>),
    /// A string.
    Text(Seq<char>),
    /// An array.
    List(Seq<Json>),
    /// An object, by member name.
    Object(Map<Seq<char>, Json>),
}

/// What a `serde_json::Value` holds.
pub uninterp spec fn json_content(value: serde_json::Value) -> Json;

impl Json {
    /// The member `key` of an object; nothing for any other value.
    pub open spec fn member(self, key: Seq<char>) -> Option<Json> {
        match self {
            Json::Object(members) => if members.contains_key(key) {
                Some(members[key])
            } else {
                None
            },
            _ => None,
        }
    }

    /// The characters of a string; nothing for any other value.
    pub open spec fn text(self) -> Option<Seq<char>> {
        match self {
            Json::Text(s) => Some(s),
            _ => None,
        }
    }

    /// The elements of an array; nothing for any other value.
    pub open spec fn list(self) -> Option<Seq<Json>> {
        match self {
            Json::List(items) => Some(items),
            _ => None,
        }
    }

    /// A whole number in 64 signed bits; nothing for any other value.
    pub open spec fn integer(self) -> Option<i64> {
        match self {
            Json::Number(n) => n,
            _ => None,
        }
    }

    /// The member `key` where it is a string.
    pub open spec fn text_member(self, key: Seq<char>) -> Option<Seq<char>> {
        match self.member(key) {
            Some(v) => v.text(),
            None => None,
        }
    }
}

/// The contents of a list of JSON values.
pub open spec fn json_contents(values: Seq<serde_json::Value>) -> Seq<Json> {
    values.map_values(|v: serde_json::Value| json_content(v))
}

/// `serde_json::Value::get` with a string: the member of that name where the value is an
/// object that has it, and nothing otherwise.
#[verifier::external_body]
pub(crate) fn json_get<'a>(value: &'a serde_json::Value, key: &str) -> (r: Option<
    &'a serde_json::Value,
>)
    ensures
        r is Some <==> json_content(*value).member(key@) is Some,
        r matches Some(v) ==> json_content(*value).member(key@) == Some(json_content(*v)),
{
    value.get(key)
}

/// `serde_json::Value::as_str`: the characters where the value is a string.
#[verifier::external_body]
pub(crate) fn json_str(value: &serde_json::Value) -> (r: Option<&str>)
    ensures
        r is Some <==> json_content(*value).text() is Some,
        r matches Some(s) ==> json_content(*value).text() == Some(s@),
{
    value.as_str()
}

/// `serde_json::Value::as_array`: the elements where the value is an array.
#[verifier::external_body]
pub(crate) fn json_list(value: &serde_json::Value) -> (r: Option<&Vec<serde_json::Value>>)
    ensures
        r is Some <==> json_content(*value).list() is Some,
        r matches Some(items) ==> json_content(*value).list() == Some(json_contents(items@)),
{
    value.as_array()
}

/// `serde_json::Value::as_i64`: the number where it is whole and fits 64 signed bits.
#[verifier::external_body]
pub(crate) fn json_integer(value: &serde_json::Value) -> (r: Option<i64>)
    ensures
        r == json_content(*value).integer(),
{
    value.as_i64()
}

/// `serde_json::Value::String`: the value is the string.
#[verifier::external_body]
pub(crate) fn json_text(text: String) -> (r: serde_json::Value)
    ensures
        json_content(r) == Json::Text(text@),
{
    serde_json::Value::String(text)
}

/// The member `key` as a string of its own, where it is a string.
pub fn str_field(value: &serde_json::Value, key: &str) -> (r: Option<String>)
    ensures
        crate::text::opt_text(r) == json_content(*value).text_member(key@),
{
    match json_get(value, key) {
        Some(v) => match json_str(v) {
            Some(s) => Some(s.to_owned()),
            None => None,
        },
        None => None,
    }
}

/// A member is read out of an object that has it, and out of nothing else.
pub proof fn law_member_is_read_from_an_object(
    v: Json,
    members: Map<Seq<char>, Json>,
    key: Seq<char>,
    inner: Json,
)
    ensures
        Json::Object(members).member(key) == Some(inner) <==> members.contains_key(key)
            && members[key] == inner,
        !(v is Object) ==> v.member(key) is None,
        Json::Object(members).member(key) is Some <==> members.contains_key(key),
{
}

/// A member counts as a text exactly where it is a string, and then with all its characters.
pub proof fn law_text_member_is_a_string(v: Json, key: Seq<char>, text: Seq<char>)
    ensures
        v.text_member(key) == Some(text) <==> v.member(key) == Some(Json::Text(text)),
{
}

/// An array gives its elements, a number its whole value where it has one, and nothing else
/// gives either.
pub proof fn law_only_arrays_and_numbers_are_read(v: Json, items: Seq<Json>, n: Option<i64>)
    ensures
        Json::List(items).list() == Some(items),
        !(v is List) ==> v.list() is None,
        Json::Number(n).integer() == n,
        !(v is Number) ==> v.integer() is None,
{
}

/// The contents of a list of values are those of its elements, in their order.
pub proof fn law_contents_keep_the_order(values: Seq<serde_json::Value>, k: int)
    ensures
        json_contents(values).len() == values.len(),
        0 <= k < values.len() ==> json_contents(values)[k] == json_content(values[k]),
{
}

} // verus!
