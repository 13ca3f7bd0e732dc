//! The trusted boundary to `serde_json`: the opaque value type, a ghost
//! model of what such a value holds, and the few accessor calls the payload
//! reader makes, each specified against that model.

use vstd::prelude::*;

verus! {

#[verifier::external_type_specification]
#[verifier::external_body]
pub struct ExJsonValue(serde_json::Value);

/// The ghost shape of a JSON value, as far as the accessors below read it:
/// a number is modelled by what `as_i64` returns for it, an object by the
/// map from its keys to the models of its members.
pub ghost enum JsonView {
    Null,
    Bool(bool),
    Num(Option<i64>),
    Str(Seq<char>),
    Arr(Seq<JsonView>),
    Obj(Map<Seq<char>, JsonView>),
}

/// What a parsed `serde_json::Value` holds. The value is opaque, so its
/// content only gets a name; the accessors below are each specified over it.
pub uninterp spec fn json_view(v: serde_json::Value) -> JsonView;

/// The models of the elements of an array of values.
pub open spec fn json_views_of(s: Seq<serde_json::Value>) -> Seq<JsonView> {
    s.map_values(|x: serde_json::Value| json_view(x))
}

/// Whether a string is a well-formed JSON document. What that takes cannot
/// be stated in a few lines, so it only gets a name here.
pub uninterp spec fn is_valid_json(s: Seq<char>) -> bool;

/// The model of the value that a well-formed JSON document parses to; a
/// function of the document text alone.
pub uninterp spec fn json_of(s: Seq<char>) -> JsonView;

/// Relies on `serde_json::from_str`: succeeds exactly on a string that is a
/// well-formed JSON document, and the parsed value, like the success, is a
/// function of the input alone.
#[verifier::external_body]
pub(crate) fn json_from_str(s: &str) -> (r: Option<serde_json::Value>)
    ensures
        r is Some <==> is_valid_json(s@),
        r matches Some(v) ==> json_view(v) == json_of(s@),
{
    serde_json::from_str::<serde_json::Value>(s).ok()
}

/// Relies on `serde_json::Value::get`: on an object, the member under the
/// key, or nothing where the key is absent; nothing on any other value.
#[verifier::external_body]
pub(crate) fn json_get<'a>(v: &'a serde_json::Value, key: &str) -> (r: Option<
    &'a serde_json::Value,
>)
    ensures
        match json_view(*v) {
            JsonView::Obj(m) => match r {
                Some(x) => m.contains_key(key@) && json_view(*x) == m[key@],
                None => !m.contains_key(key@),
            },
            _ => r is None,
        },
{
    v.get(key)
}

/// Relies on `serde_json::Value::as_array`: the elements where the value is
/// an array, nothing otherwise.
#[verifier::external_body]
pub(crate) fn json_as_array(v: &serde_json::Value) -> (r: Option<&Vec<serde_json::Value>>)
    ensures
        match json_view(*v) {
            JsonView::Arr(elems) => r matches Some(a) && json_views_of(a@) == elems,
            _ => r is None,
        },
{
    v.as_array()
}

/// Relies on `serde_json::Value::as_str`: the text where the value is a
/// string, nothing otherwise.
#[verifier::external_body]
pub(crate) fn json_as_str(v: &serde_json::Value) -> (r: Option<&str>)
    ensures
        match json_view(*v) {
            JsonView::Str(s) => r matches Some(t) && t@ == s,
            _ => r is None,
        },
{
    v.as_str()
}

/// Relies on `serde_json::Value::as_i64`: the integer where the value is a
/// number representable as `i64`, nothing otherwise.
#[verifier::external_body]
pub(crate) fn json_as_i64(v: &serde_json::Value) -> (r: Option<i64>)
    ensures
        match json_view(*v) {
            JsonView::Num(oi) => r == oi,
            _ => r is None,
        },
{
    v.as_i64()
}

/// Relies on `serde_json::Value::is_null`: whether the value is JSON null.
#[verifier::external_body]
pub(crate) fn json_is_null(v: &serde_json::Value) -> (r: bool)
    ensures
        r == (json_view(*v) is Null),
{
    v.is_null()
}

} // verus!
