//! The JSON boundary. Parsing is done by serde_json; everything the library
//! believes about it is stated here, over a mathematical JSON tree `Jn`.
//! Every other function that touches JSON is verified against these
//! contracts.

use vstd::prelude::*;

verus! {

/// A JSON document as a mathematical value: numbers are kept as their
/// source text, so no precision is lost; objects are key-to-value maps
/// (serde_json's map keeps one value per key, the last one winning).
#[verifier::ext_equal]
pub enum Jn {
    Null,
    Bool(bool),
    Num(Seq<char>),
    Str(Seq<char>),
    Arr(Seq<Jn>),
    Obj(Map<Seq<char>, Jn>),
}

#[verifier::external_type_specification]
#[verifier::external_body]
pub struct ExValue(serde_json::Value);

#[verifier::external_type_specification]
#[verifier::external_body]
pub struct ExJsonError(serde_json::Error);

/// The JSON tree a parsed `serde_json::Value` stands for.
pub uninterp spec fn json_model(v: serde_json::Value) -> Jn;

/// What serde_json's parser yields on a byte stream: the document's tree,
/// or nothing when the bytes are not one well-formed JSON document.
pub uninterp spec fn json_doc_of(b: Seq<u8>) -> Option<Jn>;

/// Relies on `serde_json::from_slice::<Value>` (with the
/// `arbitrary_precision` feature, so number tokens are kept as text): one
/// whole-document parse, `Err` exactly on malformed input.
#[verifier::external_body]
pub fn parse_json(b: &[u8]) -> (r: Result<serde_json::Value, serde_json::Error>)
    ensures
        r is Ok <==> json_doc_of(b@) is Some,
        r is Ok ==> Some(json_model(r->Ok_0)) == json_doc_of(b@),
{
    serde_json::from_slice::<serde_json::Value>(b)
}

/// Relies on `serde_json::Error`'s `Display`: a human-readable diagnostic
/// with the line and column of the fault.
#[verifier::external_body]
pub fn json_error_text(e: &serde_json::Error) -> (r: String) {
    e.to_string()
}

/// Relies on `serde_json::Value::get` with a string index: member lookup on
/// an object, `None` on every other value kind.
#[verifier::external_body]
pub fn json_get<'a>(v: &'a serde_json::Value, key: &str) -> (r: Option<&'a serde_json::Value>)
    ensures
        json_model(*v) is Obj ==> (r is Some <==> json_model(*v)->Obj_0.dom().contains(key@)),
        json_model(*v) is Obj && r is Some ==> json_model(*r->Some_0) == json_model(
            *v,
        )->Obj_0[key@],
        !(json_model(*v) is Obj) ==> r is None,
{
    v.get(key)
}

/// Relies on `serde_json::Value::as_str`: the string payload of a string
/// value, `None` on every other kind.
#[verifier::external_body]
pub fn json_as_str<'a>(v: &'a serde_json::Value) -> (r: Option<&'a str>)
    ensures
        r is Some <==> json_model(*v) is Str,
        r is Some ==> r->Some_0@ == json_model(*v)->Str_0,
{
    v.as_str()
}

/// Relies on `serde_json::Value::as_array`: the elements of an array value,
/// `None` on every other kind.
#[verifier::external_body]
pub fn json_as_array<'a>(v: &'a serde_json::Value) -> (r: Option<&'a Vec<serde_json::Value>>)
    ensures
        r is Some <==> json_model(*v) is Arr,
        r is Some ==> r->Some_0@.len() == json_model(*v)->Arr_0.len(),
        r is Some ==> forall|i: int|
            0 <= i < r->Some_0@.len() ==> json_model(#[trigger] r->Some_0@[i]) == json_model(
                *v,
            )->Arr_0[i],
{
    v.as_array()
}

/// Relies on `serde_json::Value::is_object`.
#[verifier::external_body]
pub fn json_is_object(v: &serde_json::Value) -> (r: bool)
    ensures
        r == (json_model(*v) is Obj),
{
    v.is_object()
}

/// Relies on `serde_json::Value::is_null`.
#[verifier::external_body]
pub fn json_is_null(v: &serde_json::Value) -> (r: bool)
    ensures
        r == (json_model(*v) is Null),
{
    v.is_null()
}

/// Relies on `serde_json::Value::Number` and `Number`'s `Display`: with the
/// `arbitrary_precision` feature the text of a number value is the original
/// source token.
#[verifier::external_body]
pub fn json_num_text(v: &serde_json::Value) -> (r: Option<String>)
    ensures
        r is Some <==> json_model(*v) is Num,
        r is Some ==> r->Some_0@ == json_model(*v)->Num_0,
{
    match v {
        serde_json::Value::Number(n) => Some(n.to_string()),
        _ => None,
    }
}

} // verus!
