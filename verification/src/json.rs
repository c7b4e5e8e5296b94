//! The JSON boundary.
//!
//! Parsing bytes into a JSON tree is serde_json's work; everything read
//! out of the tree afterwards is verified. A parsed `serde_json::Value` is
//! opaque here, so its content is named by the uninterpreted view [`jv`],
//! and each accessor the decoders call is a small trusted wrapper whose
//! contract relates what it returns to that view.

use vstd::prelude::*;

use crate::scalar::{RawScalar, ScalarV};

verus! {

#[verifier::external_type_specification]
#[verifier::external_body]
pub struct ExValue(serde_json::Value);

/// Ghost shape of a JSON document: scalars carry their content, a number
/// carries its decimal text, an object is a map from field name to value
/// (later duplicates win, as in serde_json's map).
pub enum JsonSpec {
    NullJ,
    BoolJ(bool),
    NumJ(Seq<char>),
    StrJ(Seq<char>),
    ArrJ(Seq<JsonSpec>),
    ObjJ(Map<Seq<char>, JsonSpec>),
}

/// The content of a parsed JSON value. A `serde_json::Value` is a plain
/// tree of the six JSON shapes, so its content is a function of the value
/// alone; a number's text is its deterministic decimal rendering.
pub uninterp spec fn jv(v: serde_json::Value) -> JsonSpec;

/// What parsing a text as JSON yields: the parser is deterministic, so the
/// outcome is a function of the text alone.
pub uninterp spec fn parsed_json(s: Seq<char>) -> Option<JsonSpec>;

/// Relies on serde_json::from_str::<Value>: deterministic; on success the
/// returned tree is the parse of the input text.
#[verifier::external_body]
pub fn parse_json(s: &str) -> (r: Option<serde_json::Value>)
    ensures
        r is Some <==> parsed_json(s@) is Some,
        r matches Some(v) ==> parsed_json(s@) == Some(jv(v)),
{
    serde_json::from_str(s).ok()
}

/// Relies on serde_json::Value::is_null: true exactly on the null value.
#[verifier::external_body]
pub fn is_null(v: &serde_json::Value) -> (r: bool)
    ensures
        r <==> jv(*v) is NullJ,
{
    v.is_null()
}

/// Relies on serde_json::Value::as_bool: the boolean content exactly when
/// the value is a boolean.
#[verifier::external_body]
pub fn as_bool(v: &serde_json::Value) -> (r: Option<bool>)
    ensures
        (match jv(*v) {
            JsonSpec::BoolJ(b) => r == Some(b),
            _ => r is None,
        }),
{
    v.as_bool()
}

/// Relies on serde_json::Value::as_str: the string content exactly when
/// the value is a string.
#[verifier::external_body]
pub fn as_text<'a>(v: &'a serde_json::Value) -> (r: Option<&'a str>)
    ensures
        (match jv(*v) {
            JsonSpec::StrJ(t) => r matches Some(s) && s@ == t,
            _ => r is None,
        }),
{
    v.as_str()
}

/// Relies on serde_json::Value matching its Number variant and on
/// Number::to_string, whose decimal rendering is deterministic.
#[verifier::external_body]
pub fn number_text(v: &serde_json::Value) -> (r: Option<String>)
    ensures
        (match jv(*v) {
            JsonSpec::NumJ(t) => r matches Some(s) && s@ == t,
            _ => r is None,
        }),
{
    match v {
        serde_json::Value::Number(n) => Some(n.to_string()),
        _ => None,
    }
}

/// Relies on serde_json::Value::as_array: the element vector exactly when
/// the value is an array, elements in order.
#[verifier::external_body]
pub fn as_array<'a>(v: &'a serde_json::Value) -> (r: Option<&'a Vec<serde_json::Value>>)
    ensures
        (match jv(*v) {
            JsonSpec::ArrJ(js) => r matches Some(a) && a@.len() == js.len() && (forall|i: int|
                0 <= i < js.len() ==> jv(#[trigger] a@[i]) == js[i]),
            _ => r is None,
        }),
{
    v.as_array()
}

/// Relies on serde_json::Value::is_object: true exactly on objects.
#[verifier::external_body]
pub fn is_object(v: &serde_json::Value) -> (r: bool)
    ensures
        r <==> jv(*v) is ObjJ,
{
    v.is_object()
}

/// Relies on serde_json::Value::get with a string key: on an object it
/// looks the field up by name, on anything else it gives nothing.
#[verifier::external_body]
pub fn get_field<'a>(v: &'a serde_json::Value, name: &str) -> (r: Option<&'a serde_json::Value>)
    ensures
        (match jv(*v) {
            JsonSpec::ObjJ(m) => (r is Some <==> m.dom().contains(name@)) && (r matches Some(u)
                ==> jv(*u) == m[name@]),
            _ => r is None,
        }),
{
    v.get(name)
}

/// Relies on serde_json::Value::clone: the copy carries the same content.
#[verifier::external_body]
pub fn clone_value(v: &serde_json::Value) -> (r: serde_json::Value)
    ensures
        jv(r) == jv(*v),
{
    v.clone()
}

// ---------------------------------------------------------------------------
// Projection into the raw-scalar representation
// ---------------------------------------------------------------------------

/// How a JSON value projects into the explicit any-scalar representation:
/// arrays and objects where a scalar was expected become the composite
/// marker, which every scalar rule refuses.
pub open spec fn spec_scalar_of(j: JsonSpec) -> ScalarV {
    match j {
        JsonSpec::NullJ => ScalarV::NullV,
        JsonSpec::BoolJ(b) => ScalarV::BoolV(b),
        JsonSpec::NumJ(t) => ScalarV::NumV(t),
        JsonSpec::StrJ(t) => ScalarV::TextV(t),
        JsonSpec::ArrJ(_) => ScalarV::CompositeV,
        JsonSpec::ObjJ(_) => ScalarV::CompositeV,
    }
}

/// Projects a JSON value into the raw-scalar representation every field
/// decoder starts from.
pub fn scalar_of(v: &serde_json::Value) -> (r: RawScalar)
    ensures
        r@ == spec_scalar_of(jv(*v)),
{
    if is_null(v) {
        return RawScalar::Null;
    }
    if let Some(b) = as_bool(v) {
        return RawScalar::BoolLit(b);
    }
    if let Some(t) = number_text(v) {
        return RawScalar::NumText(t);
    }
    if let Some(s) = as_text(v) {
        return RawScalar::Text(s.to_owned());
    }
    RawScalar::Composite
}

} // verus!
