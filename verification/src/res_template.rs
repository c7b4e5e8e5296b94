//! The response envelope.
//!
//! Every response is a success/data/errors/warnings wrapper around a
//! payload type. Envelope-level fields decode independently of the
//! payload; payload elements decode one at a time through the payload
//! type's own decoder, and any single element failure fails the whole
//! decode. A successful decode carrying success=false is valid data, not
//! an error: the caller inspects the flag itself.

use vstd::prelude::*;

use crate::fields::{
    f_bool, f_text_vec, fetch, obj_field, spec_f_bool, spec_f_text_vec, DecodeError,
};
use crate::json::{as_array, clone_value, get_field, jv, parse_json, parsed_json, JsonSpec};

verus! {

/// The whole response failed to decode: the body is not JSON, an
/// envelope-level field is missing or misshapen, or one payload element
/// was refused.
#[derive(Debug, Clone, PartialEq, Eq)]
pub enum EnvelopeDecodeError {
    /// The body is not a JSON document.
    Syntax,
    /// An envelope-level field is missing or of the wrong shape.
    Envelope { fault: DecodeError },
    /// One payload element was refused; nothing is silently dropped.
    Element { index: usize, fault: DecodeError },
}

/// A payload type that decodes itself from one JSON value.
pub trait JsonDecode: Sized {
    /// The ghost value a decoded payload stands for.
    type SV;

    spec fn sview(&self) -> Self::SV;

    /// What decoding a JSON value into this type yields.
    spec fn spec_decode(j: JsonSpec) -> Option<Self::SV>;

    /// Decodes one JSON value, succeeding exactly where the ghost decode
    /// does.
    fn decode_json(v: &serde_json::Value) -> (r: Result<Self, DecodeError>)
        ensures
            r matches Ok(t) ==> Self::spec_decode(jv(*v)) == Some(t.sview()),
            r is Err ==> Self::spec_decode(jv(*v)) is None,
    ;
}

/// Ghost value of a decoded envelope.
pub struct EnvelopeV<SV> {
    pub success: bool,
    pub data: Seq<SV>,
    pub errors: Seq<Seq<char>>,
    pub warnings: Seq<JsonSpec>,
    pub info: JsonSpec,
    pub message_codes: Seq<Seq<char>>,
    pub error_codes: Seq<Seq<char>>,
    pub warning_codes: Seq<Seq<char>>,
    pub info_codes: Seq<JsonSpec>,
}

/// The decoded envelope: the success flag, the payload records in order,
/// and the diagnostic arrays. Warning and info values carry no
/// behavior-relevant structure, so they stay opaque JSON values.
#[derive(Debug)]
pub struct ResponseTemplate<NPData> {
    pub success: bool,
    pub data: Vec<NPData>,
    pub errors: Vec<String>,
    pub warnings: Vec<serde_json::Value>,
    pub info: serde_json::Value,
    pub message_codes: Vec<String>,
    pub error_codes: Vec<String>,
    pub warning_codes: Vec<String>,
    pub info_codes: Vec<serde_json::Value>,
}

impl<T: JsonDecode> View for ResponseTemplate<T> {
    type V = EnvelopeV<T::SV>;

    open spec fn view(&self) -> EnvelopeV<T::SV> {
        EnvelopeV {
            success: self.success,
            data: self.data@.map(|i: int, t: T| t.sview()),
            errors: self.errors@.map(|i: int, s: String| s@),
            warnings: self.warnings@.map(|i: int, x: serde_json::Value| jv(x)),
            info: jv(self.info),
            message_codes: self.message_codes@.map(|i: int, s: String| s@),
            error_codes: self.error_codes@.map(|i: int, s: String| s@),
            warning_codes: self.warning_codes@.map(|i: int, s: String| s@),
            info_codes: self.info_codes@.map(|i: int, x: serde_json::Value| jv(x)),
        }
    }
}

/// Every element decodes.
pub open spec fn all_elems_ok<T: JsonDecode>(js: Seq<JsonSpec>) -> bool {
    forall|i: int| 0 <= i < js.len() ==> (#[trigger] T::spec_decode(js[i])) is Some
}

/// The decoded elements of an array whose elements all decode.
pub open spec fn decoded_elems<T: JsonDecode>(js: Seq<JsonSpec>) -> Seq<T::SV> {
    js.map(|i: int, x: JsonSpec| T::spec_decode(x)->Some_0)
}

/// A field that must be an array, its raw elements kept.
pub open spec fn spec_f_raw_vec(j: JsonSpec, name: Seq<char>) -> Option<Seq<JsonSpec>> {
    match obj_field(j, name) {
        Some(JsonSpec::ArrJ(js)) => Some(js),
        _ => None,
    }
}

/// What decoding a whole envelope around payload type `T` yields: every
/// envelope field must be present and of its shape, and every payload
/// element must decode.
pub open spec fn spec_decode_envelope<T: JsonDecode>(j: JsonSpec) -> Option<EnvelopeV<T::SV>> {
    if {
        &&& spec_f_bool(j, "success"@) is Some
        &&& spec_f_raw_vec(j, "data"@) is Some
        &&& all_elems_ok::<T>(spec_f_raw_vec(j, "data"@)->Some_0)
        &&& spec_f_text_vec(j, "errors"@) is Some
        &&& spec_f_raw_vec(j, "warnings"@) is Some
        &&& obj_field(j, "info"@) is Some
        &&& spec_f_text_vec(j, "messageCodes"@) is Some
        &&& spec_f_text_vec(j, "errorCodes"@) is Some
        &&& spec_f_text_vec(j, "warningCodes"@) is Some
        &&& spec_f_raw_vec(j, "infoCodes"@) is Some
    } {
        Some(
            EnvelopeV {
                success: spec_f_bool(j, "success"@)->Some_0,
                data: decoded_elems::<T>(spec_f_raw_vec(j, "data"@)->Some_0),
                errors: spec_f_text_vec(j, "errors"@)->Some_0,
                warnings: spec_f_raw_vec(j, "warnings"@)->Some_0,
                info: obj_field(j, "info"@)->Some_0,
                message_codes: spec_f_text_vec(j, "messageCodes"@)->Some_0,
                error_codes: spec_f_text_vec(j, "errorCodes"@)->Some_0,
                warning_codes: spec_f_text_vec(j, "warningCodes"@)->Some_0,
                info_codes: spec_f_raw_vec(j, "infoCodes"@)->Some_0,
            },
        )
    } else {
        None
    }
}

/// Reads an array field, keeping its elements as opaque JSON values.
fn f_raw_vec(v: &serde_json::Value, name: &str) -> (r: Result<Vec<serde_json::Value>, DecodeError>)
    ensures
        r matches Ok(out) ==> spec_f_raw_vec(jv(*v), name@) == Some(
            out@.map(|i: int, x: serde_json::Value| jv(x)),
        ),
        r is Err <==> spec_f_raw_vec(jv(*v), name@) is None,
{
    let u = fetch(v, name)?;
    match as_array(u) {
        Some(arr) => {
            let ghost js = jv(*u)->ArrJ_0;
            let n = arr.len();
            let mut out: Vec<serde_json::Value> = Vec::new();
            let mut i: usize = 0;
            while i < n
                invariant
                    0 <= i <= n,
                    jv(*u) is ArrJ,
                    js == jv(*u)->ArrJ_0,
                    n == arr@.len(),
                    n == js.len(),
                    forall|k: int| 0 <= k < n ==> jv(#[trigger] arr@[k]) == js[k],
                    out@.len() == i,
                    forall|k: int| 0 <= k < i ==> jv(#[trigger] out@[k]) == js[k],
                decreases n - i,
            {
                out.push(clone_value(&arr[i]));
                i += 1;
            }
            proof {
                assert(out@.map(|k: int, x: serde_json::Value| jv(x)) =~= js);
            }
            Ok(out)
        },
        None => Err(
            DecodeError::BadShape { field: name.to_owned(), expected: "an array".to_owned() },
        ),
    }
}

/// A field that must be an array of records of type `T`, each decoding.
pub open spec fn spec_f_elems<T: JsonDecode>(j: JsonSpec, name: Seq<char>) -> Option<Seq<T::SV>> {
    match obj_field(j, name) {
        Some(JsonSpec::ArrJ(js)) => if all_elems_ok::<T>(js) {
            Some(decoded_elems::<T>(js))
        } else {
            None
        },
        _ => None,
    }
}

/// Reads an array field whose elements are records of type `T`, each
/// element decoding through the type's own decoder; one refused element
/// refuses the field.
pub fn f_elems<T: JsonDecode>(v: &serde_json::Value, name: &str) -> (r: Result<Vec<T>, DecodeError>)
    ensures
        r matches Ok(out) ==> spec_f_elems::<T>(jv(*v), name@) == Some(
            out@.map(|i: int, t: T| t.sview()),
        ),
        r is Err <==> spec_f_elems::<T>(jv(*v), name@) is None,
{
    let u = fetch(v, name)?;
    match as_array(u) {
        Some(arr) => {
            let ghost js = jv(*u)->ArrJ_0;
            let n = arr.len();
            let mut out: Vec<T> = Vec::new();
            let mut i: usize = 0;
            while i < n
                invariant
                    0 <= i <= n,
                    jv(*u) is ArrJ,
                    js == jv(*u)->ArrJ_0,
                    obj_field(jv(*v), name@) == Some(jv(*u)),
                    n == arr@.len(),
                    n == js.len(),
                    forall|k: int| 0 <= k < n ==> jv(#[trigger] arr@[k]) == js[k],
                    out@.len() == i,
                    forall|k: int| 0 <= k < i ==> (#[trigger] T::spec_decode(js[k])) is Some,
                    forall|k: int|
                        0 <= k < i ==> (#[trigger] out@[k]).sview() == T::spec_decode(
                            js[k],
                        )->Some_0,
                decreases n - i,
            {
                match T::decode_json(&arr[i]) {
                    Ok(t) => {
                        out.push(t);
                    },
                    Err(e) => {
                        proof {
                            assert(T::spec_decode(js[i as int]) is None);
                            assert(!all_elems_ok::<T>(js));
                        }
                        return Err(e);
                    },
                }
                i += 1;
            }
            proof {
                assert(out@.map(|k: int, t: T| t.sview()) =~= decoded_elems::<T>(js));
            }
            Ok(out)
        },
        None => Err(
            DecodeError::BadShape { field: name.to_owned(), expected: "an array".to_owned() },
        ),
    }
}

/// Decodes every element of the data array, in order, failing on the
/// first refused element.
fn decode_elements<T: JsonDecode>(v: &serde_json::Value, name: &str) -> (r: Result<
    Vec<T>,
    EnvelopeDecodeError,
>)
    ensures
        r matches Ok(out) ==> spec_f_raw_vec(jv(*v), name@) matches Some(js)
            && all_elems_ok::<T>(js) && out@.map(|i: int, t: T| t.sview()) == decoded_elems::<T>(
            js,
        ),
        r is Err ==> (spec_f_raw_vec(jv(*v), name@) is None || !all_elems_ok::<T>(
            spec_f_raw_vec(jv(*v), name@)->Some_0,
        )),
{
    let u = match fetch(v, name) {
        Ok(u) => u,
        Err(e) => {
            return Err(EnvelopeDecodeError::Envelope { fault: e });
        },
    };
    match as_array(u) {
        Some(arr) => {
            let ghost js = jv(*u)->ArrJ_0;
            let n = arr.len();
            let mut out: Vec<T> = Vec::new();
            let mut i: usize = 0;
            while i < n
                invariant
                    0 <= i <= n,
                    jv(*u) is ArrJ,
                    js == jv(*u)->ArrJ_0,
                    spec_f_raw_vec(jv(*v), name@) == Some(js),
                    n == arr@.len(),
                    n == js.len(),
                    forall|k: int| 0 <= k < n ==> jv(#[trigger] arr@[k]) == js[k],
                    out@.len() == i,
                    forall|k: int| 0 <= k < i ==> (#[trigger] T::spec_decode(js[k])) is Some,
                    forall|k: int|
                        0 <= k < i ==> (#[trigger] out@[k]).sview() == T::spec_decode(
                            js[k],
                        )->Some_0,
                decreases n - i,
            {
                match T::decode_json(&arr[i]) {
                    Ok(t) => {
                        out.push(t);
                    },
                    Err(e) => {
                        proof {
                            assert(T::spec_decode(js[i as int]) is None);
                            assert(!all_elems_ok::<T>(js));
                        }
                        return Err(EnvelopeDecodeError::Element { index: i, fault: e });
                    },
                }
                i += 1;
            }
            proof {
                assert(out@.map(|k: int, t: T| t.sview()) =~= decoded_elems::<T>(js));
            }
            Ok(out)
        },
        None => Err(
            EnvelopeDecodeError::Envelope {
                fault: DecodeError::BadShape {
                    field: name.to_owned(),
                    expected: "an array".to_owned(),
                },
            },
        ),
    }
}

/// Decodes a parsed JSON document as an envelope around payload type `T`,
/// succeeding on exactly the documents the envelope shape accepts.
pub fn decode_envelope_value<T: JsonDecode>(v: &serde_json::Value) -> (r: Result<
    ResponseTemplate<T>,
    EnvelopeDecodeError,
>)
    ensures
        r matches Ok(env) ==> spec_decode_envelope::<T>(jv(*v)) == Some(env@),
        r is Err <==> spec_decode_envelope::<T>(jv(*v)) is None,
{
    let success = match f_bool(v, "success") {
        Ok(b) => b,
        Err(e) => {
            return Err(EnvelopeDecodeError::Envelope { fault: e });
        },
    };
    let data = decode_elements::<T>(v, "data")?;
    let errors = match f_text_vec(v, "errors") {
        Ok(x) => x,
        Err(e) => {
            return Err(EnvelopeDecodeError::Envelope { fault: e });
        },
    };
    let warnings = match f_raw_vec(v, "warnings") {
        Ok(x) => x,
        Err(e) => {
            return Err(EnvelopeDecodeError::Envelope { fault: e });
        },
    };
    let info = match get_field(v, "info") {
        Some(u) => clone_value(u),
        None => {
            return Err(
                EnvelopeDecodeError::Envelope {
                    fault: DecodeError::MissingField { field: "info".to_owned() },
                },
            );
        },
    };
    let message_codes = match f_text_vec(v, "messageCodes") {
        Ok(x) => x,
        Err(e) => {
            return Err(EnvelopeDecodeError::Envelope { fault: e });
        },
    };
    let error_codes = match f_text_vec(v, "errorCodes") {
        Ok(x) => x,
        Err(e) => {
            return Err(EnvelopeDecodeError::Envelope { fault: e });
        },
    };
    let warning_codes = match f_text_vec(v, "warningCodes") {
        Ok(x) => x,
        Err(e) => {
            return Err(EnvelopeDecodeError::Envelope { fault: e });
        },
    };
    let info_codes = match f_raw_vec(v, "infoCodes") {
        Ok(x) => x,
        Err(e) => {
            return Err(EnvelopeDecodeError::Envelope { fault: e });
        },
    };
    Ok(
        ResponseTemplate {
            success,
            data,
            errors,
            warnings,
            info,
            message_codes,
            error_codes,
            warning_codes,
            info_codes,
        },
    )
}

/// Decodes a response body: parses it as JSON, then decodes the envelope.
/// Which texts parse is the JSON parser's affair; the envelope decode of
/// the parsed document is pinned exactly.
pub fn decode_envelope_str<T: JsonDecode>(s: &str) -> (r: Result<
    ResponseTemplate<T>,
    EnvelopeDecodeError,
>)
    ensures
        parsed_json(s@) is None ==> r == Err::<ResponseTemplate<T>, _>(
            EnvelopeDecodeError::Syntax,
        ),
        parsed_json(s@) matches Some(j) ==> (r matches Ok(env) ==> spec_decode_envelope::<T>(j)
            == Some(env@)) && (r is Err <==> spec_decode_envelope::<T>(j) is None),
{
    match parse_json(s) {
        Some(v) => decode_envelope_value::<T>(&v),
        None => Err(EnvelopeDecodeError::Syntax),
    }
}

} // verus!
