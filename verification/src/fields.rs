//! Field-level decoding of payload objects.
//!
//! Every payload decoder reads named fields out of one JSON object through
//! these helpers; each helper states exactly which field shapes it accepts
//! and what value they decode to. A failed field aborts the whole
//! enclosing decode and names the field and the raw value.

use vstd::prelude::*;

use crate::datetime::{
    spec_parse_date_only, spec_parse_date_time, spec_parse_f3, CanonicalDate, CanonicalDateTime,
    DateDecodeError, parse_date_only, parse_date_time, parse_date_time_np,
};
use crate::helper_structs::{
    cargo_type_wire, counterparty_role_wire, counterparty_type_wire, is_uuid_input,
    payment_method_wire, service_type_wire, spec_normalize_uuid, CargoType, CounterpartyRole,
    CounterpartyType, IdParseError, PaymentMethod, ServiceType, UuidText,
};
use crate::json::{
    as_array, as_bool, as_text, get_field, is_null, jv, scalar_of, spec_scalar_of, JsonSpec,
};
use crate::scalar::{
    decode_bool_str, decode_opt_number, decode_opt_text, decode_opt_u16, spec_decode_bool01,
    spec_decode_opt_number, spec_decode_opt_text, spec_decode_opt_u16, spec_parse_int_text,
    spec_parse_u16_text, NumText, RawScalar, ScalarDecodeError, parse_int_text, parse_u16_text,
};
use crate::text::str_eq_chars;

verus! {

/// One typed failure naming the offending field.
#[derive(Debug, Clone, PartialEq, Eq)]
pub enum DecodeError {
    /// The field is absent, or the carrier is not an object.
    MissingField { field: String },
    /// A scalar field arrived in a shape its rule refuses.
    UnexpectedEncoding { field: String, error: ScalarDecodeError },
    /// No date pattern matched the field's text.
    UnparseableDate { field: String, error: DateDecodeError },
    /// The field's text is not an identifier.
    BadId { field: String, error: IdParseError },
    /// The field's text names no variant of its enumeration.
    BadEnumName { field: String, raw: String },
    /// The field is not of the JSON shape the target asks for.
    BadShape { field: String, expected: String },
}

/// The named field of an object, when the value is an object holding it.
pub open spec fn obj_field(j: JsonSpec, name: Seq<char>) -> Option<JsonSpec> {
    match j {
        JsonSpec::ObjJ(m) => if m.dom().contains(name) {
            Some(m[name])
        } else {
            None
        },
        _ => None,
    }
}

fn missing(name: &str) -> DecodeError {
    DecodeError::MissingField { field: name.to_owned() }
}

fn bad_shape(name: &str, expected: &str) -> DecodeError {
    DecodeError::BadShape { field: name.to_owned(), expected: expected.to_owned() }
}

/// Looks the named field up, failing when the carrier is not an object or
/// does not hold it.
pub fn fetch<'a>(v: &'a serde_json::Value, name: &str) -> (r: Result<
    &'a serde_json::Value,
    DecodeError,
>)
    ensures
        r matches Ok(u) ==> obj_field(jv(*v), name@) == Some(jv(*u)),
        r is Err <==> obj_field(jv(*v), name@) is None,
{
    match get_field(v, name) {
        Some(u) => Ok(u),
        None => Err(missing(name)),
    }
}

// ---------------------------------------------------------------------------
// Scalar fields
// ---------------------------------------------------------------------------

/// A field that must be a bare JSON boolean.
pub open spec fn spec_f_bool(j: JsonSpec, name: Seq<char>) -> Option<bool> {
    match obj_field(j, name) {
        Some(JsonSpec::BoolJ(b)) => Some(b),
        _ => None,
    }
}

pub fn f_bool(v: &serde_json::Value, name: &str) -> (r: Result<bool, DecodeError>)
    ensures
        r matches Ok(b) ==> spec_f_bool(jv(*v), name@) == Some(b),
        r is Err <==> spec_f_bool(jv(*v), name@) is None,
{
    let u = fetch(v, name)?;
    match as_bool(u) {
        Some(b) => Ok(b),
        None => Err(bad_shape(name, "a boolean")),
    }
}

/// A field under the boolean rule: the string "0" or "1".
pub open spec fn spec_f_bool01(j: JsonSpec, name: Seq<char>) -> Option<bool> {
    match obj_field(j, name) {
        Some(f) => spec_decode_bool01(spec_scalar_of(f)),
        None => None,
    }
}

pub fn f_bool01(v: &serde_json::Value, name: &str) -> (r: Result<bool, DecodeError>)
    ensures
        r matches Ok(b) ==> spec_f_bool01(jv(*v), name@) == Some(b),
        r is Err <==> spec_f_bool01(jv(*v), name@) is None,
{
    let u = fetch(v, name)?;
    let raw = scalar_of(u);
    match decode_bool_str(&raw) {
        Ok(b) => Ok(b),
        Err(e) => Err(DecodeError::UnexpectedEncoding { field: name.to_owned(), error: e }),
    }
}

/// A field that is an integer literal 0 or 1 standing for a boolean.
pub open spec fn spec_f_bool_int(j: JsonSpec, name: Seq<char>) -> Option<bool> {
    match obj_field(j, name) {
        Some(JsonSpec::NumJ(t)) => if t == seq!['0'] {
            Some(false)
        } else if t == seq!['1'] {
            Some(true)
        } else {
            None
        },
        _ => None,
    }
}

pub fn f_bool_int(v: &serde_json::Value, name: &str) -> (r: Result<bool, DecodeError>)
    ensures
        r matches Ok(b) ==> spec_f_bool_int(jv(*v), name@) == Some(b),
        r is Err <==> spec_f_bool_int(jv(*v), name@) is None,
{
    let u = fetch(v, name)?;
    let raw = scalar_of(u);
    match raw {
        RawScalar::NumText(t) => {
            let n = t.as_str().unicode_len();
            if n == 1 {
                let c = t.as_str().get_char(0);
                proof {
                    assert(t@ =~= seq![t@[0]]);
                }
                if c == '0' {
                    Ok(false)
                } else if c == '1' {
                    Ok(true)
                } else {
                    Err(bad_shape(name, "the integer 0 or 1"))
                }
            } else {
                proof {
                    assert(t@ != seq!['0'] && t@ != seq!['1']) by {
                        assert(seq!['0'].len() == 1 && seq!['1'].len() == 1);
                    }
                }
                Err(bad_shape(name, "the integer 0 or 1"))
            }
        },
        _ => Err(bad_shape(name, "the integer 0 or 1")),
    }
}

/// A field that must be a plain string.
pub open spec fn spec_f_text(j: JsonSpec, name: Seq<char>) -> Option<Seq<char>> {
    match obj_field(j, name) {
        Some(JsonSpec::StrJ(t)) => Some(t),
        _ => None,
    }
}

pub fn f_text(v: &serde_json::Value, name: &str) -> (r: Result<String, DecodeError>)
    ensures
        r matches Ok(s) ==> spec_f_text(jv(*v), name@) == Some(s@),
        r is Err <==> spec_f_text(jv(*v), name@) is None,
{
    let u = fetch(v, name)?;
    match as_text(u) {
        Some(s) => Ok(s.to_owned()),
        None => Err(bad_shape(name, "a string")),
    }
}

/// A field under the optional-text rule: empty string and null are
/// absence.
pub open spec fn spec_f_opt_text(j: JsonSpec, name: Seq<char>) -> Option<Option<Seq<char>>> {
    match obj_field(j, name) {
        Some(f) => spec_decode_opt_text(spec_scalar_of(f)),
        None => None,
    }
}

pub fn f_opt_text(v: &serde_json::Value, name: &str) -> (r: Result<Option<String>, DecodeError>)
    ensures
        r matches Ok(o) ==> (match o {
            Some(s) => spec_f_opt_text(jv(*v), name@) == Some(Some(s@)),
            None => spec_f_opt_text(jv(*v), name@) == Some(None::<Seq<char>>),
        }),
        r is Err <==> spec_f_opt_text(jv(*v), name@) is None,
{
    let u = fetch(v, name)?;
    let raw = scalar_of(u);
    match decode_opt_text(&raw) {
        Ok(o) => Ok(o),
        Err(e) => Err(DecodeError::UnexpectedEncoding { field: name.to_owned(), error: e }),
    }
}

/// A field that is a string or null, null standing for absence and any
/// string present with its exact value, the empty one included.
pub open spec fn spec_f_nullable_text(j: JsonSpec, name: Seq<char>) -> Option<Option<Seq<char>>> {
    match obj_field(j, name) {
        Some(JsonSpec::StrJ(t)) => Some(Some(t)),
        Some(JsonSpec::NullJ) => Some(None),
        _ => None,
    }
}

pub fn f_nullable_text(v: &serde_json::Value, name: &str) -> (r: Result<
    Option<String>,
    DecodeError,
>)
    ensures
        r matches Ok(o) ==> (match o {
            Some(s) => spec_f_nullable_text(jv(*v), name@) == Some(Some(s@)),
            None => spec_f_nullable_text(jv(*v), name@) == Some(None::<Seq<char>>),
        }),
        r is Err <==> spec_f_nullable_text(jv(*v), name@) is None,
{
    let u = fetch(v, name)?;
    if is_null(u) {
        return Ok(None);
    }
    match as_text(u) {
        Some(s) => Ok(Some(s.to_owned())),
        None => Err(bad_shape(name, "a string or null")),
    }
}

/// A field that must be a JSON number holding an integer within the
/// 16-bit unsigned range.
pub open spec fn spec_f_u16(j: JsonSpec, name: Seq<char>) -> Option<u16> {
    match obj_field(j, name) {
        Some(JsonSpec::NumJ(t)) => match spec_parse_int_text(t) {
            Some(n) => if 0 <= n <= 65535 {
                Some(n as u16)
            } else {
                None
            },
            None => None,
        },
        _ => None,
    }
}

pub fn f_u16(v: &serde_json::Value, name: &str) -> (r: Result<u16, DecodeError>)
    ensures
        r matches Ok(n) ==> spec_f_u16(jv(*v), name@) == Some(n),
        r is Err <==> spec_f_u16(jv(*v), name@) is None,
{
    let u = fetch(v, name)?;
    let raw = scalar_of(u);
    match raw {
        RawScalar::NumText(t) => match parse_int_text(t.as_str()) {
            Some(n) => if 0 <= n && n <= 65535 {
                Ok(n as u16)
            } else {
                Err(bad_shape(name, "an integer within the 16-bit range"))
            },
            None => Err(bad_shape(name, "an integer within the 16-bit range")),
        },
        _ => Err(bad_shape(name, "an integer within the 16-bit range")),
    }
}

/// A field that must be a JSON number holding an integer within the 8-bit
/// unsigned range.
pub open spec fn spec_f_u8(j: JsonSpec, name: Seq<char>) -> Option<u8> {
    match obj_field(j, name) {
        Some(JsonSpec::NumJ(t)) => match spec_parse_int_text(t) {
            Some(n) => if 0 <= n <= 255 {
                Some(n as u8)
            } else {
                None
            },
            None => None,
        },
        _ => None,
    }
}

pub fn f_u8(v: &serde_json::Value, name: &str) -> (r: Result<u8, DecodeError>)
    ensures
        r matches Ok(n) ==> spec_f_u8(jv(*v), name@) == Some(n),
        r is Err <==> spec_f_u8(jv(*v), name@) is None,
{
    let u = fetch(v, name)?;
    let raw = scalar_of(u);
    match raw {
        RawScalar::NumText(t) => match parse_int_text(t.as_str()) {
            Some(n) => if 0 <= n && n <= 255 {
                Ok(n as u8)
            } else {
                Err(bad_shape(name, "an integer within the 8-bit range"))
            },
            None => Err(bad_shape(name, "an integer within the 8-bit range")),
        },
        _ => Err(bad_shape(name, "an integer within the 8-bit range")),
    }
}

/// A numeric field sent as a decimal string.
pub open spec fn spec_f_u16_str(j: JsonSpec, name: Seq<char>) -> Option<u16> {
    match obj_field(j, name) {
        Some(JsonSpec::StrJ(t)) => spec_parse_u16_text(t),
        _ => None,
    }
}

pub fn f_u16_str(v: &serde_json::Value, name: &str) -> (r: Result<u16, DecodeError>)
    ensures
        r matches Ok(n) ==> spec_f_u16_str(jv(*v), name@) == Some(n),
        r is Err <==> spec_f_u16_str(jv(*v), name@) is None,
{
    let u = fetch(v, name)?;
    match as_text(u) {
        Some(s) => match parse_u16_text(s) {
            Some(n) => Ok(n),
            None => Err(bad_shape(name, "a decimal string")),
        },
        None => Err(bad_shape(name, "a decimal string")),
    }
}

/// A numeric field sent as a decimal-number string, kept as its text.
pub open spec fn spec_f_num_str(j: JsonSpec, name: Seq<char>) -> Option<Seq<char>> {
    match obj_field(j, name) {
        Some(JsonSpec::StrJ(t)) => if crate::scalar::is_number_text(t) {
            Some(t)
        } else {
            None
        },
        _ => None,
    }
}

pub fn f_num_str(v: &serde_json::Value, name: &str) -> (r: Result<NumText, DecodeError>)
    ensures
        r matches Ok(t) ==> spec_f_num_str(jv(*v), name@) == Some(t@) && t.wf(),
        r is Err <==> spec_f_num_str(jv(*v), name@) is None,
{
    let u = fetch(v, name)?;
    match as_text(u) {
        Some(s) => match NumText::new(s.to_owned()) {
            Ok(t) => Ok(t),
            Err(e) => Err(DecodeError::UnexpectedEncoding { field: name.to_owned(), error: e }),
        },
        None => Err(bad_shape(name, "a decimal string")),
    }
}

/// A field that must be a JSON number, kept as its decimal text.
pub open spec fn spec_f_num_raw(j: JsonSpec, name: Seq<char>) -> Option<Seq<char>> {
    match obj_field(j, name) {
        Some(JsonSpec::NumJ(t)) => if crate::scalar::is_number_text(t) {
            Some(t)
        } else {
            None
        },
        _ => None,
    }
}

pub fn f_num_raw(v: &serde_json::Value, name: &str) -> (r: Result<NumText, DecodeError>)
    ensures
        r matches Ok(t) ==> spec_f_num_raw(jv(*v), name@) == Some(t@) && t.wf(),
        r is Err <==> spec_f_num_raw(jv(*v), name@) is None,
{
    let u = fetch(v, name)?;
    let raw = scalar_of(u);
    match raw {
        RawScalar::NumText(t) => match NumText::new(t) {
            Ok(t) => Ok(t),
            Err(e) => Err(DecodeError::UnexpectedEncoding { field: name.to_owned(), error: e }),
        },
        _ => Err(bad_shape(name, "a number")),
    }
}

/// A field under the optional-integer rule.
pub open spec fn spec_f_opt_u16(j: JsonSpec, name: Seq<char>) -> Option<Option<u16>> {
    match obj_field(j, name) {
        Some(f) => spec_decode_opt_u16(spec_scalar_of(f)),
        None => None,
    }
}

pub fn f_opt_u16(v: &serde_json::Value, name: &str) -> (r: Result<Option<u16>, DecodeError>)
    ensures
        r matches Ok(o) ==> spec_f_opt_u16(jv(*v), name@) == Some(o),
        r is Err <==> spec_f_opt_u16(jv(*v), name@) is None,
{
    let u = fetch(v, name)?;
    let raw = scalar_of(u);
    match decode_opt_u16(&raw) {
        Ok(o) => Ok(o),
        Err(e) => Err(DecodeError::UnexpectedEncoding { field: name.to_owned(), error: e }),
    }
}

/// A field under the optional-number rule, kept as decimal text.
pub open spec fn spec_f_opt_num(j: JsonSpec, name: Seq<char>) -> Option<Option<Seq<char>>> {
    match obj_field(j, name) {
        Some(f) => spec_decode_opt_number(spec_scalar_of(f)),
        None => None,
    }
}

pub fn f_opt_num(v: &serde_json::Value, name: &str) -> (r: Result<Option<NumText>, DecodeError>)
    ensures
        r matches Ok(o) ==> (match o {
            Some(t) => spec_f_opt_num(jv(*v), name@) == Some(Some(t@)) && t.wf(),
            None => spec_f_opt_num(jv(*v), name@) == Some(None::<Seq<char>>),
        }),
        r is Err <==> spec_f_opt_num(jv(*v), name@) is None,
{
    let u = fetch(v, name)?;
    let raw = scalar_of(u);
    match decode_opt_number(&raw) {
        Ok(o) => Ok(o),
        Err(e) => Err(DecodeError::UnexpectedEncoding { field: name.to_owned(), error: e }),
    }
}

/// A field that is a JSON number within the 16-bit unsigned range or
/// null, null standing for absence.
pub open spec fn spec_f_nullable_u16(j: JsonSpec, name: Seq<char>) -> Option<Option<u16>> {
    match obj_field(j, name) {
        Some(JsonSpec::NumJ(t)) => match spec_parse_int_text(t) {
            Some(n) => if 0 <= n <= 65535 {
                Some(Some(n as u16))
            } else {
                None
            },
            None => None,
        },
        Some(JsonSpec::NullJ) => Some(None),
        _ => None,
    }
}

pub fn f_nullable_u16(v: &serde_json::Value, name: &str) -> (r: Result<Option<u16>, DecodeError>)
    ensures
        r matches Ok(o) ==> spec_f_nullable_u16(jv(*v), name@) == Some(o),
        r is Err <==> spec_f_nullable_u16(jv(*v), name@) is None,
{
    let u = fetch(v, name)?;
    if is_null(u) {
        return Ok(None);
    }
    let raw = scalar_of(u);
    match raw {
        RawScalar::NumText(t) => match parse_int_text(t.as_str()) {
            Some(n) => if 0 <= n && n <= 65535 {
                Ok(Some(n as u16))
            } else {
                Err(bad_shape(name, "an integer within the 16-bit range or null"))
            },
            None => Err(bad_shape(name, "an integer within the 16-bit range or null")),
        },
        _ => Err(bad_shape(name, "an integer within the 16-bit range or null")),
    }
}

/// A field that is a JSON number or null, the number kept as its decimal
/// text and null standing for absence.
pub open spec fn spec_f_nullable_num(j: JsonSpec, name: Seq<char>) -> Option<Option<Seq<char>>> {
    match obj_field(j, name) {
        Some(JsonSpec::NumJ(t)) => if crate::scalar::is_number_text(t) {
            Some(Some(t))
        } else {
            None
        },
        Some(JsonSpec::NullJ) => Some(None),
        _ => None,
    }
}

pub fn f_nullable_num(v: &serde_json::Value, name: &str) -> (r: Result<
    Option<NumText>,
    DecodeError,
>)
    ensures
        r matches Ok(o) ==> (match o {
            Some(t) => spec_f_nullable_num(jv(*v), name@) == Some(Some(t@)) && t.wf(),
            None => spec_f_nullable_num(jv(*v), name@) == Some(None::<Seq<char>>),
        }),
        r is Err <==> spec_f_nullable_num(jv(*v), name@) is None,
{
    let u = fetch(v, name)?;
    if is_null(u) {
        return Ok(None);
    }
    let raw = scalar_of(u);
    match raw {
        RawScalar::NumText(t) => match NumText::new(t) {
            Ok(t) => Ok(Some(t)),
            Err(e) => Err(DecodeError::UnexpectedEncoding { field: name.to_owned(), error: e }),
        },
        _ => Err(bad_shape(name, "a number or null")),
    }
}

// ---------------------------------------------------------------------------
// Enumeration fields
// ---------------------------------------------------------------------------

/// A field whose text must be the wire name of a counterparty type.
pub open spec fn spec_f_cp_type(j: JsonSpec, name: Seq<char>) -> Option<CounterpartyType> {
    match obj_field(j, name) {
        Some(JsonSpec::StrJ(t)) => if t == counterparty_type_wire(CounterpartyType::PrivatePerson) {
            Some(CounterpartyType::PrivatePerson)
        } else if t == counterparty_type_wire(CounterpartyType::Organization) {
            Some(CounterpartyType::Organization)
        } else {
            None
        },
        _ => None,
    }
}

pub fn f_cp_type(v: &serde_json::Value, name: &str) -> (r: Result<CounterpartyType, DecodeError>)
    ensures
        r matches Ok(x) ==> spec_f_cp_type(jv(*v), name@) == Some(x),
        r is Err <==> spec_f_cp_type(jv(*v), name@) is None,
{
    let u = fetch(v, name)?;
    match as_text(u) {
        Some(s) => {
            if str_eq_chars(s, "PrivatePerson") {
                Ok(CounterpartyType::PrivatePerson)
            } else if str_eq_chars(s, "Organization") {
                Ok(CounterpartyType::Organization)
            } else {
                Err(DecodeError::BadEnumName { field: name.to_owned(), raw: s.to_owned() })
            }
        },
        None => Err(bad_shape(name, "an enumeration name")),
    }
}

/// A field whose text must be the wire name of a counterparty role.
pub open spec fn spec_f_cp_role(j: JsonSpec, name: Seq<char>) -> Option<CounterpartyRole> {
    match obj_field(j, name) {
        Some(JsonSpec::StrJ(t)) => if t == counterparty_role_wire(CounterpartyRole::Sender) {
            Some(CounterpartyRole::Sender)
        } else if t == counterparty_role_wire(CounterpartyRole::Recipient) {
            Some(CounterpartyRole::Recipient)
        } else if t == counterparty_role_wire(CounterpartyRole::ThirdPerson) {
            Some(CounterpartyRole::ThirdPerson)
        } else {
            None
        },
        _ => None,
    }
}

pub fn f_cp_role(v: &serde_json::Value, name: &str) -> (r: Result<CounterpartyRole, DecodeError>)
    ensures
        r matches Ok(x) ==> spec_f_cp_role(jv(*v), name@) == Some(x),
        r is Err <==> spec_f_cp_role(jv(*v), name@) is None,
{
    let u = fetch(v, name)?;
    match as_text(u) {
        Some(s) => {
            if str_eq_chars(s, "Sender") {
                Ok(CounterpartyRole::Sender)
            } else if str_eq_chars(s, "Recipient") {
                Ok(CounterpartyRole::Recipient)
            } else if str_eq_chars(s, "ThirdPerson") {
                Ok(CounterpartyRole::ThirdPerson)
            } else {
                Err(DecodeError::BadEnumName { field: name.to_owned(), raw: s.to_owned() })
            }
        },
        None => Err(bad_shape(name, "an enumeration name")),
    }
}

/// A field whose text must be the wire name of a service type.
pub open spec fn spec_f_service_type(j: JsonSpec, name: Seq<char>) -> Option<ServiceType> {
    match obj_field(j, name) {
        Some(JsonSpec::StrJ(t)) => if t == service_type_wire(ServiceType::DoorsDoors) {
            Some(ServiceType::DoorsDoors)
        } else if t == service_type_wire(ServiceType::DoorsWarehouse) {
            Some(ServiceType::DoorsWarehouse)
        } else if t == service_type_wire(ServiceType::WarehouseWarehouse) {
            Some(ServiceType::WarehouseWarehouse)
        } else if t == service_type_wire(ServiceType::WarehouseDoors) {
            Some(ServiceType::WarehouseDoors)
        } else {
            None
        },
        _ => None,
    }
}

pub fn f_service_type(v: &serde_json::Value, name: &str) -> (r: Result<ServiceType, DecodeError>)
    ensures
        r matches Ok(x) ==> spec_f_service_type(jv(*v), name@) == Some(x),
        r is Err <==> spec_f_service_type(jv(*v), name@) is None,
{
    let u = fetch(v, name)?;
    match as_text(u) {
        Some(s) => {
            if str_eq_chars(s, "DoorsDoors") {
                Ok(ServiceType::DoorsDoors)
            } else if str_eq_chars(s, "DoorsWarehouse") {
                Ok(ServiceType::DoorsWarehouse)
            } else if str_eq_chars(s, "WarehouseWarehouse") {
                Ok(ServiceType::WarehouseWarehouse)
            } else if str_eq_chars(s, "WarehouseDoors") {
                Ok(ServiceType::WarehouseDoors)
            } else {
                Err(DecodeError::BadEnumName { field: name.to_owned(), raw: s.to_owned() })
            }
        },
        None => Err(bad_shape(name, "an enumeration name")),
    }
}

/// A field whose text must be the wire name of a payment method.
pub open spec fn spec_f_payment_method(j: JsonSpec, name: Seq<char>) -> Option<PaymentMethod> {
    match obj_field(j, name) {
        Some(JsonSpec::StrJ(t)) => if t == payment_method_wire(PaymentMethod::Cash) {
            Some(PaymentMethod::Cash)
        } else if t == payment_method_wire(PaymentMethod::Card) {
            Some(PaymentMethod::Card)
        } else if t == payment_method_wire(PaymentMethod::NonCash) {
            Some(PaymentMethod::NonCash)
        } else {
            None
        },
        _ => None,
    }
}

pub fn f_payment_method(v: &serde_json::Value, name: &str) -> (r: Result<
    PaymentMethod,
    DecodeError,
>)
    ensures
        r matches Ok(x) ==> spec_f_payment_method(jv(*v), name@) == Some(x),
        r is Err <==> spec_f_payment_method(jv(*v), name@) is None,
{
    let u = fetch(v, name)?;
    match as_text(u) {
        Some(s) => {
            if str_eq_chars(s, "Cash") {
                Ok(PaymentMethod::Cash)
            } else if str_eq_chars(s, "Card") {
                Ok(PaymentMethod::Card)
            } else if str_eq_chars(s, "NonCash") {
                Ok(PaymentMethod::NonCash)
            } else {
                Err(DecodeError::BadEnumName { field: name.to_owned(), raw: s.to_owned() })
            }
        },
        None => Err(bad_shape(name, "an enumeration name")),
    }
}

// ---------------------------------------------------------------------------
// View helpers for decoded records
// ---------------------------------------------------------------------------

/// Ghost value of an optional text field.
pub open spec fn opt_text_view(o: Option<String>) -> Option<Seq<char>> {
    match o {
        Some(s) => Some(s@),
        None => None,
    }
}

/// Ghost value of an optional numeric-text field.
pub open spec fn opt_num_view(o: Option<NumText>) -> Option<Seq<char>> {
    match o {
        Some(t) => Some(t@),
        None => None,
    }
}

/// Ghost value of a list of texts.
pub open spec fn texts_view(s: Seq<String>) -> Seq<Seq<char>> {
    s.map(|i: int, x: String| x@)
}

/// Ghost value of an optional list of texts.
pub open spec fn opt_texts_view(o: Option<Vec<String>>) -> Option<Seq<Seq<char>>> {
    match o {
        Some(x) => Some(texts_view(x@)),
        None => None,
    }
}

// ---------------------------------------------------------------------------
// Identifier and date fields
// ---------------------------------------------------------------------------

/// A field whose text must be a hyphenated UUID.
pub open spec fn spec_f_uuid(j: JsonSpec, name: Seq<char>) -> Option<Seq<char>> {
    match obj_field(j, name) {
        Some(JsonSpec::StrJ(t)) => if is_uuid_input(t) {
            Some(spec_normalize_uuid(t))
        } else {
            None
        },
        _ => None,
    }
}

pub fn f_uuid(v: &serde_json::Value, name: &str) -> (r: Result<UuidText, DecodeError>)
    ensures
        r matches Ok(u) ==> spec_f_uuid(jv(*v), name@) == Some(u@) && u.wf(),
        r is Err <==> spec_f_uuid(jv(*v), name@) is None,
{
    let u = fetch(v, name)?;
    match as_text(u) {
        Some(s) => match UuidText::parse(s) {
            Ok(id) => Ok(id),
            Err(e) => Err(DecodeError::BadId { field: name.to_owned(), error: e }),
        },
        None => Err(bad_shape(name, "an identifier string")),
    }
}

/// A date field under the ordered pattern list, the empty string standing
/// for absence.
pub open spec fn spec_f_opt_date(j: JsonSpec, name: Seq<char>) -> Option<
    Option<CanonicalDateTime>,
> {
    match obj_field(j, name) {
        Some(JsonSpec::StrJ(t)) => if t.len() == 0 {
            Some(None)
        } else {
            match spec_parse_date_time(t) {
                Some(dt) => Some(Some(dt)),
                None => None,
            }
        },
        _ => None,
    }
}

pub fn f_opt_date(v: &serde_json::Value, name: &str) -> (r: Result<
    Option<CanonicalDateTime>,
    DecodeError,
>)
    ensures
        r matches Ok(o) ==> spec_f_opt_date(jv(*v), name@) == Some(o),
        r is Err <==> spec_f_opt_date(jv(*v), name@) is None,
{
    let u = fetch(v, name)?;
    match as_text(u) {
        Some(s) => {
            if s.unicode_len() == 0 {
                Ok(None)
            } else {
                match parse_date_time(s) {
                    Ok(dt) => Ok(Some(dt)),
                    Err(e) => Err(
                        DecodeError::UnparseableDate { field: name.to_owned(), error: e },
                    ),
                }
            }
        },
        None => Err(bad_shape(name, "a date string")),
    }
}

/// A mandatory date field in the single day-month-year dash pattern.
pub open spec fn spec_f_date_np(j: JsonSpec, name: Seq<char>) -> Option<CanonicalDateTime> {
    match obj_field(j, name) {
        Some(JsonSpec::StrJ(t)) => spec_parse_f3(t),
        _ => None,
    }
}

pub fn f_date_np(v: &serde_json::Value, name: &str) -> (r: Result<CanonicalDateTime, DecodeError>)
    ensures
        r matches Ok(dt) ==> spec_f_date_np(jv(*v), name@) == Some(dt),
        r is Err <==> spec_f_date_np(jv(*v), name@) is None,
{
    let u = fetch(v, name)?;
    match as_text(u) {
        Some(s) => match parse_date_time_np(s) {
            Ok(dt) => Ok(dt),
            Err(e) => Err(DecodeError::UnparseableDate { field: name.to_owned(), error: e }),
        },
        None => Err(bad_shape(name, "a date string")),
    }
}

/// A date-only field in the day-month-year dot pattern.
pub open spec fn spec_f_date_only(j: JsonSpec, name: Seq<char>) -> Option<CanonicalDate> {
    match obj_field(j, name) {
        Some(JsonSpec::StrJ(t)) => spec_parse_date_only(t),
        _ => None,
    }
}

pub fn f_date_only(v: &serde_json::Value, name: &str) -> (r: Result<CanonicalDate, DecodeError>)
    ensures
        r matches Ok(d) ==> spec_f_date_only(jv(*v), name@) == Some(d),
        r is Err <==> spec_f_date_only(jv(*v), name@) is None,
{
    let u = fetch(v, name)?;
    match as_text(u) {
        Some(s) => match parse_date_only(s) {
            Ok(d) => Ok(d),
            Err(e) => Err(DecodeError::UnparseableDate { field: name.to_owned(), error: e }),
        },
        None => Err(bad_shape(name, "a date string")),
    }
}

// ---------------------------------------------------------------------------
// String arrays
// ---------------------------------------------------------------------------

/// Every element is a string.
pub open spec fn all_strings(js: Seq<JsonSpec>) -> bool {
    forall|i: int| 0 <= i < js.len() ==> (#[trigger] js[i]) is StrJ
}

/// The contents of an all-string array.
pub open spec fn str_contents(js: Seq<JsonSpec>) -> Seq<Seq<char>> {
    js.map(|i: int, x: JsonSpec| x->StrJ_0)
}

/// A field that must be an array of strings.
pub open spec fn spec_f_text_vec(j: JsonSpec, name: Seq<char>) -> Option<Seq<Seq<char>>> {
    match obj_field(j, name) {
        Some(JsonSpec::ArrJ(js)) => if all_strings(js) {
            Some(str_contents(js))
        } else {
            None
        },
        _ => None,
    }
}

/// Reads an array of strings out of a value known to be an array.
fn read_str_array(v: &serde_json::Value, name: &str) -> (r: Result<Vec<String>, DecodeError>)
    requires
        jv(*v) is ArrJ,
    ensures
        r matches Ok(out) ==> all_strings(jv(*v)->ArrJ_0) && out@.map(|i: int, s: String| s@)
            == str_contents(jv(*v)->ArrJ_0),
        r is Err <==> !all_strings(jv(*v)->ArrJ_0),
{
    let ghost js = jv(*v)->ArrJ_0;
    let arr = as_array(v).unwrap();
    let n = arr.len();
    let mut out: Vec<String> = Vec::new();
    let mut i: usize = 0;
    while i < n
        invariant
            0 <= i <= n,
            jv(*v) is ArrJ,
            js == jv(*v)->ArrJ_0,
            n == arr@.len(),
            n == js.len(),
            forall|k: int| 0 <= k < n ==> jv(#[trigger] arr@[k]) == js[k],
            forall|k: int| 0 <= k < i ==> (#[trigger] js[k]) is StrJ,
            out@.len() == i,
            forall|k: int| 0 <= k < i ==> (#[trigger] out@[k])@ == js[k]->StrJ_0,
        decreases n - i,
    {
        match as_text(&arr[i]) {
            Some(s) => {
                out.push(s.to_owned());
            },
            None => {
                proof {
                    assert(!(js[i as int] is StrJ));
                    assert(!all_strings(js));
                }
                return Err(bad_shape(name, "an array of strings"));
            },
        }
        i += 1;
    }
    proof {
        assert(out@.map(|k: int, s: String| s@) =~= str_contents(js));
    }
    Ok(out)
}

pub fn f_text_vec(v: &serde_json::Value, name: &str) -> (r: Result<Vec<String>, DecodeError>)
    ensures
        r matches Ok(out) ==> spec_f_text_vec(jv(*v), name@) == Some(
            out@.map(|i: int, s: String| s@),
        ),
        r is Err <==> spec_f_text_vec(jv(*v), name@) is None,
{
    let u = fetch(v, name)?;
    if as_array(u).is_some() {
        read_str_array(u, name)
    } else {
        Err(bad_shape(name, "an array of strings"))
    }
}

/// A field that is null or an array of strings, null standing for absence.
pub open spec fn spec_f_opt_text_vec(j: JsonSpec, name: Seq<char>) -> Option<
    Option<Seq<Seq<char>>>,
> {
    match obj_field(j, name) {
        Some(JsonSpec::ArrJ(js)) => if all_strings(js) {
            Some(Some(str_contents(js)))
        } else {
            None
        },
        Some(JsonSpec::NullJ) => Some(None),
        _ => None,
    }
}

pub fn f_opt_text_vec(v: &serde_json::Value, name: &str) -> (r: Result<
    Option<Vec<String>>,
    DecodeError,
>)
    ensures
        r matches Ok(o) ==> (match o {
            Some(out) => spec_f_opt_text_vec(jv(*v), name@) == Some(
                Some(out@.map(|i: int, s: String| s@)),
            ),
            None => spec_f_opt_text_vec(jv(*v), name@) == Some(None::<Seq<Seq<char>>>),
        }),
        r is Err <==> spec_f_opt_text_vec(jv(*v), name@) is None,
{
    let u = fetch(v, name)?;
    if is_null(u) {
        return Ok(None);
    }
    if as_array(u).is_some() {
        match read_str_array(u, name) {
            Ok(out) => Ok(Some(out)),
            Err(e) => Err(e),
        }
    } else {
        Err(bad_shape(name, "an array of strings or null"))
    }
}

} // verus!
