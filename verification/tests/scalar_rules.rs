//! The heterogeneous scalar rules on concrete values.

use nova_poshta::scalar::{
    decode_bool_str, decode_opt_i64, decode_opt_number, decode_opt_text, decode_opt_u16,
    decode_scalar, NumText, RawScalar, ScalarKind, ScalarValue,
};

#[test]
fn bool_rule_accepts_exactly_the_two_strings() {
    assert_eq!(decode_bool_str(&RawScalar::Text("0".to_owned())), Ok(false));
    assert_eq!(decode_bool_str(&RawScalar::Text("1".to_owned())), Ok(true));
    assert!(decode_bool_str(&RawScalar::Text("2".to_owned())).is_err());
    assert!(decode_bool_str(&RawScalar::Text("00".to_owned())).is_err());
    assert!(decode_bool_str(&RawScalar::Text("true".to_owned())).is_err());
    assert!(decode_bool_str(&RawScalar::Text("".to_owned())).is_err());
    // A bare JSON boolean literal is refused too.
    assert!(decode_bool_str(&RawScalar::BoolLit(true)).is_err());
    assert!(decode_bool_str(&RawScalar::BoolLit(false)).is_err());
    assert!(decode_bool_str(&RawScalar::NumText("1".to_owned())).is_err());
    assert!(decode_bool_str(&RawScalar::Null).is_err());
    assert!(decode_bool_str(&RawScalar::Composite).is_err());
}

#[test]
fn optional_text_rule() {
    assert_eq!(decode_opt_text(&RawScalar::Text("".to_owned())), Ok(None));
    assert_eq!(decode_opt_text(&RawScalar::Text("hello".to_owned())), Ok(Some("hello".to_owned())));
    assert_eq!(decode_opt_text(&RawScalar::Text(" ".to_owned())), Ok(Some(" ".to_owned())));
    assert_eq!(decode_opt_text(&RawScalar::Null), Ok(None));
    assert!(decode_opt_text(&RawScalar::NumText("1".to_owned())).is_err());
    assert!(decode_opt_text(&RawScalar::BoolLit(true)).is_err());
    assert!(decode_opt_text(&RawScalar::Composite).is_err());
}

#[test]
fn optional_u16_rule() {
    assert_eq!(decode_opt_u16(&RawScalar::NumText("17".to_owned())), Ok(Some(17)));
    // A number out of the 16-bit range is an unexpected encoding, never
    // silently turned into absence.
    assert!(decode_opt_u16(&RawScalar::NumText("70000".to_owned())).is_err());
    assert!(decode_opt_u16(&RawScalar::NumText("-1".to_owned())).is_err());
    assert!(decode_opt_u16(&RawScalar::NumText("9223372036854775808".to_owned())).is_err());
    assert!(decode_opt_u16(&RawScalar::NumText("-9223372036854775808".to_owned())).is_err());
    // A fractional number is refused.
    assert!(decode_opt_u16(&RawScalar::NumText("1.5".to_owned())).is_err());
    assert_eq!(decode_opt_u16(&RawScalar::Text("".to_owned())), Ok(None));
    assert_eq!(decode_opt_u16(&RawScalar::Text("42".to_owned())), Ok(Some(42)));
    assert_eq!(decode_opt_u16(&RawScalar::Text("+42".to_owned())), Ok(Some(42)));
    assert!(decode_opt_u16(&RawScalar::Text("70000".to_owned())).is_err());
    assert!(decode_opt_u16(&RawScalar::Text("x".to_owned())).is_err());
    assert_eq!(decode_opt_u16(&RawScalar::Null), Ok(None));
    assert!(decode_opt_u16(&RawScalar::Composite).is_err());
}

#[test]
fn optional_number_rule() {
    let r = decode_opt_number(&RawScalar::NumText("0.5".to_owned())).unwrap().unwrap();
    assert_eq!(r.as_str(), "0.5");
    assert_eq!(decode_opt_number(&RawScalar::Text("".to_owned())), Ok(None));
    let r = decode_opt_number(&RawScalar::Text("-12.75e-2".to_owned())).unwrap().unwrap();
    assert_eq!(r.as_str(), "-12.75e-2");
    assert!(decode_opt_number(&RawScalar::Text("12,5".to_owned())).is_err());
    assert_eq!(decode_opt_number(&RawScalar::Null), Ok(None));
    assert!(decode_opt_number(&RawScalar::BoolLit(false)).is_err());
    assert!(decode_opt_number(&RawScalar::Composite).is_err());
}

#[test]
fn optional_i64_rule() {
    assert_eq!(decode_opt_i64(&RawScalar::NumText("-3".to_owned())), Ok(Some(-3)));
    assert_eq!(
        decode_opt_i64(&RawScalar::NumText("9223372036854775807".to_owned())),
        Ok(Some(i64::MAX))
    );
    assert_eq!(
        decode_opt_i64(&RawScalar::NumText("-9223372036854775808".to_owned())),
        Ok(Some(i64::MIN))
    );
    assert!(decode_opt_i64(&RawScalar::NumText("9223372036854775808".to_owned())).is_err());
    assert_eq!(decode_opt_i64(&RawScalar::Text("".to_owned())), Ok(None));
    assert_eq!(decode_opt_i64(&RawScalar::Text("12".to_owned())), Ok(Some(12)));
    assert_eq!(decode_opt_i64(&RawScalar::Null), Ok(None));
}

#[test]
fn number_text_shape() {
    assert!(NumText::new("0".to_owned()).is_ok());
    assert!(NumText::new("-0.5".to_owned()).is_ok());
    assert!(NumText::new("+3.".to_owned()).is_ok());
    assert!(NumText::new(".5".to_owned()).is_ok());
    assert!(NumText::new("1e30".to_owned()).is_ok());
    assert!(NumText::new("2.5E-10".to_owned()).is_ok());
    assert!(NumText::new("".to_owned()).is_err());
    assert!(NumText::new(".".to_owned()).is_err());
    assert!(NumText::new("1e".to_owned()).is_err());
    assert!(NumText::new("--1".to_owned()).is_err());
    assert!(NumText::new("1.2.3".to_owned()).is_err());
    assert!(NumText::new("inf".to_owned()).is_err());
}

#[test]
fn unified_decoder_projects_by_kind() {
    let v = decode_scalar(&RawScalar::Text("1".to_owned()), ScalarKind::BoolStr).unwrap();
    assert_eq!(v, ScalarValue::BoolVal(true));
    let v = decode_scalar(&RawScalar::NumText("120".to_owned()), ScalarKind::Integer).unwrap();
    assert_eq!(v, ScalarValue::IntVal(120));
    let v = decode_scalar(&RawScalar::Text("".to_owned()), ScalarKind::Integer).unwrap();
    assert_eq!(v, ScalarValue::Absent);
    let v = decode_scalar(&RawScalar::Text("0.5".to_owned()), ScalarKind::Number).unwrap();
    assert!(matches!(v, ScalarValue::NumVal(_)));
    let v = decode_scalar(&RawScalar::Null, ScalarKind::OptionalText).unwrap();
    assert_eq!(v, ScalarValue::Absent);
    assert!(decode_scalar(&RawScalar::Composite, ScalarKind::OptionalText).is_err());
}
