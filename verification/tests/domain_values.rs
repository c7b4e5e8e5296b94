//! Domain validation and identifier normalization on concrete values.

use nova_poshta::en::{ENumber, ENumberPasingError};
use nova_poshta::helper_structs::{CounterpartyRole, CounterpartyType, UuidText};

#[test]
fn tracking_number_shape() {
    let ok = ENumber::new("20450777813966".to_owned()).unwrap();
    assert_eq!(ok.as_str(), "20450777813966");
    assert_eq!(
        ENumber::new("123".to_owned()).unwrap_err(),
        ENumberPasingError::InvalidLength
    );
    assert_eq!(
        ENumber::new("204507778139660".to_owned()).unwrap_err(),
        ENumberPasingError::InvalidLength
    );
    // Validation fails closed: every character must be a decimal digit,
    // one stray character refuses the whole number.
    assert_eq!(
        ENumber::new("abcdefghijklmn".to_owned()).unwrap_err(),
        ENumberPasingError::InvalidSymbols
    );
    assert_eq!(
        ENumber::new("2045077781396a".to_owned()).unwrap_err(),
        ENumberPasingError::InvalidSymbols
    );
    assert_eq!(
        ENumber::new("+2045077781396".to_owned()).unwrap_err(),
        ENumberPasingError::InvalidSymbols
    );
    let n = ENumber::new("20450777813966".to_owned()).unwrap();
    assert_eq!(n.into_text(), "20450777813966");
}

#[test]
fn uuid_text_normalizes_and_validates() {
    let id = UuidText::parse("DB5C88D4-391C-11DD-90D9-001A92567626").unwrap();
    assert_eq!(id.as_str(), "db5c88d4-391c-11dd-90d9-001a92567626");
    assert!(UuidText::parse("db5c88d4-391c-11dd-90d9-001a9256762").is_err());
    assert!(UuidText::parse("db5c88d4x391c-11dd-90d9-001a92567626").is_err());
    assert!(UuidText::parse("gb5c88d4-391c-11dd-90d9-001a92567626").is_err());
    assert!(UuidText::parse("").is_err());
}

#[test]
fn legacy_role_reading_accepts_the_misspelling() {
    assert_eq!(CounterpartyRole::try_from_text("Sender"), Ok(CounterpartyRole::Sender));
    assert_eq!(CounterpartyRole::try_from_text("Recepient"), Ok(CounterpartyRole::Recipient));
    assert_eq!(CounterpartyRole::try_from_text("ThirdPerson"), Ok(CounterpartyRole::ThirdPerson));
    assert!(CounterpartyRole::try_from_text("Recipient").is_err());
}

#[test]
fn enum_wire_names_round_trip() {
    assert_eq!(CounterpartyType::from_wire("PrivatePerson"), Some(CounterpartyType::PrivatePerson));
    assert_eq!(CounterpartyType::PrivatePerson.wire_name(), "PrivatePerson");
    assert_eq!(CounterpartyType::from_wire("privateperson"), None);
    assert_eq!(CounterpartyRole::from_wire("Recipient"), Some(CounterpartyRole::Recipient));
}
