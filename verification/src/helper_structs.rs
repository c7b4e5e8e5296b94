//! Shared wire vocabulary: the closed enumerations the API exchanges as
//! strings, identifier types carried as canonical UUID text, and a pair of
//! coordinates carried as decimal text.

use vstd::prelude::*;

use crate::scalar::NumText;
use crate::text::{is_dec_digit, is_dec_digit_char, push_char, str_eq_chars};

verus! {

#[derive(Debug, Clone, Copy, PartialEq, Eq, Structural)]
pub enum CounterpartyType {
    PrivatePerson,
    Organization,
}

#[derive(Debug, Clone, Copy, PartialEq, Eq, Structural)]
pub enum CounterpartyRole {
    Sender,
    Recipient,
    ThirdPerson,
}

#[derive(Debug, Clone, Copy, PartialEq, Eq, Structural)]
pub enum ServiceType {
    DoorsDoors,
    DoorsWarehouse,
    WarehouseWarehouse,
    WarehouseDoors,
}

#[derive(Debug, Clone, Copy, PartialEq, Eq, Structural)]
pub enum PaymentMethod {
    Cash,
    Card,
    NonCash,
}

#[derive(Debug, Clone, Copy, PartialEq, Eq, Structural)]
pub enum CargoType {
    Parcel,
    Cargo,
    Documents,
    TiresWheels,
    Pallet,
}

// ---------------------------------------------------------------------------
// Wire names of the enumerations
// ---------------------------------------------------------------------------

pub open spec fn counterparty_type_wire(v: CounterpartyType) -> Seq<char> {
    match v {
        CounterpartyType::PrivatePerson => "PrivatePerson"@,
        CounterpartyType::Organization => "Organization"@,
    }
}

pub open spec fn counterparty_role_wire(v: CounterpartyRole) -> Seq<char> {
    match v {
        CounterpartyRole::Sender => "Sender"@,
        CounterpartyRole::Recipient => "Recipient"@,
        CounterpartyRole::ThirdPerson => "ThirdPerson"@,
    }
}

pub open spec fn service_type_wire(v: ServiceType) -> Seq<char> {
    match v {
        ServiceType::DoorsDoors => "DoorsDoors"@,
        ServiceType::DoorsWarehouse => "DoorsWarehouse"@,
        ServiceType::WarehouseWarehouse => "WarehouseWarehouse"@,
        ServiceType::WarehouseDoors => "WarehouseDoors"@,
    }
}

pub open spec fn payment_method_wire(v: PaymentMethod) -> Seq<char> {
    match v {
        PaymentMethod::Cash => "Cash"@,
        PaymentMethod::Card => "Card"@,
        PaymentMethod::NonCash => "NonCash"@,
    }
}

pub open spec fn cargo_type_wire(v: CargoType) -> Seq<char> {
    match v {
        CargoType::Parcel => "Parcel"@,
        CargoType::Cargo => "Cargo"@,
        CargoType::Documents => "Documents"@,
        CargoType::TiresWheels => "TiresWheels"@,
        CargoType::Pallet => "Pallet"@,
    }
}

impl CounterpartyType {
    pub fn wire_name(&self) -> (r: String)
        ensures
            r@ == counterparty_type_wire(*self),
    {
        match self {
            CounterpartyType::PrivatePerson => String::from_str("PrivatePerson"),
            CounterpartyType::Organization => String::from_str("Organization"),
        }
    }

    /// The inverse of the wire name, exactly on the two names.
    pub fn from_wire(s: &str) -> (r: Option<CounterpartyType>)
        ensures
            r matches Some(v) ==> counterparty_type_wire(v) == s@,
            r is Some <==> (s@ == "PrivatePerson"@ || s@ == "Organization"@),
    {
        if str_eq_chars(s, "PrivatePerson") {
            Some(CounterpartyType::PrivatePerson)
        } else if str_eq_chars(s, "Organization") {
            Some(CounterpartyType::Organization)
        } else {
            None
        }
    }
}

impl CounterpartyRole {
    pub fn wire_name(&self) -> (r: String)
        ensures
            r@ == counterparty_role_wire(*self),
    {
        match self {
            CounterpartyRole::Sender => String::from_str("Sender"),
            CounterpartyRole::Recipient => String::from_str("Recipient"),
            CounterpartyRole::ThirdPerson => String::from_str("ThirdPerson"),
        }
    }

    /// The inverse of the wire name, exactly on the three names.
    pub fn from_wire(s: &str) -> (r: Option<CounterpartyRole>)
        ensures
            r matches Some(v) ==> counterparty_role_wire(v) == s@,
            r is Some <==> (s@ == "Sender"@ || s@ == "Recipient"@ || s@ == "ThirdPerson"@),
    {
        if str_eq_chars(s, "Sender") {
            Some(CounterpartyRole::Sender)
        } else if str_eq_chars(s, "Recipient") {
            Some(CounterpartyRole::Recipient)
        } else if str_eq_chars(s, "ThirdPerson") {
            Some(CounterpartyRole::ThirdPerson)
        } else {
            None
        }
    }

    /// The legacy reading of a role from caller-supplied text; it accepts
    /// the misspelling "Recepient" for the recipient role.
    pub fn try_from_text(s: &str) -> (r: Result<CounterpartyRole, String>)
        ensures
            r matches Ok(v) ==> (if s@ == "Sender"@ {
                v == CounterpartyRole::Sender
            } else if s@ == "Recepient"@ {
                v == CounterpartyRole::Recipient
            } else {
                v == CounterpartyRole::ThirdPerson && s@ == "ThirdPerson"@
            }),
            r is Ok <==> (s@ == "Sender"@ || s@ == "Recepient"@ || s@ == "ThirdPerson"@),
    {
        if str_eq_chars(s, "Sender") {
            Ok(CounterpartyRole::Sender)
        } else if str_eq_chars(s, "Recepient") {
            Ok(CounterpartyRole::Recipient)
        } else if str_eq_chars(s, "ThirdPerson") {
            Ok(CounterpartyRole::ThirdPerson)
        } else {
            Err(String::from_str("Invalid value"))
        }
    }
}

impl ServiceType {
    pub fn wire_name(&self) -> (r: String)
        ensures
            r@ == service_type_wire(*self),
    {
        match self {
            ServiceType::DoorsDoors => String::from_str("DoorsDoors"),
            ServiceType::DoorsWarehouse => String::from_str("DoorsWarehouse"),
            ServiceType::WarehouseWarehouse => String::from_str("WarehouseWarehouse"),
            ServiceType::WarehouseDoors => String::from_str("WarehouseDoors"),
        }
    }

    /// The inverse of the wire name, exactly on the four names.
    pub fn from_wire(s: &str) -> (r: Option<ServiceType>)
        ensures
            r matches Some(v) ==> service_type_wire(v) == s@,
            r is Some <==> (s@ == "DoorsDoors"@ || s@ == "DoorsWarehouse"@ || s@
                == "WarehouseWarehouse"@ || s@ == "WarehouseDoors"@),
    {
        if str_eq_chars(s, "DoorsDoors") {
            Some(ServiceType::DoorsDoors)
        } else if str_eq_chars(s, "DoorsWarehouse") {
            Some(ServiceType::DoorsWarehouse)
        } else if str_eq_chars(s, "WarehouseWarehouse") {
            Some(ServiceType::WarehouseWarehouse)
        } else if str_eq_chars(s, "WarehouseDoors") {
            Some(ServiceType::WarehouseDoors)
        } else {
            None
        }
    }
}

impl PaymentMethod {
    pub fn wire_name(&self) -> (r: String)
        ensures
            r@ == payment_method_wire(*self),
    {
        match self {
            PaymentMethod::Cash => String::from_str("Cash"),
            PaymentMethod::Card => String::from_str("Card"),
            PaymentMethod::NonCash => String::from_str("NonCash"),
        }
    }

    /// The inverse of the wire name, exactly on the three names.
    pub fn from_wire(s: &str) -> (r: Option<PaymentMethod>)
        ensures
            r matches Some(v) ==> payment_method_wire(v) == s@,
            r is Some <==> (s@ == "Cash"@ || s@ == "Card"@ || s@ == "NonCash"@),
    {
        if str_eq_chars(s, "Cash") {
            Some(PaymentMethod::Cash)
        } else if str_eq_chars(s, "Card") {
            Some(PaymentMethod::Card)
        } else if str_eq_chars(s, "NonCash") {
            Some(PaymentMethod::NonCash)
        } else {
            None
        }
    }
}

impl CargoType {
    pub fn wire_name(&self) -> (r: String)
        ensures
            r@ == cargo_type_wire(*self),
    {
        match self {
            CargoType::Parcel => String::from_str("Parcel"),
            CargoType::Cargo => String::from_str("Cargo"),
            CargoType::Documents => String::from_str("Documents"),
            CargoType::TiresWheels => String::from_str("TiresWheels"),
            CargoType::Pallet => String::from_str("Pallet"),
        }
    }

    /// The inverse of the wire name, exactly on the five names.
    pub fn from_wire(s: &str) -> (r: Option<CargoType>)
        ensures
            r matches Some(v) ==> cargo_type_wire(v) == s@,
            r is Some <==> (s@ == "Parcel"@ || s@ == "Cargo"@ || s@ == "Documents"@ || s@
                == "TiresWheels"@ || s@ == "Pallet"@),
    {
        if str_eq_chars(s, "Parcel") {
            Some(CargoType::Parcel)
        } else if str_eq_chars(s, "Cargo") {
            Some(CargoType::Cargo)
        } else if str_eq_chars(s, "Documents") {
            Some(CargoType::Documents)
        } else if str_eq_chars(s, "TiresWheels") {
            Some(CargoType::TiresWheels)
        } else if str_eq_chars(s, "Pallet") {
            Some(CargoType::Pallet)
        } else {
            None
        }
    }
}

// ---------------------------------------------------------------------------
// UUID-shaped identifiers
// ---------------------------------------------------------------------------

pub open spec fn is_lower_hex(c: char) -> bool {
    is_dec_digit(c) || c == 'a' || c == 'b' || c == 'c' || c == 'd' || c == 'e' || c == 'f'
}

pub open spec fn is_upper_hex(c: char) -> bool {
    c == 'A' || c == 'B' || c == 'C' || c == 'D' || c == 'E' || c == 'F'
}

/// Lowercases the six upper-case hex letters, leaving every other
/// character alone.
pub open spec fn lower_hex(c: char) -> char {
    if c == 'A' {
        'a'
    } else if c == 'B' {
        'b'
    } else if c == 'C' {
        'c'
    } else if c == 'D' {
        'd'
    } else if c == 'E' {
        'e'
    } else if c == 'F' {
        'f'
    } else {
        c
    }
}

pub open spec fn is_uuid_gap(i: int) -> bool {
    i == 8 || i == 13 || i == 18 || i == 23
}

/// The canonical hyphenated UUID text: 36 characters, hyphens at the four
/// gap positions, lower-case hex everywhere else.
pub open spec fn is_uuid_text(s: Seq<char>) -> bool {
    s.len() == 36 && forall|i: int|
        0 <= i < 36 ==> (if is_uuid_gap(i) {
            s[i] == '-'
        } else {
            is_lower_hex(#[trigger] s[i])
        })
}

/// The accepted input shape: as the canonical text, with upper-case hex
/// letters also allowed.
pub open spec fn is_uuid_input(s: Seq<char>) -> bool {
    s.len() == 36 && forall|i: int|
        0 <= i < 36 ==> (if is_uuid_gap(i) {
            s[i] == '-'
        } else {
            is_lower_hex(#[trigger] s[i]) || is_upper_hex(s[i])
        })
}

pub open spec fn spec_normalize_uuid(s: Seq<char>) -> Seq<char> {
    s.map(|i: int, c: char| lower_hex(c))
}

/// Why an identifier text was refused.
#[derive(Debug, Clone, PartialEq, Eq)]
pub struct IdParseError {
    pub raw: String,
}

/// A UUID-shaped identifier held as its canonical hyphenated text.
#[derive(Debug, Clone, PartialEq, Eq)]
pub struct UuidText {
    text: String,
}

impl View for UuidText {
    type V = Seq<char>;

    closed spec fn view(&self) -> Seq<char> {
        self.text@
    }
}

fn lower_hex_exec(c: char) -> (r: char)
    ensures
        r == lower_hex(c),
{
    match c {
        'A' => 'a',
        'B' => 'b',
        'C' => 'c',
        'D' => 'd',
        'E' => 'e',
        'F' => 'f',
        _ => c,
    }
}

fn is_lower_hex_exec(c: char) -> (r: bool)
    ensures
        r == is_lower_hex(c),
{
    is_dec_digit_char(c) || c == 'a' || c == 'b' || c == 'c' || c == 'd' || c == 'e' || c == 'f'
}

fn is_upper_hex_exec(c: char) -> (r: bool)
    ensures
        r == is_upper_hex(c),
{
    c == 'A' || c == 'B' || c == 'C' || c == 'D' || c == 'E' || c == 'F'
}

impl UuidText {
    pub open spec fn wf(&self) -> bool {
        is_uuid_text(self@)
    }

    /// Accepts exactly the canonical hyphenated UUID shape, normalizing
    /// hex letters to lower case. This is the one form the wire exchanges;
    /// the compressed, braced and URN spellings some UUID parsers also
    /// take are deliberately refused, so an identifier that reaches a
    /// request is always in the canonical form.
    pub fn parse(s: &str) -> (r: Result<UuidText, IdParseError>)
        ensures
            r matches Ok(u) ==> u@ == spec_normalize_uuid(s@) && u.wf(),
            r is Ok <==> is_uuid_input(s@),
    {
        let n = s.unicode_len();
        if n != 36 {
            return Err(IdParseError { raw: s.to_owned() });
        }
        let mut out = String::new();
        let mut i: usize = 0;
        while i < 36
            invariant
                0 <= i <= 36,
                s@.len() == 36,
                out@.len() == i,
                forall|k: int|
                    0 <= k < i ==> (if is_uuid_gap(k) {
                        s@[k] == '-'
                    } else {
                        is_lower_hex(#[trigger] s@[k]) || is_upper_hex(s@[k])
                    }),
                forall|k: int| 0 <= k < i ==> out@[k] == lower_hex(s@[k]),
            decreases 36 - i,
        {
            let c = s.get_char(i);
            if i == 8 || i == 13 || i == 18 || i == 23 {
                if c != '-' {
                    return Err(IdParseError { raw: s.to_owned() });
                }
                push_char(&mut out, c);
            } else {
                if !(is_lower_hex_exec(c) || is_upper_hex_exec(c)) {
                    return Err(IdParseError { raw: s.to_owned() });
                }
                push_char(&mut out, lower_hex_exec(c));
            }
            i += 1;
        }
        proof {
            assert(out@ =~= spec_normalize_uuid(s@));
            assert(is_uuid_text(out@)) by {
                assert(forall|k: int|
                    0 <= k < 36 && !is_uuid_gap(k) ==> is_lower_hex(#[trigger] out@[k]));
            }
        }
        Ok(UuidText { text: out })
    }

    pub fn as_str(&self) -> (r: &str)
        ensures
            r@ == self@,
    {
        self.text.as_str()
    }
}

#[derive(Debug, Clone, PartialEq, Eq)]
pub struct CityID {
    id: UuidText,
}

#[derive(Debug, Clone, PartialEq, Eq)]
pub struct CounterpartyID {
    id: UuidText,
}

#[derive(Debug, Clone, PartialEq, Eq)]
pub struct ContactPersonID {
    id: UuidText,
}

#[derive(Debug, Clone, PartialEq, Eq)]
pub struct AddressID {
    id: UuidText,
}

impl View for CityID {
    type V = Seq<char>;

    closed spec fn view(&self) -> Seq<char> {
        self.id@
    }
}

impl CityID {
    pub open spec fn wf(&self) -> bool {
        is_uuid_text(self@)
    }

    pub fn parse(s: &str) -> (r: Result<CityID, IdParseError>)
        ensures
            r matches Ok(u) ==> u@ == spec_normalize_uuid(s@) && u.wf(),
            r is Ok <==> is_uuid_input(s@),
    {
        match UuidText::parse(s) {
            Ok(id) => Ok(CityID { id }),
            Err(e) => Err(e),
        }
    }

    pub fn as_str(&self) -> (r: &str)
        ensures
            r@ == self@,
    {
        self.id.as_str()
    }
}

impl View for CounterpartyID {
    type V = Seq<char>;

    closed spec fn view(&self) -> Seq<char> {
        self.id@
    }
}

impl CounterpartyID {
    pub open spec fn wf(&self) -> bool {
        is_uuid_text(self@)
    }

    pub fn parse(s: &str) -> (r: Result<CounterpartyID, IdParseError>)
        ensures
            r matches Ok(u) ==> u@ == spec_normalize_uuid(s@) && u.wf(),
            r is Ok <==> is_uuid_input(s@),
    {
        match UuidText::parse(s) {
            Ok(id) => Ok(CounterpartyID { id }),
            Err(e) => Err(e),
        }
    }

    pub fn as_str(&self) -> (r: &str)
        ensures
            r@ == self@,
    {
        self.id.as_str()
    }
}

impl View for ContactPersonID {
    type V = Seq<char>;

    closed spec fn view(&self) -> Seq<char> {
        self.id@
    }
}

impl ContactPersonID {
    pub open spec fn wf(&self) -> bool {
        is_uuid_text(self@)
    }

    pub fn parse(s: &str) -> (r: Result<ContactPersonID, IdParseError>)
        ensures
            r matches Ok(u) ==> u@ == spec_normalize_uuid(s@) && u.wf(),
            r is Ok <==> is_uuid_input(s@),
    {
        match UuidText::parse(s) {
            Ok(id) => Ok(ContactPersonID { id }),
            Err(e) => Err(e),
        }
    }

    pub fn as_str(&self) -> (r: &str)
        ensures
            r@ == self@,
    {
        self.id.as_str()
    }
}

impl View for AddressID {
    type V = Seq<char>;

    closed spec fn view(&self) -> Seq<char> {
        self.id@
    }
}

impl AddressID {
    pub open spec fn wf(&self) -> bool {
        is_uuid_text(self@)
    }

    pub fn parse(s: &str) -> (r: Result<AddressID, IdParseError>)
        ensures
            r matches Ok(u) ==> u@ == spec_normalize_uuid(s@) && u.wf(),
            r is Ok <==> is_uuid_input(s@),
    {
        match UuidText::parse(s) {
            Ok(id) => Ok(AddressID { id }),
            Err(e) => Err(e),
        }
    }

    pub fn as_str(&self) -> (r: &str)
        ensures
            r@ == self@,
    {
        self.id.as_str()
    }
}

/// A point on the map, both coordinates carried as decimal text exactly as
/// the wire sends them.
#[derive(Debug, Clone, PartialEq, Eq)]
pub struct Coordinates {
    pub latitude: NumText,
    pub longitude: NumText,
}

/// Ghost value of a decoded coordinate pair.
pub struct CoordinatesV {
    pub latitude: Seq<char>,
    pub longitude: Seq<char>,
}

/// Each coordinate arrives as a decimal string, under its long name or
/// its short alias; the long name wins when both stand in the record.
pub open spec fn spec_decode_coordinates(j: crate::json::JsonSpec) -> Option<CoordinatesV> {
    let lat = if crate::fields::obj_field(j, "Latitude"@) is Some {
        crate::fields::spec_f_num_str(j, "Latitude"@)
    } else {
        crate::fields::spec_f_num_str(j, "lat"@)
    };
    let lon = if crate::fields::obj_field(j, "Longitude"@) is Some {
        crate::fields::spec_f_num_str(j, "Longitude"@)
    } else {
        crate::fields::spec_f_num_str(j, "lon"@)
    };
    if lat is Some && lon is Some {
        Some(CoordinatesV { latitude: lat->Some_0, longitude: lon->Some_0 })
    } else {
        None
    }
}

impl crate::res_template::JsonDecode for Coordinates {
    type SV = CoordinatesV;

    open spec fn sview(&self) -> CoordinatesV {
        CoordinatesV { latitude: self.latitude@, longitude: self.longitude@ }
    }

    open spec fn spec_decode(j: crate::json::JsonSpec) -> Option<CoordinatesV> {
        spec_decode_coordinates(j)
    }

    fn decode_json(v: &serde_json::Value) -> (r: Result<Coordinates, crate::fields::DecodeError>) {
        let latitude = if crate::json::get_field(v, "Latitude").is_some() {
            crate::fields::f_num_str(v, "Latitude")?
        } else {
            crate::fields::f_num_str(v, "lat")?
        };
        let longitude = if crate::json::get_field(v, "Longitude").is_some() {
            crate::fields::f_num_str(v, "Longitude")?
        } else {
            crate::fields::f_num_str(v, "lon")?
        };
        Ok(Coordinates { latitude, longitude })
    }
}

} // verus!
