//! Counterparty address listing: request building and the address
//! payload.

use vstd::prelude::*;

use crate::fields::{f_text, f_uuid, spec_f_text, spec_f_uuid, DecodeError};
use crate::helper_structs::{counterparty_role_wire, CounterpartyID, CounterpartyRole, UuidText};
use crate::json::JsonSpec;
use crate::request::NPRequest;
use crate::res_template::JsonDecode;
use crate::writer::{json_object, json_quoted, opt_piece, ObjWriter};

verus! {

/// Ghost value of a decoded counterparty address.
pub struct CounterpartyAddressV {
    pub ref_id: Seq<char>,
    pub description: Seq<char>,
    pub city_ref: Seq<char>,
    pub city_description: Seq<char>,
    pub street_ref: Seq<char>,
    pub street_description: Seq<char>,
    pub building_ref: Seq<char>,
    pub building_description: Seq<char>,
    pub note: Seq<char>,
    pub address_name: Seq<char>,
}

/// One stored address of a counterparty.
#[derive(Debug, Clone)]
pub struct CounterpartyAddress {
    pub ref_id: UuidText,
    pub description: String,
    pub city_ref: UuidText,
    pub city_description: String,
    pub street_ref: UuidText,
    pub street_description: String,
    pub building_ref: UuidText,
    pub building_description: String,
    pub note: String,
    pub address_name: String,
}

/// What decoding a counterparty address demands of each field.
pub open spec fn spec_decode_cp_address(j: JsonSpec) -> Option<CounterpartyAddressV> {
    if {
        &&& spec_f_uuid(j, "Ref"@) is Some
        &&& spec_f_text(j, "Description"@) is Some
        &&& spec_f_uuid(j, "CityRef"@) is Some
        &&& spec_f_text(j, "CityDescription"@) is Some
        &&& spec_f_uuid(j, "StreetRef"@) is Some
        &&& spec_f_text(j, "StreetDescription"@) is Some
        &&& spec_f_uuid(j, "BuildingRef"@) is Some
        &&& spec_f_text(j, "BuildingDescription"@) is Some
        &&& spec_f_text(j, "Note"@) is Some
        &&& spec_f_text(j, "AddressName"@) is Some
    } {
        Some(
            CounterpartyAddressV {
                ref_id: spec_f_uuid(j, "Ref"@)->Some_0,
                description: spec_f_text(j, "Description"@)->Some_0,
                city_ref: spec_f_uuid(j, "CityRef"@)->Some_0,
                city_description: spec_f_text(j, "CityDescription"@)->Some_0,
                street_ref: spec_f_uuid(j, "StreetRef"@)->Some_0,
                street_description: spec_f_text(j, "StreetDescription"@)->Some_0,
                building_ref: spec_f_uuid(j, "BuildingRef"@)->Some_0,
                building_description: spec_f_text(j, "BuildingDescription"@)->Some_0,
                note: spec_f_text(j, "Note"@)->Some_0,
                address_name: spec_f_text(j, "AddressName"@)->Some_0,
            },
        )
    } else {
        None
    }
}

impl JsonDecode for CounterpartyAddress {
    type SV = CounterpartyAddressV;

    open spec fn sview(&self) -> CounterpartyAddressV {
        CounterpartyAddressV {
            ref_id: self.ref_id@,
            description: self.description@,
            city_ref: self.city_ref@,
            city_description: self.city_description@,
            street_ref: self.street_ref@,
            street_description: self.street_description@,
            building_ref: self.building_ref@,
            building_description: self.building_description@,
            note: self.note@,
            address_name: self.address_name@,
        }
    }

    open spec fn spec_decode(j: JsonSpec) -> Option<CounterpartyAddressV> {
        spec_decode_cp_address(j)
    }

    #[verifier::rlimit(40)]
    fn decode_json(v: &serde_json::Value) -> (r: Result<CounterpartyAddress, DecodeError>) {
        let ref_id = f_uuid(v, "Ref")?;
        let description = f_text(v, "Description")?;
        let city_ref = f_uuid(v, "CityRef")?;
        let city_description = f_text(v, "CityDescription")?;
        let street_ref = f_uuid(v, "StreetRef")?;
        let street_description = f_text(v, "StreetDescription")?;
        let building_ref = f_uuid(v, "BuildingRef")?;
        let building_description = f_text(v, "BuildingDescription")?;
        let note = f_text(v, "Note")?;
        let address_name = f_text(v, "AddressName")?;
        Ok(
            CounterpartyAddress {
                ref_id,
                description,
                city_ref,
                city_description,
                street_ref,
                street_description,
                building_ref,
                building_description,
                note,
                address_name,
            },
        )
    }
}

/// Accumulates the parameters of an address listing; the counterparty is
/// mandatory and supplied at construction.
#[derive(Debug, Clone)]
pub struct GetAddressesBuilder {
    pub counterparty_ref: CounterpartyID,
    pub counterparty_property: Option<CounterpartyRole>,
}

/// The parameter object: the counterparty, then the role when set.
pub open spec fn spec_addresses_props(b: GetAddressesBuilder) -> Seq<char> {
    json_object(
        seq![("CounterpartyRef"@, json_quoted(b.counterparty_ref@))] + opt_piece(
            "CounterpartyProperty"@,
            match b.counterparty_property {
                Some(p) => Some(json_quoted(counterparty_role_wire(p))),
                None => None,
            },
        ),
    )
}

impl GetAddressesBuilder {
    pub fn new(counterparty_ref: CounterpartyID) -> (r: GetAddressesBuilder)
        ensures
            r.counterparty_ref@ == counterparty_ref@,
            r.counterparty_property is None,
    {
        GetAddressesBuilder { counterparty_ref, counterparty_property: None }
    }

    /// Sets the role, leaving the counterparty unchanged.
    pub fn counterparty_property(self, prop: CounterpartyRole) -> (r: GetAddressesBuilder)
        ensures
            r == (GetAddressesBuilder { counterparty_property: Some(prop), ..self }),
    {
        GetAddressesBuilder { counterparty_property: Some(prop), ..self }
    }

    /// Renders the parameter object.
    pub fn properties(&self) -> (r: String)
        ensures
            r@ == spec_addresses_props(*self),
    {
        let mut w = ObjWriter::new();
        w.field_quoted("CounterpartyRef", self.counterparty_ref.as_str());
        if let Some(p) = &self.counterparty_property {
            let t = p.wire_name();
            w.field_quoted("CounterpartyProperty", t.as_str());
        }
        proof {
            assert(w.pieces() =~= seq![("CounterpartyRef"@, json_quoted(self.counterparty_ref@))]
                + opt_piece(
                "CounterpartyProperty"@,
                match self.counterparty_property {
                    Some(p) => Some(json_quoted(counterparty_role_wire(p))),
                    None => None,
                },
            ));
        }
        w.finish()
    }

    /// Finalizes into a wire request under the given key.
    pub fn request(&self, api_key: String) -> (r: NPRequest)
        ensures
            r.api_key@ == api_key@,
            r.model_name@ == "Counterparty"@,
            r.called_method@ == "getCounterpartyAddresses"@,
            r.method_properties@ == spec_addresses_props(*self),
    {
        NPRequest {
            api_key,
            model_name: String::from_str("Counterparty"),
            called_method: String::from_str("getCounterpartyAddresses"),
            method_properties: self.properties(),
        }
    }
}

} // verus!
