//! Settlement search and street search: request building and payloads.

use vstd::prelude::*;

use crate::fields::{
    f_bool, f_text, f_u16, f_uuid, spec_f_bool, spec_f_text, spec_f_u16, spec_f_uuid, DecodeError,
};
use crate::helper_structs::{Coordinates, CoordinatesV, UuidText};
use crate::json::JsonSpec;
use crate::request::NPRequest;
use crate::res_template::{f_elems, spec_f_elems, JsonDecode};
use crate::text::{render_dec, render_u16};
use crate::writer::{json_object, json_quoted, opt_piece, ObjWriter};

verus! {

/// Ghost value of a decoded settlement record.
pub struct SettlementV {
    pub full_name: Seq<char>,
    pub warehouses_number: u16,
    pub main_description: Seq<char>,
    pub area: Seq<char>,
    pub region: Seq<char>,
    pub settlement_type_code: Seq<char>,
    pub ref_id: Seq<char>,
    pub delivery_city: Seq<char>,
    pub address_delivery_allowed: bool,
    pub streets_availability: bool,
    pub parent_region_types: Seq<char>,
    pub parent_region_code: Seq<char>,
    pub region_types: Seq<char>,
    pub region_types_code: Seq<char>,
}

/// One settlement record. The wire field literally named "Present"
/// carries the settlement's display name, not a presence flag, and the
/// one named "Warehouses" carries their count.
#[derive(Debug, Clone)]
pub struct Settlement {
    pub full_name: String,
    pub warehouses_number: u16,
    pub main_description: String,
    pub area: String,
    pub region: String,
    pub settlement_type_code: String,
    pub ref_id: UuidText,
    pub delivery_city: UuidText,
    pub address_delivery_allowed: bool,
    pub streets_availability: bool,
    pub parent_region_types: String,
    pub parent_region_code: String,
    pub region_types: String,
    pub region_types_code: String,
}

/// What decoding a settlement record demands of each field.
pub open spec fn spec_decode_settlement(j: JsonSpec) -> Option<SettlementV> {
    if {
        &&& spec_f_text(j, "Present"@) is Some
        &&& spec_f_u16(j, "Warehouses"@) is Some
        &&& spec_f_text(j, "MainDescription"@) is Some
        &&& spec_f_text(j, "Area"@) is Some
        &&& spec_f_text(j, "Region"@) is Some
        &&& spec_f_text(j, "SettlementTypeCode"@) is Some
        &&& spec_f_uuid(j, "Ref"@) is Some
        &&& spec_f_uuid(j, "DeliveryCity"@) is Some
        &&& spec_f_bool(j, "AddressDeliveryAllowed"@) is Some
        &&& spec_f_bool(j, "StreetsAvailability"@) is Some
        &&& spec_f_text(j, "ParentRegionTypes"@) is Some
        &&& spec_f_text(j, "ParentRegionCode"@) is Some
        &&& spec_f_text(j, "RegionTypes"@) is Some
        &&& spec_f_text(j, "RegionTypesCode"@) is Some
    } {
        Some(
            SettlementV {
                full_name: spec_f_text(j, "Present"@)->Some_0,
                warehouses_number: spec_f_u16(j, "Warehouses"@)->Some_0,
                main_description: spec_f_text(j, "MainDescription"@)->Some_0,
                area: spec_f_text(j, "Area"@)->Some_0,
                region: spec_f_text(j, "Region"@)->Some_0,
                settlement_type_code: spec_f_text(j, "SettlementTypeCode"@)->Some_0,
                ref_id: spec_f_uuid(j, "Ref"@)->Some_0,
                delivery_city: spec_f_uuid(j, "DeliveryCity"@)->Some_0,
                address_delivery_allowed: spec_f_bool(j, "AddressDeliveryAllowed"@)->Some_0,
                streets_availability: spec_f_bool(j, "StreetsAvailability"@)->Some_0,
                parent_region_types: spec_f_text(j, "ParentRegionTypes"@)->Some_0,
                parent_region_code: spec_f_text(j, "ParentRegionCode"@)->Some_0,
                region_types: spec_f_text(j, "RegionTypes"@)->Some_0,
                region_types_code: spec_f_text(j, "RegionTypesCode"@)->Some_0,
            },
        )
    } else {
        None
    }
}

impl JsonDecode for Settlement {
    type SV = SettlementV;

    open spec fn sview(&self) -> SettlementV {
        SettlementV {
            full_name: self.full_name@,
            warehouses_number: self.warehouses_number,
            main_description: self.main_description@,
            area: self.area@,
            region: self.region@,
            settlement_type_code: self.settlement_type_code@,
            ref_id: self.ref_id@,
            delivery_city: self.delivery_city@,
            address_delivery_allowed: self.address_delivery_allowed,
            streets_availability: self.streets_availability,
            parent_region_types: self.parent_region_types@,
            parent_region_code: self.parent_region_code@,
            region_types: self.region_types@,
            region_types_code: self.region_types_code@,
        }
    }

    open spec fn spec_decode(j: JsonSpec) -> Option<SettlementV> {
        spec_decode_settlement(j)
    }

    #[verifier::rlimit(60)]
    fn decode_json(v: &serde_json::Value) -> (r: Result<Settlement, DecodeError>) {
        let full_name = f_text(v, "Present")?;
        let warehouses_number = f_u16(v, "Warehouses")?;
        let main_description = f_text(v, "MainDescription")?;
        let area = f_text(v, "Area")?;
        let region = f_text(v, "Region")?;
        let settlement_type_code = f_text(v, "SettlementTypeCode")?;
        let ref_id = f_uuid(v, "Ref")?;
        let delivery_city = f_uuid(v, "DeliveryCity")?;
        let address_delivery_allowed = f_bool(v, "AddressDeliveryAllowed")?;
        let streets_availability = f_bool(v, "StreetsAvailability")?;
        let parent_region_types = f_text(v, "ParentRegionTypes")?;
        let parent_region_code = f_text(v, "ParentRegionCode")?;
        let region_types = f_text(v, "RegionTypes")?;
        let region_types_code = f_text(v, "RegionTypesCode")?;
        Ok(
            Settlement {
                full_name,
                warehouses_number,
                main_description,
                area,
                region,
                settlement_type_code,
                ref_id,
                delivery_city,
                address_delivery_allowed,
                streets_availability,
                parent_region_types,
                parent_region_code,
                region_types,
                region_types_code,
            },
        )
    }
}

/// Ghost value of a decoded settlement page.
pub struct SettlementsV {
    pub total_count: u16,
    pub addresses: Seq<SettlementV>,
}

/// One page of settlement results.
#[derive(Debug, Clone)]
pub struct Settlements {
    pub total_count: u16,
    pub addresses: Vec<Settlement>,
}

/// What decoding a settlement page demands: the count and every record.
pub open spec fn spec_decode_settlements(j: JsonSpec) -> Option<SettlementsV> {
    if spec_f_u16(j, "TotalCount"@) is Some && spec_f_elems::<Settlement>(j, "Addresses"@)
        is Some {
        Some(
            SettlementsV {
                total_count: spec_f_u16(j, "TotalCount"@)->Some_0,
                addresses: spec_f_elems::<Settlement>(j, "Addresses"@)->Some_0,
            },
        )
    } else {
        None
    }
}

impl JsonDecode for Settlements {
    type SV = SettlementsV;

    open spec fn sview(&self) -> SettlementsV {
        SettlementsV {
            total_count: self.total_count,
            addresses: self.addresses@.map(|i: int, s: Settlement| s.sview()),
        }
    }

    open spec fn spec_decode(j: JsonSpec) -> Option<SettlementsV> {
        spec_decode_settlements(j)
    }

    fn decode_json(v: &serde_json::Value) -> (r: Result<Settlements, DecodeError>) {
        let total_count = f_u16(v, "TotalCount")?;
        let addresses = f_elems::<Settlement>(v, "Addresses")?;
        Ok(Settlements { total_count, addresses })
    }
}

/// Ghost value of a decoded street record.
pub struct StreetV {
    pub settlement_ref: Seq<char>,
    pub settlement_street_ref: Seq<char>,
    pub settlement_street_description: Seq<char>,
    pub present: Seq<char>,
    pub streets_type: Seq<char>,
    pub streets_type_description: Seq<char>,
    pub location: CoordinatesV,
    pub settlement_street_description_ru: Seq<char>,
}

/// One street record of a street search.
#[derive(Debug, Clone)]
pub struct Street {
    pub settlement_ref: UuidText,
    pub settlement_street_ref: UuidText,
    pub settlement_street_description: String,
    pub present: String,
    pub streets_type: UuidText,
    pub streets_type_description: String,
    pub location: Coordinates,
    pub settlement_street_description_ru: String,
}

/// What decoding a street record demands of each field; the location is
/// a nested coordinate pair.
pub open spec fn spec_decode_street(j: JsonSpec) -> Option<StreetV> {
    if {
        &&& spec_f_uuid(j, "SettlementRef"@) is Some
        &&& spec_f_uuid(j, "SettlementStreetRef"@) is Some
        &&& spec_f_text(j, "SettlementStreetDescription"@) is Some
        &&& spec_f_text(j, "Present"@) is Some
        &&& spec_f_uuid(j, "StreetsType"@) is Some
        &&& spec_f_text(j, "StreetsTypeDescription"@) is Some
        &&& (match crate::fields::obj_field(j, "Location"@) {
            Some(u) => Coordinates::spec_decode(u) is Some,
            None => false,
        })
        &&& spec_f_text(j, "SettlementStreetDescriptionRu"@) is Some
    } {
        Some(
            StreetV {
                settlement_ref: spec_f_uuid(j, "SettlementRef"@)->Some_0,
                settlement_street_ref: spec_f_uuid(j, "SettlementStreetRef"@)->Some_0,
                settlement_street_description: spec_f_text(
                    j,
                    "SettlementStreetDescription"@,
                )->Some_0,
                present: spec_f_text(j, "Present"@)->Some_0,
                streets_type: spec_f_uuid(j, "StreetsType"@)->Some_0,
                streets_type_description: spec_f_text(j, "StreetsTypeDescription"@)->Some_0,
                location: Coordinates::spec_decode(
                    crate::fields::obj_field(j, "Location"@)->Some_0,
                )->Some_0,
                settlement_street_description_ru: spec_f_text(
                    j,
                    "SettlementStreetDescriptionRu"@,
                )->Some_0,
            },
        )
    } else {
        None
    }
}

impl JsonDecode for Street {
    type SV = StreetV;

    open spec fn sview(&self) -> StreetV {
        StreetV {
            settlement_ref: self.settlement_ref@,
            settlement_street_ref: self.settlement_street_ref@,
            settlement_street_description: self.settlement_street_description@,
            present: self.present@,
            streets_type: self.streets_type@,
            streets_type_description: self.streets_type_description@,
            location: self.location.sview(),
            settlement_street_description_ru: self.settlement_street_description_ru@,
        }
    }

    open spec fn spec_decode(j: JsonSpec) -> Option<StreetV> {
        spec_decode_street(j)
    }

    #[verifier::rlimit(60)]
    fn decode_json(v: &serde_json::Value) -> (r: Result<Street, DecodeError>) {
        let settlement_ref = f_uuid(v, "SettlementRef")?;
        let settlement_street_ref = f_uuid(v, "SettlementStreetRef")?;
        let settlement_street_description = f_text(v, "SettlementStreetDescription")?;
        let present = f_text(v, "Present")?;
        let streets_type = f_uuid(v, "StreetsType")?;
        let streets_type_description = f_text(v, "StreetsTypeDescription")?;
        let location = match crate::fields::fetch(v, "Location") {
            Ok(u) => Coordinates::decode_json(u)?,
            Err(e) => {
                return Err(e);
            },
        };
        let settlement_street_description_ru = f_text(v, "SettlementStreetDescriptionRu")?;
        Ok(
            Street {
                settlement_ref,
                settlement_street_ref,
                settlement_street_description,
                present,
                streets_type,
                streets_type_description,
                location,
                settlement_street_description_ru,
            },
        )
    }
}

/// Ghost value of a decoded street page.
pub struct StreetsV {
    pub total_count: u16,
    pub addresses: Seq<StreetV>,
}

/// One page of street results.
#[derive(Debug, Clone)]
pub struct Streets {
    pub total_count: u16,
    pub addresses: Vec<Street>,
}

/// What decoding a street page demands: the count and every record.
pub open spec fn spec_decode_streets(j: JsonSpec) -> Option<StreetsV> {
    if spec_f_u16(j, "TotalCount"@) is Some && spec_f_elems::<Street>(j, "Addresses"@) is Some {
        Some(
            StreetsV {
                total_count: spec_f_u16(j, "TotalCount"@)->Some_0,
                addresses: spec_f_elems::<Street>(j, "Addresses"@)->Some_0,
            },
        )
    } else {
        None
    }
}

impl JsonDecode for Streets {
    type SV = StreetsV;

    open spec fn sview(&self) -> StreetsV {
        StreetsV {
            total_count: self.total_count,
            addresses: self.addresses@.map(|i: int, s: Street| s.sview()),
        }
    }

    open spec fn spec_decode(j: JsonSpec) -> Option<StreetsV> {
        spec_decode_streets(j)
    }

    fn decode_json(v: &serde_json::Value) -> (r: Result<Streets, DecodeError>) {
        let total_count = f_u16(v, "TotalCount")?;
        let addresses = f_elems::<Street>(v, "Addresses")?;
        Ok(Streets { total_count, addresses })
    }
}

/// Accumulates the parameters of a settlement search; the searched name is
/// mandatory and supplied at construction, so any built value is complete.
#[derive(Debug, Clone)]
pub struct SearchSettlementsBuilder {
    pub city_name: String,
    pub page: Option<u16>,
    pub limit: Option<u16>,
}

/// The parameter object: the searched name, then the set options.
pub open spec fn spec_settlements_props(b: SearchSettlementsBuilder) -> Seq<char> {
    json_object(
        seq![("CityName"@, json_quoted(b.city_name@))] + opt_piece(
            "Page"@,
            match b.page {
                Some(n) => Some(render_dec(n as nat)),
                None => None,
            },
        ) + opt_piece(
            "Limit"@,
            match b.limit {
                Some(n) => Some(render_dec(n as nat)),
                None => None,
            },
        ),
    )
}

impl SearchSettlementsBuilder {
    pub fn new(search_param: String) -> (r: SearchSettlementsBuilder)
        ensures
            r.city_name@ == search_param@,
            r.page is None,
            r.limit is None,
    {
        SearchSettlementsBuilder { city_name: search_param, page: None, limit: None }
    }

    /// Sets the page, leaving every other slot unchanged.
    pub fn page(self, page: u16) -> (r: SearchSettlementsBuilder)
        ensures
            r == (SearchSettlementsBuilder { page: Some(page), ..self }),
    {
        SearchSettlementsBuilder { page: Some(page), ..self }
    }

    /// Sets the page size, leaving every other slot unchanged.
    pub fn limit(self, limit: u16) -> (r: SearchSettlementsBuilder)
        ensures
            r == (SearchSettlementsBuilder { limit: Some(limit), ..self }),
    {
        SearchSettlementsBuilder { limit: Some(limit), ..self }
    }

    /// Renders the parameter object.
    pub fn properties(&self) -> (r: String)
        ensures
            r@ == spec_settlements_props(*self),
    {
        let mut w = ObjWriter::new();
        w.field_quoted("CityName", self.city_name.as_str());
        if let Some(x) = &self.page {
            let t = render_u16(*x);
            w.field_raw("Page", t.as_str());
        }
        if let Some(x) = &self.limit {
            let t = render_u16(*x);
            w.field_raw("Limit", t.as_str());
        }
        proof {
            assert(w.pieces() =~= seq![("CityName"@, json_quoted(self.city_name@))] + opt_piece(
                "Page"@,
                match self.page {
                    Some(n) => Some(render_dec(n as nat)),
                    None => None,
                },
            ) + opt_piece(
                "Limit"@,
                match self.limit {
                    Some(n) => Some(render_dec(n as nat)),
                    None => None,
                },
            ));
        }
        w.finish()
    }

    /// Finalizes into a wire request under the given key.
    pub fn request(&self, api_key: String) -> (r: NPRequest)
        ensures
            r.api_key@ == api_key@,
            r.model_name@ == "Address"@,
            r.called_method@ == "searchSettlements"@,
            r.method_properties@ == spec_settlements_props(*self),
    {
        NPRequest {
            api_key,
            model_name: String::from_str("Address"),
            called_method: String::from_str("searchSettlements"),
            method_properties: self.properties(),
        }
    }
}

/// Accumulates the parameters of a street search; the street name and the
/// settlement are mandatory and supplied at construction.
#[derive(Debug, Clone)]
pub struct SearchStreetsBuilder {
    pub street_name: String,
    pub settlement_ref: UuidText,
    pub page: Option<u16>,
    pub limit: Option<u16>,
}

/// The parameter object: the street name and settlement, then the set
/// options.
pub open spec fn spec_streets_props(b: SearchStreetsBuilder) -> Seq<char> {
    json_object(
        seq![
            ("StreetName"@, json_quoted(b.street_name@)),
            ("SettlementRef"@, json_quoted(b.settlement_ref@)),
        ] + opt_piece(
            "Page"@,
            match b.page {
                Some(n) => Some(render_dec(n as nat)),
                None => None,
            },
        ) + opt_piece(
            "Limit"@,
            match b.limit {
                Some(n) => Some(render_dec(n as nat)),
                None => None,
            },
        ),
    )
}

impl SearchStreetsBuilder {
    pub fn new(street_name: String, settlement_ref: UuidText) -> (r: SearchStreetsBuilder)
        ensures
            r.street_name@ == street_name@,
            r.settlement_ref@ == settlement_ref@,
            r.page is None,
            r.limit is None,
    {
        SearchStreetsBuilder { street_name, settlement_ref, page: None, limit: None }
    }

    /// Sets the page, leaving every other slot unchanged.
    pub fn page(self, page: u16) -> (r: SearchStreetsBuilder)
        ensures
            r == (SearchStreetsBuilder { page: Some(page), ..self }),
    {
        SearchStreetsBuilder { page: Some(page), ..self }
    }

    /// Sets the page size, leaving every other slot unchanged.
    pub fn limit(self, limit: u16) -> (r: SearchStreetsBuilder)
        ensures
            r == (SearchStreetsBuilder { limit: Some(limit), ..self }),
    {
        SearchStreetsBuilder { limit: Some(limit), ..self }
    }

    /// Renders the parameter object.
    pub fn properties(&self) -> (r: String)
        ensures
            r@ == spec_streets_props(*self),
    {
        let mut w = ObjWriter::new();
        w.field_quoted("StreetName", self.street_name.as_str());
        w.field_quoted("SettlementRef", self.settlement_ref.as_str());
        if let Some(x) = &self.page {
            let t = render_u16(*x);
            w.field_raw("Page", t.as_str());
        }
        if let Some(x) = &self.limit {
            let t = render_u16(*x);
            w.field_raw("Limit", t.as_str());
        }
        proof {
            assert(w.pieces() =~= seq![
                ("StreetName"@, json_quoted(self.street_name@)),
                ("SettlementRef"@, json_quoted(self.settlement_ref@)),
            ] + opt_piece(
                "Page"@,
                match self.page {
                    Some(n) => Some(render_dec(n as nat)),
                    None => None,
                },
            ) + opt_piece(
                "Limit"@,
                match self.limit {
                    Some(n) => Some(render_dec(n as nat)),
                    None => None,
                },
            ));
        }
        w.finish()
    }

    /// Finalizes into a wire request under the given key.
    pub fn request(&self, api_key: String) -> (r: NPRequest)
        ensures
            r.api_key@ == api_key@,
            r.model_name@ == "Address"@,
            r.called_method@ == "searchSettlementStreets"@,
            r.method_properties@ == spec_streets_props(*self),
    {
        NPRequest {
            api_key,
            model_name: String::from_str("Address"),
            called_method: String::from_str("searchSettlementStreets"),
            method_properties: self.properties(),
        }
    }
}

} // verus!
