//! City listing: request building and the city payload.

use vstd::prelude::*;

use crate::fields::{
    f_bool01, f_bool_int, f_opt_text, f_text, f_u16_str, f_uuid, opt_text_view, spec_f_bool01,
    spec_f_bool_int, spec_f_opt_text, spec_f_text, spec_f_u16_str, spec_f_uuid, DecodeError,
};
use crate::helper_structs::{CityID, UuidText};
use crate::json::{jv, JsonSpec};
use crate::request::NPRequest;
use crate::res_template::JsonDecode;
use crate::text::{render_dec, render_u16};
use crate::writer::{json_object, json_quoted, opt_piece, ObjWriter};

verus! {

/// Ghost value of a decoded city record.
pub struct CityV {
    pub description: Seq<char>,
    pub description_ru: Seq<char>,
    pub ref_id: Seq<char>,
    pub delivery1: Option<Seq<char>>,
    pub delivery2: Option<Seq<char>>,
    pub delivery3: Option<Seq<char>>,
    pub delivery4: Option<Seq<char>>,
    pub delivery5: Option<Seq<char>>,
    pub delivery6: Option<Seq<char>>,
    pub delivery7: Option<Seq<char>>,
    pub area: Seq<char>,
    pub settlement_type: Seq<char>,
    pub is_branch: bool,
    pub prevent_entry_new_streets_user: bool,
    pub city_id: u16,
    pub settlement_type_description: Seq<char>,
    pub settlement_type_description_ru: Seq<char>,
    pub special_cash_check: bool,
    pub area_description: Seq<char>,
    pub area_description_ru: Seq<char>,
}

/// One city record, its wire quirks normalized: the branch flags arrive
/// under the boolean string rule, the weekday delivery texts under the
/// empty-string rule, and the numeric city code as a decimal string.
#[derive(Debug, Clone)]
pub struct City {
    pub description: String,
    pub description_ru: String,
    pub ref_id: UuidText,
    pub delivery1: Option<String>,
    pub delivery2: Option<String>,
    pub delivery3: Option<String>,
    pub delivery4: Option<String>,
    pub delivery5: Option<String>,
    pub delivery6: Option<String>,
    pub delivery7: Option<String>,
    pub area: UuidText,
    pub settlement_type: UuidText,
    pub is_branch: bool,
    pub prevent_entry_new_streets_user: bool,
    pub city_id: u16,
    pub settlement_type_description: String,
    pub settlement_type_description_ru: String,
    pub special_cash_check: bool,
    pub area_description: String,
    pub area_description_ru: String,
}

/// What decoding a city record demands of each field.
pub open spec fn spec_decode_city(j: JsonSpec) -> Option<CityV> {
    if {
        &&& spec_f_text(j, "Description"@) is Some
        &&& spec_f_text(j, "DescriptionRu"@) is Some
        &&& spec_f_uuid(j, "Ref"@) is Some
        &&& spec_f_opt_text(j, "Delivery1"@) is Some
        &&& spec_f_opt_text(j, "Delivery2"@) is Some
        &&& spec_f_opt_text(j, "Delivery3"@) is Some
        &&& spec_f_opt_text(j, "Delivery4"@) is Some
        &&& spec_f_opt_text(j, "Delivery5"@) is Some
        &&& spec_f_opt_text(j, "Delivery6"@) is Some
        &&& spec_f_opt_text(j, "Delivery7"@) is Some
        &&& spec_f_uuid(j, "Area"@) is Some
        &&& spec_f_uuid(j, "SettlementType"@) is Some
        &&& spec_f_bool01(j, "IsBranch"@) is Some
        &&& spec_f_bool01(j, "PreventEntryNewStreetsUser"@) is Some
        &&& spec_f_u16_str(j, "CityID"@) is Some
        &&& spec_f_text(j, "SettlementTypeDescription"@) is Some
        &&& spec_f_text(j, "SettlementTypeDescriptionRu"@) is Some
        &&& spec_f_bool_int(j, "SpecialCashCheck"@) is Some
        &&& spec_f_text(j, "AreaDescription"@) is Some
        &&& spec_f_text(j, "AreaDescriptionRu"@) is Some
    } {
        Some(
            CityV {
                description: spec_f_text(j, "Description"@)->Some_0,
                description_ru: spec_f_text(j, "DescriptionRu"@)->Some_0,
                ref_id: spec_f_uuid(j, "Ref"@)->Some_0,
                delivery1: spec_f_opt_text(j, "Delivery1"@)->Some_0,
                delivery2: spec_f_opt_text(j, "Delivery2"@)->Some_0,
                delivery3: spec_f_opt_text(j, "Delivery3"@)->Some_0,
                delivery4: spec_f_opt_text(j, "Delivery4"@)->Some_0,
                delivery5: spec_f_opt_text(j, "Delivery5"@)->Some_0,
                delivery6: spec_f_opt_text(j, "Delivery6"@)->Some_0,
                delivery7: spec_f_opt_text(j, "Delivery7"@)->Some_0,
                area: spec_f_uuid(j, "Area"@)->Some_0,
                settlement_type: spec_f_uuid(j, "SettlementType"@)->Some_0,
                is_branch: spec_f_bool01(j, "IsBranch"@)->Some_0,
                prevent_entry_new_streets_user: spec_f_bool01(
                    j,
                    "PreventEntryNewStreetsUser"@,
                )->Some_0,
                city_id: spec_f_u16_str(j, "CityID"@)->Some_0,
                settlement_type_description: spec_f_text(
                    j,
                    "SettlementTypeDescription"@,
                )->Some_0,
                settlement_type_description_ru: spec_f_text(
                    j,
                    "SettlementTypeDescriptionRu"@,
                )->Some_0,
                special_cash_check: spec_f_bool_int(j, "SpecialCashCheck"@)->Some_0,
                area_description: spec_f_text(j, "AreaDescription"@)->Some_0,
                area_description_ru: spec_f_text(j, "AreaDescriptionRu"@)->Some_0,
            },
        )
    } else {
        None
    }
}

impl JsonDecode for City {
    type SV = CityV;

    open spec fn sview(&self) -> CityV {
        CityV {
            description: self.description@,
            description_ru: self.description_ru@,
            ref_id: self.ref_id@,
            delivery1: opt_text_view(self.delivery1),
            delivery2: opt_text_view(self.delivery2),
            delivery3: opt_text_view(self.delivery3),
            delivery4: opt_text_view(self.delivery4),
            delivery5: opt_text_view(self.delivery5),
            delivery6: opt_text_view(self.delivery6),
            delivery7: opt_text_view(self.delivery7),
            area: self.area@,
            settlement_type: self.settlement_type@,
            is_branch: self.is_branch,
            prevent_entry_new_streets_user: self.prevent_entry_new_streets_user,
            city_id: self.city_id,
            settlement_type_description: self.settlement_type_description@,
            settlement_type_description_ru: self.settlement_type_description_ru@,
            special_cash_check: self.special_cash_check,
            area_description: self.area_description@,
            area_description_ru: self.area_description_ru@,
        }
    }

    open spec fn spec_decode(j: JsonSpec) -> Option<CityV> {
        spec_decode_city(j)
    }

    #[verifier::rlimit(80)]
    fn decode_json(v: &serde_json::Value) -> (r: Result<City, DecodeError>) {
        let description = f_text(v, "Description")?;
        let description_ru = f_text(v, "DescriptionRu")?;
        let ref_id = f_uuid(v, "Ref")?;
        let delivery1 = f_opt_text(v, "Delivery1")?;
        let delivery2 = f_opt_text(v, "Delivery2")?;
        let delivery3 = f_opt_text(v, "Delivery3")?;
        let delivery4 = f_opt_text(v, "Delivery4")?;
        let delivery5 = f_opt_text(v, "Delivery5")?;
        let delivery6 = f_opt_text(v, "Delivery6")?;
        let delivery7 = f_opt_text(v, "Delivery7")?;
        let area = f_uuid(v, "Area")?;
        let settlement_type = f_uuid(v, "SettlementType")?;
        let is_branch = f_bool01(v, "IsBranch")?;
        let prevent_entry_new_streets_user = f_bool01(v, "PreventEntryNewStreetsUser")?;
        let city_id = f_u16_str(v, "CityID")?;
        let settlement_type_description = f_text(v, "SettlementTypeDescription")?;
        let settlement_type_description_ru = f_text(v, "SettlementTypeDescriptionRu")?;
        let special_cash_check = f_bool_int(v, "SpecialCashCheck")?;
        let area_description = f_text(v, "AreaDescription")?;
        let area_description_ru = f_text(v, "AreaDescriptionRu")?;
        Ok(
            City {
                description,
                description_ru,
                ref_id,
                delivery1,
                delivery2,
                delivery3,
                delivery4,
                delivery5,
                delivery6,
                delivery7,
                area,
                settlement_type,
                is_branch,
                prevent_entry_new_streets_user,
                city_id,
                settlement_type_description,
                settlement_type_description_ru,
                special_cash_check,
                area_description,
                area_description_ru,
            },
        )
    }
}

/// Accumulates the parameters of a city listing; every slot is optional,
/// so any configuration is finalizable.
#[derive(Debug, Clone)]
pub struct GetCitiesBuilder {
    pub city_ref: Option<CityID>,
    pub find_by_string: Option<String>,
    pub page: Option<u16>,
    pub limit: Option<u16>,
}

/// The configuration every city listing starts from: nothing set.
pub open spec fn cities_initial() -> GetCitiesBuilder {
    GetCitiesBuilder { city_ref: None, find_by_string: None, page: None, limit: None }
}

/// The parameter object: the set fields, in wire order.
pub open spec fn spec_cities_props(b: GetCitiesBuilder) -> Seq<char> {
    json_object(
        opt_piece(
            "CityRef"@,
            match b.city_ref {
                Some(id) => Some(json_quoted(id@)),
                None => None,
            },
        ) + opt_piece(
            "FindByString"@,
            match b.find_by_string {
                Some(s) => Some(json_quoted(s@)),
                None => None,
            },
        ) + opt_piece(
            "Page"@,
            match b.page {
                Some(n) => Some(render_dec(n as nat)),
                None => None,
            },
        ) + opt_piece(
            "Limit"@,
            match b.limit {
                Some(n) => Some(render_dec(n as nat)),
                None => None,
            },
        ),
    )
}

impl GetCitiesBuilder {
    pub open spec fn initial() -> GetCitiesBuilder {
        cities_initial()
    }

    pub fn new() -> (r: GetCitiesBuilder)
        ensures
            r == cities_initial(),
    {
        GetCitiesBuilder { city_ref: None, find_by_string: None, page: None, limit: None }
    }

    /// Sets the page, leaving every other slot unchanged; a later call
    /// overwrites an earlier one.
    pub fn page(self, page: u16) -> (r: GetCitiesBuilder)
        ensures
            r == (GetCitiesBuilder { page: Some(page), ..self }),
    {
        GetCitiesBuilder { page: Some(page), ..self }
    }

    /// Sets the page size, leaving every other slot unchanged.
    pub fn limit(self, limit: u16) -> (r: GetCitiesBuilder)
        ensures
            r == (GetCitiesBuilder { limit: Some(limit), ..self }),
    {
        GetCitiesBuilder { limit: Some(limit), ..self }
    }

    /// Sets the search string, leaving every other slot unchanged.
    pub fn find_by_string(self, search_val: String) -> (r: GetCitiesBuilder)
        ensures
            r == (GetCitiesBuilder { find_by_string: Some(search_val), ..self }),
    {
        GetCitiesBuilder { find_by_string: Some(search_val), ..self }
    }

    /// Sets the city reference, leaving every other slot unchanged.
    pub fn city_ref(self, c_ref: CityID) -> (r: GetCitiesBuilder)
        ensures
            r == (GetCitiesBuilder { city_ref: Some(c_ref), ..self }),
    {
        GetCitiesBuilder { city_ref: Some(c_ref), ..self }
    }

    /// Renders the parameter object.
    pub fn properties(&self) -> (r: String)
        ensures
            r@ == spec_cities_props(*self),
    {
        let mut w = ObjWriter::new();
        if let Some(x) = &self.city_ref {
            w.field_quoted("CityRef", x.as_str());
        }
        if let Some(x) = &self.find_by_string {
            w.field_quoted("FindByString", x.as_str());
        }
        if let Some(x) = &self.page {
            let t = render_u16(*x);
            w.field_raw("Page", t.as_str());
        }
        if let Some(x) = &self.limit {
            let t = render_u16(*x);
            w.field_raw("Limit", t.as_str());
        }
        proof {
            assert(w.pieces() =~= opt_piece(
                "CityRef"@,
                match self.city_ref {
                    Some(id) => Some(json_quoted(id@)),
                    None => None,
                },
            ) + opt_piece(
                "FindByString"@,
                match self.find_by_string {
                    Some(s) => Some(json_quoted(s@)),
                    None => None,
                },
            ) + opt_piece(
                "Page"@,
                match self.page {
                    Some(n) => Some(render_dec(n as nat)),
                    None => None,
                },
            ) + opt_piece(
                "Limit"@,
                match self.limit {
                    Some(n) => Some(render_dec(n as nat)),
                    None => None,
                },
            ));
        }
        w.finish()
    }

    /// Finalizes into a wire request under the given key.
    pub fn request(&self, api_key: String) -> (r: NPRequest)
        ensures
            r.api_key@ == api_key@,
            r.model_name@ == "Address"@,
            r.called_method@ == "getCities"@,
            r.method_properties@ == spec_cities_props(*self),
    {
        NPRequest {
            api_key,
            model_name: String::from_str("Address"),
            called_method: String::from_str("getCities"),
            method_properties: self.properties(),
        }
    }
}

} // verus!
