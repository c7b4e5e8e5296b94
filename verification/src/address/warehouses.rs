//! Warehouse listing: request building and the warehouse payload.

use vstd::prelude::*;

use crate::datetime::CanonicalDateTime;
use crate::fields::{
    f_bool01, f_num_str, f_opt_date, f_opt_text, f_text, f_u16, f_u16_str, f_uuid, fetch,
    obj_field, opt_text_view, spec_f_bool01, spec_f_num_str, spec_f_opt_date, spec_f_opt_text,
    spec_f_text, spec_f_u16, spec_f_u16_str, spec_f_uuid, DecodeError,
};
use crate::helper_structs::{spec_decode_coordinates, CityID, Coordinates, CoordinatesV, UuidText};
use crate::json::{jv, JsonSpec};
use crate::request::NPRequest;
use crate::res_template::JsonDecode;
use crate::scalar::NumText;
use crate::text::{render_dec, render_u16};
use crate::writer::{json_object, json_quoted, opt_piece, ObjWriter};

verus! {

/// Ghost value of a decoded dimension limit.
pub struct DimensionsV {
    pub width: u16,
    pub height: u16,
    pub length: u16,
}

/// Dimension limits of a warehouse, in centimetres.
#[derive(Debug, Clone)]
pub struct Dimensions {
    pub width: u16,
    pub height: u16,
    pub length: u16,
}

pub open spec fn spec_decode_dimensions(j: JsonSpec) -> Option<DimensionsV> {
    if spec_f_u16(j, "Width"@) is Some && spec_f_u16(j, "Height"@) is Some && spec_f_u16(
        j,
        "Length"@,
    ) is Some {
        Some(
            DimensionsV {
                width: spec_f_u16(j, "Width"@)->Some_0,
                height: spec_f_u16(j, "Height"@)->Some_0,
                length: spec_f_u16(j, "Length"@)->Some_0,
            },
        )
    } else {
        None
    }
}

impl JsonDecode for Dimensions {
    type SV = DimensionsV;

    open spec fn sview(&self) -> DimensionsV {
        DimensionsV { width: self.width, height: self.height, length: self.length }
    }

    open spec fn spec_decode(j: JsonSpec) -> Option<DimensionsV> {
        spec_decode_dimensions(j)
    }

    fn decode_json(v: &serde_json::Value) -> (r: Result<Dimensions, DecodeError>) {
        let width = f_u16(v, "Width")?;
        let height = f_u16(v, "Height")?;
        let length = f_u16(v, "Length")?;
        Ok(Dimensions { width, height, length })
    }
}

/// Ghost value of a decoded weekly schedule.
pub struct ScheduleV {
    pub monday: Seq<char>,
    pub tuesday: Seq<char>,
    pub wednesday: Seq<char>,
    pub thursday: Seq<char>,
    pub friday: Seq<char>,
    pub saturday: Seq<char>,
    pub sunday: Seq<char>,
}

/// A weekly schedule, one opening-hours text per day.
#[derive(Debug, Clone)]
pub struct Schedule {
    pub monday: String,
    pub tuesday: String,
    pub wednesday: String,
    pub thursday: String,
    pub friday: String,
    pub saturday: String,
    pub sunday: String,
}

pub open spec fn spec_decode_schedule(j: JsonSpec) -> Option<ScheduleV> {
    if {
        &&& spec_f_text(j, "Monday"@) is Some
        &&& spec_f_text(j, "Tuesday"@) is Some
        &&& spec_f_text(j, "Wednesday"@) is Some
        &&& spec_f_text(j, "Thursday"@) is Some
        &&& spec_f_text(j, "Friday"@) is Some
        &&& spec_f_text(j, "Saturday"@) is Some
        &&& spec_f_text(j, "Sunday"@) is Some
    } {
        Some(
            ScheduleV {
                monday: spec_f_text(j, "Monday"@)->Some_0,
                tuesday: spec_f_text(j, "Tuesday"@)->Some_0,
                wednesday: spec_f_text(j, "Wednesday"@)->Some_0,
                thursday: spec_f_text(j, "Thursday"@)->Some_0,
                friday: spec_f_text(j, "Friday"@)->Some_0,
                saturday: spec_f_text(j, "Saturday"@)->Some_0,
                sunday: spec_f_text(j, "Sunday"@)->Some_0,
            },
        )
    } else {
        None
    }
}

impl JsonDecode for Schedule {
    type SV = ScheduleV;

    open spec fn sview(&self) -> ScheduleV {
        ScheduleV {
            monday: self.monday@,
            tuesday: self.tuesday@,
            wednesday: self.wednesday@,
            thursday: self.thursday@,
            friday: self.friday@,
            saturday: self.saturday@,
            sunday: self.sunday@,
        }
    }

    open spec fn spec_decode(j: JsonSpec) -> Option<ScheduleV> {
        spec_decode_schedule(j)
    }

    #[verifier::rlimit(30)]
    fn decode_json(v: &serde_json::Value) -> (r: Result<Schedule, DecodeError>) {
        let monday = f_text(v, "Monday")?;
        let tuesday = f_text(v, "Tuesday")?;
        let wednesday = f_text(v, "Wednesday")?;
        let thursday = f_text(v, "Thursday")?;
        let friday = f_text(v, "Friday")?;
        let saturday = f_text(v, "Saturday")?;
        let sunday = f_text(v, "Sunday")?;
        Ok(Schedule { monday, tuesday, wednesday, thursday, friday, saturday, sunday })
    }
}

/// Accumulates the parameters of a warehouse listing; every slot is
/// optional, so any configuration is finalizable.
#[derive(Debug, Clone)]
pub struct GetWarehousesBuilder {
    pub city_name: Option<String>,
    pub city_ref: Option<CityID>,
    pub bicycle_parking: Option<u16>,
    pub warehouse_id: Option<UuidText>,
    pub page: Option<u16>,
    pub type_of_warehouse_ref: Option<UuidText>,
    pub limit: Option<u16>,
}

/// The configuration every warehouse listing starts from: nothing set.
pub open spec fn warehouses_initial() -> GetWarehousesBuilder {
    GetWarehousesBuilder {
        city_name: None,
        city_ref: None,
        bicycle_parking: None,
        warehouse_id: None,
        page: None,
        type_of_warehouse_ref: None,
        limit: None,
    }
}

/// The parameter object: the set fields, in wire order.
pub open spec fn spec_warehouses_props(b: GetWarehousesBuilder) -> Seq<char> {
    json_object(
        opt_piece(
            "CityName"@,
            match b.city_name {
                Some(s) => Some(json_quoted(s@)),
                None => None,
            },
        ) + opt_piece(
            "CityRef"@,
            match b.city_ref {
                Some(id) => Some(json_quoted(id@)),
                None => None,
            },
        ) + opt_piece(
            "BicycleParking"@,
            match b.bicycle_parking {
                Some(n) => Some(render_dec(n as nat)),
                None => None,
            },
        ) + opt_piece(
            "WarehouseId"@,
            match b.warehouse_id {
                Some(id) => Some(json_quoted(id@)),
                None => None,
            },
        ) + opt_piece(
            "Page"@,
            match b.page {
                Some(n) => Some(render_dec(n as nat)),
                None => None,
            },
        ) + opt_piece(
            "TypeOfWarehouseRef"@,
            match b.type_of_warehouse_ref {
                Some(id) => Some(json_quoted(id@)),
                None => None,
            },
        ) + opt_piece(
            "Limit"@,
            match b.limit {
                Some(n) => Some(render_dec(n as nat)),
                None => None,
            },
        ),
    )
}

impl GetWarehousesBuilder {
    pub open spec fn initial() -> GetWarehousesBuilder {
        warehouses_initial()
    }

    pub fn new() -> (r: GetWarehousesBuilder)
        ensures
            r == warehouses_initial(),
    {
        GetWarehousesBuilder {
            city_name: None,
            city_ref: None,
            bicycle_parking: None,
            warehouse_id: None,
            page: None,
            type_of_warehouse_ref: None,
            limit: None,
        }
    }

    /// Sets the page, leaving every other slot unchanged.
    pub fn page(self, page: u16) -> (r: GetWarehousesBuilder)
        ensures
            r == (GetWarehousesBuilder { page: Some(page), ..self }),
    {
        GetWarehousesBuilder { page: Some(page), ..self }
    }

    /// Sets the page size, leaving every other slot unchanged.
    pub fn limit(self, limit: u16) -> (r: GetWarehousesBuilder)
        ensures
            r == (GetWarehousesBuilder { limit: Some(limit), ..self }),
    {
        GetWarehousesBuilder { limit: Some(limit), ..self }
    }

    /// Sets the warehouse identifier, leaving every other slot unchanged.
    pub fn warehouse_id(self, warehouse_id: UuidText) -> (r: GetWarehousesBuilder)
        ensures
            r == (GetWarehousesBuilder { warehouse_id: Some(warehouse_id), ..self }),
    {
        GetWarehousesBuilder { warehouse_id: Some(warehouse_id), ..self }
    }

    /// Sets the city name, leaving every other slot unchanged.
    pub fn city_name(self, name: String) -> (r: GetWarehousesBuilder)
        ensures
            r == (GetWarehousesBuilder { city_name: Some(name), ..self }),
    {
        GetWarehousesBuilder { city_name: Some(name), ..self }
    }

    /// Sets the city reference, leaving every other slot unchanged.
    pub fn city_ref(self, c_ref: CityID) -> (r: GetWarehousesBuilder)
        ensures
            r == (GetWarehousesBuilder { city_ref: Some(c_ref), ..self }),
    {
        GetWarehousesBuilder { city_ref: Some(c_ref), ..self }
    }

    /// Sets the warehouse-type reference, leaving every other slot
    /// unchanged.
    pub fn type_of_warehouse_ref(self, w_ref: UuidText) -> (r: GetWarehousesBuilder)
        ensures
            r == (GetWarehousesBuilder { type_of_warehouse_ref: Some(w_ref), ..self }),
    {
        GetWarehousesBuilder { type_of_warehouse_ref: Some(w_ref), ..self }
    }

    /// Asks for warehouses with bicycle parking, leaving every other slot
    /// unchanged.
    pub fn bicycle_parking(self, bicycle_parking: u16) -> (r: GetWarehousesBuilder)
        ensures
            r == (GetWarehousesBuilder { bicycle_parking: Some(bicycle_parking), ..self }),
    {
        GetWarehousesBuilder { bicycle_parking: Some(bicycle_parking), ..self }
    }

    /// Renders the parameter object.
    #[verifier::rlimit(60)]
    pub fn properties(&self) -> (r: String)
        ensures
            r@ == spec_warehouses_props(*self),
    {
        let mut w = ObjWriter::new();
        if let Some(x) = &self.city_name {
            w.field_quoted("CityName", x.as_str());
        }
        if let Some(x) = &self.city_ref {
            w.field_quoted("CityRef", x.as_str());
        }
        if let Some(x) = &self.bicycle_parking {
            let t = render_u16(*x);
            w.field_raw("BicycleParking", t.as_str());
        }
        if let Some(x) = &self.warehouse_id {
            w.field_quoted("WarehouseId", x.as_str());
        }
        if let Some(x) = &self.page {
            let t = render_u16(*x);
            w.field_raw("Page", t.as_str());
        }
        if let Some(x) = &self.type_of_warehouse_ref {
            w.field_quoted("TypeOfWarehouseRef", x.as_str());
        }
        if let Some(x) = &self.limit {
            let t = render_u16(*x);
            w.field_raw("Limit", t.as_str());
        }
        proof {
            assert(w.pieces() =~= opt_piece(
                "CityName"@,
                match self.city_name {
                    Some(s) => Some(json_quoted(s@)),
                    None => None,
                },
            ) + opt_piece(
                "CityRef"@,
                match self.city_ref {
                    Some(id) => Some(json_quoted(id@)),
                    None => None,
                },
            ) + opt_piece(
                "BicycleParking"@,
                match self.bicycle_parking {
                    Some(n) => Some(render_dec(n as nat)),
                    None => None,
                },
            ) + opt_piece(
                "WarehouseId"@,
                match self.warehouse_id {
                    Some(id) => Some(json_quoted(id@)),
                    None => None,
                },
            ) + opt_piece(
                "Page"@,
                match self.page {
                    Some(n) => Some(render_dec(n as nat)),
                    None => None,
                },
            ) + opt_piece(
                "TypeOfWarehouseRef"@,
                match self.type_of_warehouse_ref {
                    Some(id) => Some(json_quoted(id@)),
                    None => None,
                },
            ) + opt_piece(
                "Limit"@,
                match self.limit {
                    Some(n) => Some(render_dec(n as nat)),
                    None => None,
                },
            ));
        }
        w.finish()
    }

    /// Finalizes into a wire request under the given key.
    pub fn request(&self, api_key: String) -> (r: NPRequest)
        ensures
            r.api_key@ == api_key@,
            r.model_name@ == "Address"@,
            r.called_method@ == "getWarehouses"@,
            r.method_properties@ == spec_warehouses_props(*self),
    {
        NPRequest {
            api_key,
            model_name: String::from_str("Address"),
            called_method: String::from_str("getWarehouses"),
            method_properties: self.properties(),
        }
    }
}


/// Ghost value of a decoded warehouse record.
pub struct WarehouseV {
    pub site_key: u16,
    pub description: Seq<char>,
    pub description_ru: Seq<char>,
    pub short_address: Seq<char>,
    pub short_address_ru: Seq<char>,
    pub phone: Seq<char>,
    pub type_of_warehouse: Seq<char>,
    pub ref_id: Seq<char>,
    pub number: u16,
    pub city_ref: Seq<char>,
    pub city_description: Seq<char>,
    pub city_description_ru: Seq<char>,
    pub settlement_ref: Seq<char>,
    pub settlement_description: Seq<char>,
    pub settlement_area_description: Seq<char>,
    pub settlement_regions_description: Seq<char>,
    pub settlement_type_description: Seq<char>,
    pub settlement_type_description_ru: Seq<char>,
    pub coordinates: CoordinatesV,
    pub post_finance: bool,
    pub bicycle_parking: bool,
    pub payment_access: bool,
    pub pos_terminal: bool,
    pub international_shipping: bool,
    pub self_service_workplaces_count: bool,
    pub total_max_weight_allowed: u16,
    pub place_max_weight_allowed: u16,
    pub sending_limitations_on_dimensions: DimensionsV,
    pub receiving_limitations_on_dimensions: DimensionsV,
    pub reception: ScheduleV,
    pub delivery: ScheduleV,
    pub schedule: ScheduleV,
    pub district_code: Seq<char>,
    pub warehouse_status: Seq<char>,
    pub warehouse_status_date: Option<CanonicalDateTime>,
    pub category_of_warehouse: Seq<char>,
    pub direct: Option<Seq<char>>,
    pub region_city: Seq<char>,
    pub warehouse_for_agent: bool,
    pub generator_enabled: bool,
    pub max_declared_cost: Seq<char>,
    pub work_in_mobile_awis: bool,
    pub deny_to_select: bool,
    pub can_get_money_transfer: bool,
    pub has_mirror: bool,
    pub has_fitting_room: bool,
    pub only_receiving_parcel: bool,
    pub post_machine_type: Option<Seq<char>>,
    pub postal_code_ua: Seq<char>,
    pub warehouse_index: Seq<char>,
    pub beacon_code: Option<Seq<char>>,
}

/// One warehouse record, its wire quirks normalized: numeric fields
/// arrive as decimal strings, capability flags under the boolean string
/// rule, the status date under the ordered date patterns, and the
/// coordinates flattened into the record under either their long names or
/// their short aliases.
#[derive(Debug, Clone)]
pub struct Warehouse {
    pub site_key: u16,
    pub description: String,
    pub description_ru: String,
    pub short_address: String,
    pub short_address_ru: String,
    pub phone: String,
    pub type_of_warehouse: UuidText,
    pub ref_id: UuidText,
    pub number: u16,
    pub city_ref: UuidText,
    pub city_description: String,
    pub city_description_ru: String,
    pub settlement_ref: UuidText,
    pub settlement_description: String,
    pub settlement_area_description: String,
    pub settlement_regions_description: String,
    pub settlement_type_description: String,
    pub settlement_type_description_ru: String,
    pub coordinates: Coordinates,
    pub post_finance: bool,
    pub bicycle_parking: bool,
    pub payment_access: bool,
    pub pos_terminal: bool,
    pub international_shipping: bool,
    pub self_service_workplaces_count: bool,
    pub total_max_weight_allowed: u16,
    pub place_max_weight_allowed: u16,
    pub sending_limitations_on_dimensions: Dimensions,
    pub receiving_limitations_on_dimensions: Dimensions,
    pub reception: Schedule,
    pub delivery: Schedule,
    pub schedule: Schedule,
    pub district_code: String,
    pub warehouse_status: String,
    pub warehouse_status_date: Option<CanonicalDateTime>,
    pub category_of_warehouse: String,
    pub direct: Option<String>,
    pub region_city: String,
    pub warehouse_for_agent: bool,
    pub generator_enabled: bool,
    pub max_declared_cost: NumText,
    pub work_in_mobile_awis: bool,
    pub deny_to_select: bool,
    pub can_get_money_transfer: bool,
    pub has_mirror: bool,
    pub has_fitting_room: bool,
    pub only_receiving_parcel: bool,
    pub post_machine_type: Option<String>,
    pub postal_code_ua: String,
    pub warehouse_index: String,
    pub beacon_code: Option<String>,
}

/// What decoding a warehouse record demands of each field.
pub open spec fn spec_decode_warehouse(j: JsonSpec) -> Option<WarehouseV> {
    if {
        &&& spec_wh_identity_ok(j)
        &&& spec_wh_capabilities_ok(j)
        &&& spec_wh_status_ok(j)
    } {
        Some(
            WarehouseV {
                site_key: spec_f_u16_str(j, "SiteKey"@)->Some_0,
                description: spec_f_text(j, "Description"@)->Some_0,
                description_ru: spec_f_text(j, "DescriptionRu"@)->Some_0,
                short_address: spec_f_text(j, "ShortAddress"@)->Some_0,
                short_address_ru: spec_f_text(j, "ShortAddressRu"@)->Some_0,
                phone: spec_f_text(j, "Phone"@)->Some_0,
                type_of_warehouse: spec_f_uuid(j, "TypeOfWarehouse"@)->Some_0,
                ref_id: spec_f_uuid(j, "Ref"@)->Some_0,
                number: spec_f_u16_str(j, "Number"@)->Some_0,
                city_ref: spec_f_uuid(j, "CityRef"@)->Some_0,
                city_description: spec_f_text(j, "CityDescription"@)->Some_0,
                city_description_ru: spec_f_text(j, "CityDescriptionRu"@)->Some_0,
                settlement_ref: spec_f_uuid(j, "SettlementRef"@)->Some_0,
                settlement_description: spec_f_text(j, "SettlementDescription"@)->Some_0,
                settlement_area_description: spec_f_text(j, "SettlementAreaDescription"@)->Some_0,
                settlement_regions_description: spec_f_text(j, "SettlementRegionsDescription"@)->Some_0,
                settlement_type_description: spec_f_text(j, "SettlementTypeDescription"@)->Some_0,
                settlement_type_description_ru: spec_f_text(j, "SettlementTypeDescriptionRu"@)->Some_0,
                coordinates: spec_decode_coordinates(j)->Some_0,
                post_finance: spec_f_bool01(j, "PostFinance"@)->Some_0,
                bicycle_parking: spec_f_bool01(j, "BicycleParking"@)->Some_0,
                payment_access: spec_f_bool01(j, "PaymentAccess"@)->Some_0,
                pos_terminal: spec_f_bool01(j, "POSTerminal"@)->Some_0,
                international_shipping: spec_f_bool01(j, "InternationalShipping"@)->Some_0,
                self_service_workplaces_count: spec_f_bool01(j, "SelfServiceWorkplacesCount"@)->Some_0,
                total_max_weight_allowed: spec_f_u16_str(j, "TotalMaxWeightAllowed"@)->Some_0,
                place_max_weight_allowed: spec_f_u16_str(j, "PlaceMaxWeightAllowed"@)->Some_0,
                sending_limitations_on_dimensions: spec_decode_dimensions(obj_field(j, "SendingLimitationsOnDimensions"@)->Some_0)->Some_0,
                receiving_limitations_on_dimensions: spec_decode_dimensions(obj_field(j, "ReceivingLimitationsOnDimensions"@)->Some_0)->Some_0,
                reception: spec_decode_schedule(obj_field(j, "Reception"@)->Some_0)->Some_0,
                delivery: spec_decode_schedule(obj_field(j, "Delivery"@)->Some_0)->Some_0,
                schedule: spec_decode_schedule(obj_field(j, "Schedule"@)->Some_0)->Some_0,
                district_code: spec_f_text(j, "DistrictCode"@)->Some_0,
                warehouse_status: spec_f_text(j, "WarehouseStatus"@)->Some_0,
                warehouse_status_date: spec_f_opt_date(j, "WarehouseStatusDate"@)->Some_0,
                category_of_warehouse: spec_f_text(j, "CategoryOfWarehouse"@)->Some_0,
                direct: spec_f_opt_text(j, "Direct"@)->Some_0,
                region_city: spec_f_text(j, "RegionCity"@)->Some_0,
                warehouse_for_agent: spec_f_bool01(j, "WarehouseForAgent"@)->Some_0,
                generator_enabled: spec_f_bool01(j, "GeneratorEnabled"@)->Some_0,
                max_declared_cost: spec_f_num_str(j, "MaxDeclaredCost"@)->Some_0,
                work_in_mobile_awis: spec_f_bool01(j, "WorkInMobileAwis"@)->Some_0,
                deny_to_select: spec_f_bool01(j, "DenyToSelect"@)->Some_0,
                can_get_money_transfer: spec_f_bool01(j, "CanGetMoneyTransfer"@)->Some_0,
                has_mirror: spec_f_bool01(j, "HasMirror"@)->Some_0,
                has_fitting_room: spec_f_bool01(j, "HasFittingRoom"@)->Some_0,
                only_receiving_parcel: spec_f_bool01(j, "OnlyReceivingParcel"@)->Some_0,
                post_machine_type: spec_f_opt_text(j, "PostMachineType"@)->Some_0,
                postal_code_ua: spec_f_text(j, "PostalCodeUA"@)->Some_0,
                warehouse_index: spec_f_text(j, "WarehouseIndex"@)->Some_0,
                beacon_code: spec_f_opt_text(j, "BeaconCode"@)->Some_0,
            },
        )
    } else {
        None
    }
}

/// One slice of a warehouse record, decoded as a unit.
struct WhIdentity {
    site_key: u16,
    description: String,
    description_ru: String,
    short_address: String,
    short_address_ru: String,
    phone: String,
    type_of_warehouse: UuidText,
    ref_id: UuidText,
    number: u16,
    city_ref: UuidText,
    city_description: String,
    city_description_ru: String,
    settlement_ref: UuidText,
    settlement_description: String,
    settlement_area_description: String,
    settlement_regions_description: String,
    settlement_type_description: String,
    settlement_type_description_ru: String,
    coordinates: Coordinates,
}

/// Every field of this slice decodes.
pub open spec fn spec_wh_identity_ok(j: JsonSpec) -> bool {
    &&& spec_f_u16_str(j, "SiteKey"@) is Some
    &&& spec_f_text(j, "Description"@) is Some
    &&& spec_f_text(j, "DescriptionRu"@) is Some
    &&& spec_f_text(j, "ShortAddress"@) is Some
    &&& spec_f_text(j, "ShortAddressRu"@) is Some
    &&& spec_f_text(j, "Phone"@) is Some
    &&& spec_f_uuid(j, "TypeOfWarehouse"@) is Some
    &&& spec_f_uuid(j, "Ref"@) is Some
    &&& spec_f_u16_str(j, "Number"@) is Some
    &&& spec_f_uuid(j, "CityRef"@) is Some
    &&& spec_f_text(j, "CityDescription"@) is Some
    &&& spec_f_text(j, "CityDescriptionRu"@) is Some
    &&& spec_f_uuid(j, "SettlementRef"@) is Some
    &&& spec_f_text(j, "SettlementDescription"@) is Some
    &&& spec_f_text(j, "SettlementAreaDescription"@) is Some
    &&& spec_f_text(j, "SettlementRegionsDescription"@) is Some
    &&& spec_f_text(j, "SettlementTypeDescription"@) is Some
    &&& spec_f_text(j, "SettlementTypeDescriptionRu"@) is Some
    &&& spec_decode_coordinates(j) is Some
}

#[verifier::rlimit(100)]
fn decode_wh_identity(v: &serde_json::Value) -> (r: Result<WhIdentity, DecodeError>)
    ensures
        r matches Ok(p) ==> spec_wh_identity_ok(jv(*v)) && {
            &&& p.site_key == spec_f_u16_str(jv(*v), "SiteKey"@)->Some_0
            &&& p.description@ == spec_f_text(jv(*v), "Description"@)->Some_0
            &&& p.description_ru@ == spec_f_text(jv(*v), "DescriptionRu"@)->Some_0
            &&& p.short_address@ == spec_f_text(jv(*v), "ShortAddress"@)->Some_0
            &&& p.short_address_ru@ == spec_f_text(jv(*v), "ShortAddressRu"@)->Some_0
            &&& p.phone@ == spec_f_text(jv(*v), "Phone"@)->Some_0
            &&& p.type_of_warehouse@ == spec_f_uuid(jv(*v), "TypeOfWarehouse"@)->Some_0
            &&& p.ref_id@ == spec_f_uuid(jv(*v), "Ref"@)->Some_0
            &&& p.number == spec_f_u16_str(jv(*v), "Number"@)->Some_0
            &&& p.city_ref@ == spec_f_uuid(jv(*v), "CityRef"@)->Some_0
            &&& p.city_description@ == spec_f_text(jv(*v), "CityDescription"@)->Some_0
            &&& p.city_description_ru@ == spec_f_text(jv(*v), "CityDescriptionRu"@)->Some_0
            &&& p.settlement_ref@ == spec_f_uuid(jv(*v), "SettlementRef"@)->Some_0
            &&& p.settlement_description@ == spec_f_text(jv(*v), "SettlementDescription"@)->Some_0
            &&& p.settlement_area_description@ == spec_f_text(jv(*v), "SettlementAreaDescription"@)->Some_0
            &&& p.settlement_regions_description@ == spec_f_text(jv(*v), "SettlementRegionsDescription"@)->Some_0
            &&& p.settlement_type_description@ == spec_f_text(jv(*v), "SettlementTypeDescription"@)->Some_0
            &&& p.settlement_type_description_ru@ == spec_f_text(jv(*v), "SettlementTypeDescriptionRu"@)->Some_0
            &&& p.coordinates.sview() == spec_decode_coordinates(jv(*v))->Some_0
        },
        r is Err <==> !spec_wh_identity_ok(jv(*v)),
{
    let site_key = f_u16_str(v, "SiteKey")?;
    let description = f_text(v, "Description")?;
    let description_ru = f_text(v, "DescriptionRu")?;
    let short_address = f_text(v, "ShortAddress")?;
    let short_address_ru = f_text(v, "ShortAddressRu")?;
    let phone = f_text(v, "Phone")?;
    let type_of_warehouse = f_uuid(v, "TypeOfWarehouse")?;
    let ref_id = f_uuid(v, "Ref")?;
    let number = f_u16_str(v, "Number")?;
    let city_ref = f_uuid(v, "CityRef")?;
    let city_description = f_text(v, "CityDescription")?;
    let city_description_ru = f_text(v, "CityDescriptionRu")?;
    let settlement_ref = f_uuid(v, "SettlementRef")?;
    let settlement_description = f_text(v, "SettlementDescription")?;
    let settlement_area_description = f_text(v, "SettlementAreaDescription")?;
    let settlement_regions_description = f_text(v, "SettlementRegionsDescription")?;
    let settlement_type_description = f_text(v, "SettlementTypeDescription")?;
    let settlement_type_description_ru = f_text(v, "SettlementTypeDescriptionRu")?;
    let coordinates = Coordinates::decode_json(v)?;
    Ok(
    WhIdentity {
        site_key,
        description,
        description_ru,
        short_address,
        short_address_ru,
        phone,
        type_of_warehouse,
        ref_id,
        number,
        city_ref,
        city_description,
        city_description_ru,
        settlement_ref,
        settlement_description,
        settlement_area_description,
        settlement_regions_description,
        settlement_type_description,
        settlement_type_description_ru,
        coordinates,
    },
    )
}

/// One slice of a warehouse record, decoded as a unit.
struct WhCapabilities {
    post_finance: bool,
    bicycle_parking: bool,
    payment_access: bool,
    pos_terminal: bool,
    international_shipping: bool,
    self_service_workplaces_count: bool,
    total_max_weight_allowed: u16,
    place_max_weight_allowed: u16,
    sending_limitations_on_dimensions: Dimensions,
    receiving_limitations_on_dimensions: Dimensions,
    reception: Schedule,
    delivery: Schedule,
    schedule: Schedule,
}

/// Every field of this slice decodes.
pub open spec fn spec_wh_capabilities_ok(j: JsonSpec) -> bool {
    &&& spec_f_bool01(j, "PostFinance"@) is Some
    &&& spec_f_bool01(j, "BicycleParking"@) is Some
    &&& spec_f_bool01(j, "PaymentAccess"@) is Some
    &&& spec_f_bool01(j, "POSTerminal"@) is Some
    &&& spec_f_bool01(j, "InternationalShipping"@) is Some
    &&& spec_f_bool01(j, "SelfServiceWorkplacesCount"@) is Some
    &&& spec_f_u16_str(j, "TotalMaxWeightAllowed"@) is Some
    &&& spec_f_u16_str(j, "PlaceMaxWeightAllowed"@) is Some
    &&& (match obj_field(j, "SendingLimitationsOnDimensions"@) { Some(u) => spec_decode_dimensions(u) is Some, None => false })
    &&& (match obj_field(j, "ReceivingLimitationsOnDimensions"@) { Some(u) => spec_decode_dimensions(u) is Some, None => false })
    &&& (match obj_field(j, "Reception"@) { Some(u) => spec_decode_schedule(u) is Some, None => false })
    &&& (match obj_field(j, "Delivery"@) { Some(u) => spec_decode_schedule(u) is Some, None => false })
    &&& (match obj_field(j, "Schedule"@) { Some(u) => spec_decode_schedule(u) is Some, None => false })
}

#[verifier::rlimit(100)]
fn decode_wh_capabilities(v: &serde_json::Value) -> (r: Result<WhCapabilities, DecodeError>)
    ensures
        r matches Ok(p) ==> spec_wh_capabilities_ok(jv(*v)) && {
            &&& p.post_finance == spec_f_bool01(jv(*v), "PostFinance"@)->Some_0
            &&& p.bicycle_parking == spec_f_bool01(jv(*v), "BicycleParking"@)->Some_0
            &&& p.payment_access == spec_f_bool01(jv(*v), "PaymentAccess"@)->Some_0
            &&& p.pos_terminal == spec_f_bool01(jv(*v), "POSTerminal"@)->Some_0
            &&& p.international_shipping == spec_f_bool01(jv(*v), "InternationalShipping"@)->Some_0
            &&& p.self_service_workplaces_count == spec_f_bool01(jv(*v), "SelfServiceWorkplacesCount"@)->Some_0
            &&& p.total_max_weight_allowed == spec_f_u16_str(jv(*v), "TotalMaxWeightAllowed"@)->Some_0
            &&& p.place_max_weight_allowed == spec_f_u16_str(jv(*v), "PlaceMaxWeightAllowed"@)->Some_0
            &&& p.sending_limitations_on_dimensions.sview() == spec_decode_dimensions(obj_field(jv(*v), "SendingLimitationsOnDimensions"@)->Some_0)->Some_0
            &&& p.receiving_limitations_on_dimensions.sview() == spec_decode_dimensions(obj_field(jv(*v), "ReceivingLimitationsOnDimensions"@)->Some_0)->Some_0
            &&& p.reception.sview() == spec_decode_schedule(obj_field(jv(*v), "Reception"@)->Some_0)->Some_0
            &&& p.delivery.sview() == spec_decode_schedule(obj_field(jv(*v), "Delivery"@)->Some_0)->Some_0
            &&& p.schedule.sview() == spec_decode_schedule(obj_field(jv(*v), "Schedule"@)->Some_0)->Some_0
        },
        r is Err <==> !spec_wh_capabilities_ok(jv(*v)),
{
    let post_finance = f_bool01(v, "PostFinance")?;
    let bicycle_parking = f_bool01(v, "BicycleParking")?;
    let payment_access = f_bool01(v, "PaymentAccess")?;
    let pos_terminal = f_bool01(v, "POSTerminal")?;
    let international_shipping = f_bool01(v, "InternationalShipping")?;
    let self_service_workplaces_count = f_bool01(v, "SelfServiceWorkplacesCount")?;
    let total_max_weight_allowed = f_u16_str(v, "TotalMaxWeightAllowed")?;
    let place_max_weight_allowed = f_u16_str(v, "PlaceMaxWeightAllowed")?;
    let sending_limitations_on_dimensions = match fetch(v, "SendingLimitationsOnDimensions") {
        Ok(u) => Dimensions::decode_json(u)?,
        Err(e) => {
            return Err(e);
        },
    };
    let receiving_limitations_on_dimensions = match fetch(v, "ReceivingLimitationsOnDimensions") {
        Ok(u) => Dimensions::decode_json(u)?,
        Err(e) => {
            return Err(e);
        },
    };
    let reception = match fetch(v, "Reception") {
        Ok(u) => Schedule::decode_json(u)?,
        Err(e) => {
            return Err(e);
        },
    };
    let delivery = match fetch(v, "Delivery") {
        Ok(u) => Schedule::decode_json(u)?,
        Err(e) => {
            return Err(e);
        },
    };
    let schedule = match fetch(v, "Schedule") {
        Ok(u) => Schedule::decode_json(u)?,
        Err(e) => {
            return Err(e);
        },
    };
    Ok(
    WhCapabilities {
        post_finance,
        bicycle_parking,
        payment_access,
        pos_terminal,
        international_shipping,
        self_service_workplaces_count,
        total_max_weight_allowed,
        place_max_weight_allowed,
        sending_limitations_on_dimensions,
        receiving_limitations_on_dimensions,
        reception,
        delivery,
        schedule,
    },
    )
}

/// One slice of a warehouse record, decoded as a unit.
struct WhStatus {
    district_code: String,
    warehouse_status: String,
    warehouse_status_date: Option<CanonicalDateTime>,
    category_of_warehouse: String,
    direct: Option<String>,
    region_city: String,
    warehouse_for_agent: bool,
    generator_enabled: bool,
    max_declared_cost: NumText,
    work_in_mobile_awis: bool,
    deny_to_select: bool,
    can_get_money_transfer: bool,
    has_mirror: bool,
    has_fitting_room: bool,
    only_receiving_parcel: bool,
    post_machine_type: Option<String>,
    postal_code_ua: String,
    warehouse_index: String,
    beacon_code: Option<String>,
}

/// Every field of this slice decodes.
pub open spec fn spec_wh_status_ok(j: JsonSpec) -> bool {
    &&& spec_f_text(j, "DistrictCode"@) is Some
    &&& spec_f_text(j, "WarehouseStatus"@) is Some
    &&& spec_f_opt_date(j, "WarehouseStatusDate"@) is Some
    &&& spec_f_text(j, "CategoryOfWarehouse"@) is Some
    &&& spec_f_opt_text(j, "Direct"@) is Some
    &&& spec_f_text(j, "RegionCity"@) is Some
    &&& spec_f_bool01(j, "WarehouseForAgent"@) is Some
    &&& spec_f_bool01(j, "GeneratorEnabled"@) is Some
    &&& spec_f_num_str(j, "MaxDeclaredCost"@) is Some
    &&& spec_f_bool01(j, "WorkInMobileAwis"@) is Some
    &&& spec_f_bool01(j, "DenyToSelect"@) is Some
    &&& spec_f_bool01(j, "CanGetMoneyTransfer"@) is Some
    &&& spec_f_bool01(j, "HasMirror"@) is Some
    &&& spec_f_bool01(j, "HasFittingRoom"@) is Some
    &&& spec_f_bool01(j, "OnlyReceivingParcel"@) is Some
    &&& spec_f_opt_text(j, "PostMachineType"@) is Some
    &&& spec_f_text(j, "PostalCodeUA"@) is Some
    &&& spec_f_text(j, "WarehouseIndex"@) is Some
    &&& spec_f_opt_text(j, "BeaconCode"@) is Some
}

#[verifier::rlimit(100)]
fn decode_wh_status(v: &serde_json::Value) -> (r: Result<WhStatus, DecodeError>)
    ensures
        r matches Ok(p) ==> spec_wh_status_ok(jv(*v)) && {
            &&& p.district_code@ == spec_f_text(jv(*v), "DistrictCode"@)->Some_0
            &&& p.warehouse_status@ == spec_f_text(jv(*v), "WarehouseStatus"@)->Some_0
            &&& p.warehouse_status_date == spec_f_opt_date(jv(*v), "WarehouseStatusDate"@)->Some_0
            &&& p.category_of_warehouse@ == spec_f_text(jv(*v), "CategoryOfWarehouse"@)->Some_0
            &&& opt_text_view(p.direct) == spec_f_opt_text(jv(*v), "Direct"@)->Some_0
            &&& p.region_city@ == spec_f_text(jv(*v), "RegionCity"@)->Some_0
            &&& p.warehouse_for_agent == spec_f_bool01(jv(*v), "WarehouseForAgent"@)->Some_0
            &&& p.generator_enabled == spec_f_bool01(jv(*v), "GeneratorEnabled"@)->Some_0
            &&& p.max_declared_cost@ == spec_f_num_str(jv(*v), "MaxDeclaredCost"@)->Some_0
            &&& p.work_in_mobile_awis == spec_f_bool01(jv(*v), "WorkInMobileAwis"@)->Some_0
            &&& p.deny_to_select == spec_f_bool01(jv(*v), "DenyToSelect"@)->Some_0
            &&& p.can_get_money_transfer == spec_f_bool01(jv(*v), "CanGetMoneyTransfer"@)->Some_0
            &&& p.has_mirror == spec_f_bool01(jv(*v), "HasMirror"@)->Some_0
            &&& p.has_fitting_room == spec_f_bool01(jv(*v), "HasFittingRoom"@)->Some_0
            &&& p.only_receiving_parcel == spec_f_bool01(jv(*v), "OnlyReceivingParcel"@)->Some_0
            &&& opt_text_view(p.post_machine_type) == spec_f_opt_text(jv(*v), "PostMachineType"@)->Some_0
            &&& p.postal_code_ua@ == spec_f_text(jv(*v), "PostalCodeUA"@)->Some_0
            &&& p.warehouse_index@ == spec_f_text(jv(*v), "WarehouseIndex"@)->Some_0
            &&& opt_text_view(p.beacon_code) == spec_f_opt_text(jv(*v), "BeaconCode"@)->Some_0
        },
        r is Err <==> !spec_wh_status_ok(jv(*v)),
{
    let district_code = f_text(v, "DistrictCode")?;
    let warehouse_status = f_text(v, "WarehouseStatus")?;
    let warehouse_status_date = f_opt_date(v, "WarehouseStatusDate")?;
    let category_of_warehouse = f_text(v, "CategoryOfWarehouse")?;
    let direct = f_opt_text(v, "Direct")?;
    let region_city = f_text(v, "RegionCity")?;
    let warehouse_for_agent = f_bool01(v, "WarehouseForAgent")?;
    let generator_enabled = f_bool01(v, "GeneratorEnabled")?;
    let max_declared_cost = f_num_str(v, "MaxDeclaredCost")?;
    let work_in_mobile_awis = f_bool01(v, "WorkInMobileAwis")?;
    let deny_to_select = f_bool01(v, "DenyToSelect")?;
    let can_get_money_transfer = f_bool01(v, "CanGetMoneyTransfer")?;
    let has_mirror = f_bool01(v, "HasMirror")?;
    let has_fitting_room = f_bool01(v, "HasFittingRoom")?;
    let only_receiving_parcel = f_bool01(v, "OnlyReceivingParcel")?;
    let post_machine_type = f_opt_text(v, "PostMachineType")?;
    let postal_code_ua = f_text(v, "PostalCodeUA")?;
    let warehouse_index = f_text(v, "WarehouseIndex")?;
    let beacon_code = f_opt_text(v, "BeaconCode")?;
    Ok(
    WhStatus {
        district_code,
        warehouse_status,
        warehouse_status_date,
        category_of_warehouse,
        direct,
        region_city,
        warehouse_for_agent,
        generator_enabled,
        max_declared_cost,
        work_in_mobile_awis,
        deny_to_select,
        can_get_money_transfer,
        has_mirror,
        has_fitting_room,
        only_receiving_parcel,
        post_machine_type,
        postal_code_ua,
        warehouse_index,
        beacon_code,
    },
    )
}

impl JsonDecode for Warehouse {
    type SV = WarehouseV;

    open spec fn sview(&self) -> WarehouseV {
        WarehouseV {
            site_key: self.site_key,
            description: self.description@,
            description_ru: self.description_ru@,
            short_address: self.short_address@,
            short_address_ru: self.short_address_ru@,
            phone: self.phone@,
            type_of_warehouse: self.type_of_warehouse@,
            ref_id: self.ref_id@,
            number: self.number,
            city_ref: self.city_ref@,
            city_description: self.city_description@,
            city_description_ru: self.city_description_ru@,
            settlement_ref: self.settlement_ref@,
            settlement_description: self.settlement_description@,
            settlement_area_description: self.settlement_area_description@,
            settlement_regions_description: self.settlement_regions_description@,
            settlement_type_description: self.settlement_type_description@,
            settlement_type_description_ru: self.settlement_type_description_ru@,
            coordinates: self.coordinates.sview(),
            post_finance: self.post_finance,
            bicycle_parking: self.bicycle_parking,
            payment_access: self.payment_access,
            pos_terminal: self.pos_terminal,
            international_shipping: self.international_shipping,
            self_service_workplaces_count: self.self_service_workplaces_count,
            total_max_weight_allowed: self.total_max_weight_allowed,
            place_max_weight_allowed: self.place_max_weight_allowed,
            sending_limitations_on_dimensions: self.sending_limitations_on_dimensions.sview(),
            receiving_limitations_on_dimensions: self.receiving_limitations_on_dimensions.sview(),
            reception: self.reception.sview(),
            delivery: self.delivery.sview(),
            schedule: self.schedule.sview(),
            district_code: self.district_code@,
            warehouse_status: self.warehouse_status@,
            warehouse_status_date: self.warehouse_status_date,
            category_of_warehouse: self.category_of_warehouse@,
            direct: opt_text_view(self.direct),
            region_city: self.region_city@,
            warehouse_for_agent: self.warehouse_for_agent,
            generator_enabled: self.generator_enabled,
            max_declared_cost: self.max_declared_cost@,
            work_in_mobile_awis: self.work_in_mobile_awis,
            deny_to_select: self.deny_to_select,
            can_get_money_transfer: self.can_get_money_transfer,
            has_mirror: self.has_mirror,
            has_fitting_room: self.has_fitting_room,
            only_receiving_parcel: self.only_receiving_parcel,
            post_machine_type: opt_text_view(self.post_machine_type),
            postal_code_ua: self.postal_code_ua@,
            warehouse_index: self.warehouse_index@,
            beacon_code: opt_text_view(self.beacon_code),
        }
    }

    open spec fn spec_decode(j: JsonSpec) -> Option<WarehouseV> {
        spec_decode_warehouse(j)
    }

    #[verifier::rlimit(100)]
    fn decode_json(v: &serde_json::Value) -> (r: Result<Warehouse, DecodeError>) {
        let a = decode_wh_identity(v)?;
        let b = decode_wh_capabilities(v)?;
        let c = decode_wh_status(v)?;
        Ok(
            Warehouse {
                site_key: a.site_key,
                description: a.description,
                description_ru: a.description_ru,
                short_address: a.short_address,
                short_address_ru: a.short_address_ru,
                phone: a.phone,
                type_of_warehouse: a.type_of_warehouse,
                ref_id: a.ref_id,
                number: a.number,
                city_ref: a.city_ref,
                city_description: a.city_description,
                city_description_ru: a.city_description_ru,
                settlement_ref: a.settlement_ref,
                settlement_description: a.settlement_description,
                settlement_area_description: a.settlement_area_description,
                settlement_regions_description: a.settlement_regions_description,
                settlement_type_description: a.settlement_type_description,
                settlement_type_description_ru: a.settlement_type_description_ru,
                coordinates: a.coordinates,
                post_finance: b.post_finance,
                bicycle_parking: b.bicycle_parking,
                payment_access: b.payment_access,
                pos_terminal: b.pos_terminal,
                international_shipping: b.international_shipping,
                self_service_workplaces_count: b.self_service_workplaces_count,
                total_max_weight_allowed: b.total_max_weight_allowed,
                place_max_weight_allowed: b.place_max_weight_allowed,
                sending_limitations_on_dimensions: b.sending_limitations_on_dimensions,
                receiving_limitations_on_dimensions: b.receiving_limitations_on_dimensions,
                reception: b.reception,
                delivery: b.delivery,
                schedule: b.schedule,
                district_code: c.district_code,
                warehouse_status: c.warehouse_status,
                warehouse_status_date: c.warehouse_status_date,
                category_of_warehouse: c.category_of_warehouse,
                direct: c.direct,
                region_city: c.region_city,
                warehouse_for_agent: c.warehouse_for_agent,
                generator_enabled: c.generator_enabled,
                max_declared_cost: c.max_declared_cost,
                work_in_mobile_awis: c.work_in_mobile_awis,
                deny_to_select: c.deny_to_select,
                can_get_money_transfer: c.can_get_money_transfer,
                has_mirror: c.has_mirror,
                has_fitting_room: c.has_fitting_room,
                only_receiving_parcel: c.only_receiving_parcel,
                post_machine_type: c.post_machine_type,
                postal_code_ua: c.postal_code_ua,
                warehouse_index: c.warehouse_index,
                beacon_code: c.beacon_code,
            },
        )
    }
}

} // verus!
