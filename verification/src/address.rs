//! The address endpoint family: settlement search, city listing,
//! warehouse listing and street search.

pub mod cities;
pub mod settlements;
pub mod warehouses;

use vstd::prelude::*;

use self::cities::GetCitiesBuilder;
use self::settlements::{SearchSettlementsBuilder, SearchStreetsBuilder};
use self::warehouses::GetWarehousesBuilder;

verus! {

/// Entry point for the address endpoint family.
pub struct AddressHandler {
}

impl AddressHandler {
    pub fn new() -> AddressHandler {
        AddressHandler {  }
    }

    /// Starts a settlement search for the given name.
    pub fn search_settlements(&self, val: String) -> (r: SearchSettlementsBuilder)
        ensures
            r.city_name@ == val@,
            r.page is None,
            r.limit is None,
    {
        SearchSettlementsBuilder::new(val)
    }

    /// Starts a city listing.
    pub fn get_cities(&self) -> (r: GetCitiesBuilder)
        ensures
            r == GetCitiesBuilder::initial(),
    {
        GetCitiesBuilder::new()
    }

    /// Starts a warehouse listing.
    pub fn get_warehouses(&self) -> (r: GetWarehousesBuilder)
        ensures
            r == GetWarehousesBuilder::initial(),
    {
        GetWarehousesBuilder::new()
    }

    /// Starts a street search inside one settlement.
    pub fn search_streets(&self, street_name: String, settlement_ref: crate::helper_structs::UuidText) -> (r:
        SearchStreetsBuilder)
        ensures
            r.street_name@ == street_name@,
            r.settlement_ref@ == settlement_ref@,
            r.page is None,
            r.limit is None,
    {
        SearchStreetsBuilder::new(street_name, settlement_ref)
    }
}

} // verus!
