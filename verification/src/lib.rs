//! Client-side data layer for a parcel-delivery JSON API with an
//! inconsistent wire encoding: booleans arrive as the strings "0"/"1",
//! numbers as JSON numbers or decimal strings, absent optional values as
//! empty strings, and timestamps in several textual formats.
//!
//! The crate normalizes those wire values into canonical typed values and
//! assembles request bodies through builders that cannot be finalized
//! until every mandatory parameter is supplied.

pub mod address;
pub mod counterparty;
pub mod datetime;
pub mod en;
pub mod fields;
pub mod helper_structs;
pub mod internet_document;
pub mod json;
pub mod request;
pub mod res_template;
pub mod scalar;
pub mod text;
pub mod tracking;
pub mod typestate;
pub mod writer;

