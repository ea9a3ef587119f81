//! Metadata for the numeric codes of GRIB edition 1 messages: parameter
//! abbreviations, names and units keyed by originating center and parameter
//! number, and names and units of vertical level types.

pub mod level_types;
pub mod parameters;
pub mod tables;

pub use level_types::get_level_type_info;
pub use parameters::{get_parameter, Grib1Parameter};
