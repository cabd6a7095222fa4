//! Plain protocol values: time, identifiers, sequence numbers, locators.

pub mod builtin_endpoint;
pub mod cache_change;
pub mod dds_cache;
pub mod duration;
pub mod guid;
pub mod guid_map;
pub mod locator;
pub mod parameter_id;
pub mod sequence_number;
pub mod time;
