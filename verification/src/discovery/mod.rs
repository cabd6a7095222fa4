//! Discovery of participants and of their endpoints.

pub mod content_filter_property;
pub mod data_types;
pub mod discovery;
pub mod discovery_db;
