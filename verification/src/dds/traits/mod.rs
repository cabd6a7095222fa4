//! Capabilities that user data types supply.

pub mod key;
pub mod serde_adapters;
