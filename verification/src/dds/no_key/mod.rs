//! Access to topics without keys.

pub mod datareader;
pub mod datasample;
pub mod wrappers;
