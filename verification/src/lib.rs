//! Core of a DDS middleware over the RTPS wire protocol: the sample cache of
//! an endpoint, the wire codecs, the reliability bookkeeping of writers and
//! readers, and the decisions of participant discovery.
//!
//! Every executable function carries a contract that is machine-checked.

pub mod dds;
pub mod discovery;
pub mod messages;
pub mod network;
pub mod serialization;
pub mod structure;
