//! Messages of the wire protocol and their parts.

pub mod header;
pub mod message;
pub mod submessages;
pub mod protocol_id;
pub mod protocol_version;
pub mod vendor_id;
pub mod wire;
