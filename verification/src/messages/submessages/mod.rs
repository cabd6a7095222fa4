//! The submessages of a message.

pub mod ack_nack;
pub mod data;
pub mod gap;
pub mod heartbeat;
pub mod info_destination;
pub mod info_reply;
pub mod info_source;
pub mod info_timestamp;
pub mod submessage;
pub mod submessage_elements;
