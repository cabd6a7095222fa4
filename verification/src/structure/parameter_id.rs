use vstd::prelude::*;

verus! {

/// The tag of a parameter in a parameter list.
#[derive(Clone, Copy, Debug, PartialEq, Eq, Structural, Hash, PartialOrd, Ord)]
pub struct ParameterId {
    pub value: u16,
}

pub const PID_PAD: u16 = 0x00;

pub const PID_SENTINEL: u16 = 0x01;

pub const PID_PARTICIPANT_LEASE_DURATION: u16 = 0x02;

pub const PID_TIME_BASED_FILTER: u16 = 0x04;

pub const PID_TOPIC_NAME: u16 = 0x05;

pub const PID_OWNERSHIP_STRENGTH: u16 = 0x06;

pub const PID_TYPE_NAME: u16 = 0x07;

pub const PID_PROTOCOL_VERSION: u16 = 0x15;

pub const PID_VENDOR_ID: u16 = 0x16;

pub const PID_RELIABILITY: u16 = 0x1a;

pub const PID_LIVELINESS: u16 = 0x1b;

pub const PID_DURABILITY: u16 = 0x1d;

pub const PID_OWNERSHIP: u16 = 0x1f;

pub const PID_PRESENTATION: u16 = 0x21;

pub const PID_DEADLINE: u16 = 0x23;

pub const PID_DESTINATION_ORDER: u16 = 0x25;

pub const PID_LATENCY_BUDGET: u16 = 0x27;

pub const PID_LIFESPAN: u16 = 0x2b;

pub const PID_UNICAST_LOCATOR: u16 = 0x2f;

pub const PID_MULTICAST_LOCATOR: u16 = 0x30;

pub const PID_DEFAULT_UNICAST_LOCATOR: u16 = 0x31;

pub const PID_METATRAFFIC_UNICAST_LOCATOR: u16 = 0x32;

pub const PID_METATRAFFIC_MULTICAST_LOCATOR: u16 = 0x33;

pub const PID_PARTICIPANT_MANUAL_LIVELINESS_COUNT: u16 = 0x34;

pub const PID_CONTENT_FILTER_PROPERTY: u16 = 0x35;

pub const PID_HISTORY: u16 = 0x40;

pub const PID_RESOURCE_LIMITS: u16 = 0x41;

pub const PID_EXPECTS_INLINE_QOS: u16 = 0x43;

pub const PID_DEFAULT_MULTICAST_LOCATOR: u16 = 0x48;

pub const PID_PARTICIPANT_GUID: u16 = 0x50;

pub const PID_BUILTIN_ENDPOINT_SET: u16 = 0x58;

pub const PID_ENDPOINT_GUID: u16 = 0x5a;

pub const PID_TYPE_MAX_SIZE_SERIALIZED: u16 = 0x60;

pub const PID_ENTITY_NAME: u16 = 0x62;

pub const PID_KEY_HASH: u16 = 0x70;

pub const PID_STATUS_INFO: u16 = 0x71;

pub const PID_BUILTIN_ENDPOINT_QOS: u16 = 0x77;

impl ParameterId {
    /// The tag with the given number.
    pub fn new(value: u16) -> (p: ParameterId)
        ensures
            p.value == value,
    {
        ParameterId { value }
    }
}

} // verus!
