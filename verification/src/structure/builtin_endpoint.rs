use vstd::prelude::*;

verus! {

/// The set of built-in endpoints that a participant offers, one bit each.
#[derive(Clone, Copy, Debug, PartialEq, Eq, Structural, Hash)]
pub struct BuiltinEndpointSet {
    pub value: u32,
}

/// Bit of the built-in writer of participant announcements.
pub const DISC_BUILTIN_ENDPOINT_PARTICIPANT_ANNOUNCER: u32 = 0x0000_0001;

/// Bit of the built-in reader of participant announcements.
pub const DISC_BUILTIN_ENDPOINT_PARTICIPANT_DETECTOR: u32 = 0x0000_0002;

/// Bit of the built-in writer of publication announcements.
pub const DISC_BUILTIN_ENDPOINT_PUBLICATIONS_ANNOUNCER: u32 = 0x0000_0004;

/// Bit of the built-in reader of publication announcements.
pub const DISC_BUILTIN_ENDPOINT_PUBLICATIONS_DETECTOR: u32 = 0x0000_0008;

/// Bit of the built-in writer of subscription announcements.
pub const DISC_BUILTIN_ENDPOINT_SUBSCRIPTIONS_ANNOUNCER: u32 = 0x0000_0010;

/// Bit of the built-in reader of subscription announcements.
pub const DISC_BUILTIN_ENDPOINT_SUBSCRIPTIONS_DETECTOR: u32 = 0x0000_0020;

/// Bit of the built-in writer of liveliness messages.
pub const BUILTIN_ENDPOINT_PARTICIPANT_MESSAGE_DATA_WRITER: u32 = 0x0000_0400;

/// Bit of the built-in reader of liveliness messages.
pub const BUILTIN_ENDPOINT_PARTICIPANT_MESSAGE_DATA_READER: u32 = 0x0000_0800;

/// Bit of the built-in writer of topic announcements.
pub const DISC_BUILTIN_ENDPOINT_TOPICS_ANNOUNCER: u32 = 0x1000_0000;

/// Bit of the built-in reader of topic announcements.
pub const DISC_BUILTIN_ENDPOINT_TOPICS_DETECTOR: u32 = 0x2000_0000;

impl BuiltinEndpointSet {
    /// Whether the set holds the endpoint with the bit `bit`, a power of
    /// two.
    pub open spec fn spec_contains(&self, bit: u32) -> bool {
        (self.value / bit) % 2 == 1
    }

    /// Whether the set holds the endpoint with the bit `bit`.
    pub fn contains(&self, bit: u32) -> (b: bool)
        requires
            bit > 0,
        ensures
            b == self.spec_contains(bit),
    {
        (self.value / bit) % 2 == 1
    }
}

/// Options of the built-in endpoints of a participant.
#[derive(Clone, Copy, Debug, PartialEq, Eq, Structural, Hash)]
pub struct BuiltinEndpointQos {
    pub value: u32,
}

} // verus!
