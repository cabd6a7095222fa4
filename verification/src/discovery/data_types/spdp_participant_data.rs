use crate::dds::traits::key::Key;
use crate::dds::traits::key::KeyHash;
use crate::dds::traits::key::Keyed;
use crate::messages::protocol_version::ProtocolVersion;
use crate::messages::vendor_id::VendorId;
use crate::structure::builtin_endpoint::BuiltinEndpointQos;
use crate::structure::builtin_endpoint::BuiltinEndpointSet;
use crate::structure::duration::Duration;
use crate::structure::guid::GUID;
use crate::structure::locator::LocatorList;
use crate::structure::time::Timestamp;
use vstd::prelude::*;

verus! {

/// What a participant announces of itself.
#[derive(Debug, Clone)]
pub struct SpdpDiscoveredParticipantData {
    /// When the announcement was received last.
    pub updated_time: Timestamp,
    pub protocol_version: ProtocolVersion,
    pub vendor_id: VendorId,
    pub expects_inline_qos: bool,
    pub participant_guid: GUID,
    pub metatraffic_unicast_locators: LocatorList,
    pub metatraffic_multicast_locators: LocatorList,
    pub default_unicast_locators: LocatorList,
    pub default_multicast_locators: LocatorList,
    pub available_builtin_endpoints: BuiltinEndpointSet,
    /// For how long the participant counts as alive after an announcement.
    pub lease_duration: Option<Duration>,
    pub manual_liveliness_count: i32,
    pub builtin_endpoint_qos: Option<BuiltinEndpointQos>,
    pub entity_name: Option<String>,
}

/// The key of a participant announcement: the identifier of the
/// participant.
#[derive(Debug, Clone, Copy, PartialEq, Eq, Structural, Hash)]
pub struct SpdpDiscoveredParticipantDataKey(pub GUID);

/// The keys of participant announcements are ordered by their identifiers.
impl Key for SpdpDiscoveredParticipantDataKey {
    open spec fn spec_lt(&self, other: &Self) -> bool {
        self.0.spec_lt(&other.0)
    }

    open spec fn spec_hash_key(&self) -> KeyHash {
        self.0.spec_hash_key()
    }

    proof fn lemma_strict_total_order(a: Self, b: Self, c: Self) {
        GUID::lemma_strict_total_order(a.0, b.0, c.0);
    }

    fn key_eq(&self, other: &Self) -> (b: bool) {
        self.0 == other.0
    }

    fn key_lt(&self, other: &Self) -> (b: bool) {
        self.0.key_lt(&other.0)
    }

    fn clone_key(&self) -> (k: Self) {
        *self
    }

    fn into_hash_key(&self) -> (h: KeyHash) {
        self.0.into_hash_key()
    }
}

/// The announcements of one participant are one instance.
impl Keyed for SpdpDiscoveredParticipantData {
    type K = SpdpDiscoveredParticipantDataKey;

    open spec fn spec_key(&self) -> SpdpDiscoveredParticipantDataKey {
        SpdpDiscoveredParticipantDataKey(self.participant_guid)
    }

    fn get_key(&self) -> (k: SpdpDiscoveredParticipantDataKey) {
        SpdpDiscoveredParticipantDataKey(self.participant_guid)
    }
}

} // verus!
