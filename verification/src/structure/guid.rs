use vstd::prelude::*;

verus! {

/// The twelve-byte prefix that all entities of one participant share, held
/// as its three big-endian words.
#[derive(Clone, Copy, Debug, PartialEq, Eq, Structural, Hash, PartialOrd, Ord)]
pub struct GuidPrefix {
    pub host_id: u32,
    pub app_id: u32,
    pub instance_id: u32,
}

impl GuidPrefix {
    pub open spec fn spec_unknown() -> GuidPrefix {
        GuidPrefix { host_id: 0, app_id: 0, instance_id: 0 }
    }

    /// The prefix that stands for "no participant".
    #[verifier::when_used_as_spec(spec_unknown)]
    pub fn unknown() -> (p: GuidPrefix)
        ensures
            p == GuidPrefix::spec_unknown(),
    {
        GuidPrefix { host_id: 0, app_id: 0, instance_id: 0 }
    }
}

/// Lowest entity kind of the range reserved for built-in endpoints.
pub const BUILTIN_KIND_FLOOR: u8 = 0xc0;

/// The four-byte identifier of an entity within its participant, held as
/// one big-endian word: a three-byte key followed by the kind byte.
#[derive(Clone, Copy, Debug, PartialEq, Eq, Structural, Hash, PartialOrd, Ord)]
pub struct EntityId {
    pub value: u32,
}

impl EntityId {
    pub open spec fn spec_unknown() -> EntityId {
        EntityId { value: 0 }
    }

    /// The identifier that stands for "no entity" or "every entity".
    #[verifier::when_used_as_spec(spec_unknown)]
    pub fn unknown() -> (e: EntityId)
        ensures
            e == EntityId::spec_unknown(),
    {
        EntityId { value: 0 }
    }

    pub open spec fn spec_participant() -> EntityId {
        EntityId { value: 0x0000_01c1 }
    }

    /// The participant itself.
    #[verifier::when_used_as_spec(spec_participant)]
    pub fn participant() -> (e: EntityId)
        ensures
            e == EntityId::spec_participant(),
    {
        EntityId { value: 0x0000_01c1 }
    }

    pub open spec fn spec_spdp_builtin_participant_reader() -> EntityId {
        EntityId { value: 0x0000_01c1 }
    }

    /// Built-in reader of participant announcements.
    #[verifier::when_used_as_spec(spec_spdp_builtin_participant_reader)]
    pub fn spdp_builtin_participant_reader() -> (e: EntityId)
        ensures
            e == EntityId::spec_spdp_builtin_participant_reader(),
    {
        EntityId { value: 0x0000_01c1 }
    }

    pub open spec fn spec_spdp_builtin_participant_writer() -> EntityId {
        EntityId { value: 0x0000_01c2 }
    }

    /// Built-in writer of participant announcements.
    #[verifier::when_used_as_spec(spec_spdp_builtin_participant_writer)]
    pub fn spdp_builtin_participant_writer() -> (e: EntityId)
        ensures
            e == EntityId::spec_spdp_builtin_participant_writer(),
    {
        EntityId { value: 0x0000_01c2 }
    }

    pub open spec fn spec_sedp_builtin_subscriptions_reader() -> EntityId {
        EntityId { value: 0x0000_04c7 }
    }

    /// Built-in reader of subscription announcements.
    #[verifier::when_used_as_spec(spec_sedp_builtin_subscriptions_reader)]
    pub fn sedp_builtin_subscriptions_reader() -> (e: EntityId)
        ensures
            e == EntityId::spec_sedp_builtin_subscriptions_reader(),
    {
        EntityId { value: 0x0000_04c7 }
    }

    pub open spec fn spec_sedp_builtin_subscriptions_writer() -> EntityId {
        EntityId { value: 0x0000_03c2 }
    }

    /// Built-in writer of subscription announcements.
    #[verifier::when_used_as_spec(spec_sedp_builtin_subscriptions_writer)]
    pub fn sedp_builtin_subscriptions_writer() -> (e: EntityId)
        ensures
            e == EntityId::spec_sedp_builtin_subscriptions_writer(),
    {
        EntityId { value: 0x0000_03c2 }
    }

    pub open spec fn spec_sedp_builtin_publications_reader() -> EntityId {
        EntityId { value: 0x0000_03c7 }
    }

    /// Built-in reader of publication announcements.
    #[verifier::when_used_as_spec(spec_sedp_builtin_publications_reader)]
    pub fn sedp_builtin_publications_reader() -> (e: EntityId)
        ensures
            e == EntityId::spec_sedp_builtin_publications_reader(),
    {
        EntityId { value: 0x0000_03c7 }
    }

    pub open spec fn spec_sedp_builtin_publications_writer() -> EntityId {
        EntityId { value: 0x0000_04c2 }
    }

    /// Built-in writer of publication announcements.
    #[verifier::when_used_as_spec(spec_sedp_builtin_publications_writer)]
    pub fn sedp_builtin_publications_writer() -> (e: EntityId)
        ensures
            e == EntityId::spec_sedp_builtin_publications_writer(),
    {
        EntityId { value: 0x0000_04c2 }
    }

    pub open spec fn spec_sedp_builtin_topic_reader() -> EntityId {
        EntityId { value: 0x0000_02c7 }
    }

    /// Built-in reader of topic announcements.
    #[verifier::when_used_as_spec(spec_sedp_builtin_topic_reader)]
    pub fn sedp_builtin_topic_reader() -> (e: EntityId)
        ensures
            e == EntityId::spec_sedp_builtin_topic_reader(),
    {
        EntityId { value: 0x0000_02c7 }
    }

    pub open spec fn spec_sedp_builtin_topic_writer() -> EntityId {
        EntityId { value: 0x0000_02c2 }
    }

    /// Built-in writer of topic announcements.
    #[verifier::when_used_as_spec(spec_sedp_builtin_topic_writer)]
    pub fn sedp_builtin_topic_writer() -> (e: EntityId)
        ensures
            e == EntityId::spec_sedp_builtin_topic_writer(),
    {
        EntityId { value: 0x0000_02c2 }
    }

    pub open spec fn spec_p2p_builtin_participant_message_reader() -> EntityId {
        EntityId { value: 0x0002_00c7 }
    }

    /// Built-in reader of liveliness messages.
    #[verifier::when_used_as_spec(spec_p2p_builtin_participant_message_reader)]
    pub fn p2p_builtin_participant_message_reader() -> (e: EntityId)
        ensures
            e == EntityId::spec_p2p_builtin_participant_message_reader(),
    {
        EntityId { value: 0x0002_00c7 }
    }

    pub open spec fn spec_p2p_builtin_participant_message_writer() -> EntityId {
        EntityId { value: 0x0002_00c2 }
    }

    /// Built-in writer of liveliness messages.
    #[verifier::when_used_as_spec(spec_p2p_builtin_participant_message_writer)]
    pub fn p2p_builtin_participant_message_writer() -> (e: EntityId)
        ensures
            e == EntityId::spec_p2p_builtin_participant_message_writer(),
    {
        EntityId { value: 0x0002_00c2 }
    }

    /// The kind byte: the last byte of the identifier on the wire.
    pub open spec fn spec_entity_kind(&self) -> u8 {
        (self.value % 256) as u8
    }

    /// The kind byte of the identifier.
    #[verifier::when_used_as_spec(spec_entity_kind)]
    pub fn entity_kind(&self) -> (k: u8)
        ensures
            k == self.spec_entity_kind(),
    {
        (self.value % 256) as u8
    }

    /// Whether the identifier lies in the range reserved for built-in
    /// discovery endpoints.
    pub open spec fn spec_is_builtin(&self) -> bool {
        self.spec_entity_kind() >= BUILTIN_KIND_FLOOR
    }

    /// Whether the identifier denotes a built-in discovery endpoint.
    #[verifier::when_used_as_spec(spec_is_builtin)]
    pub fn is_builtin(&self) -> (b: bool)
        ensures
            b == self.spec_is_builtin(),
    {
        self.entity_kind() >= BUILTIN_KIND_FLOOR
    }
}

/// The sixteen-byte identifier of a participant, reader or writer.
#[derive(Clone, Copy, Debug, PartialEq, Eq, Structural, Hash, PartialOrd, Ord)]
pub struct GUID {
    pub guid_prefix: GuidPrefix,
    pub entity_id: EntityId,
}

impl GUID {
    pub open spec fn spec_unknown() -> GUID {
        GUID { guid_prefix: GuidPrefix::spec_unknown(), entity_id: EntityId::spec_unknown() }
    }

    /// The identifier that names nothing.
    #[verifier::when_used_as_spec(spec_unknown)]
    pub fn unknown() -> (g: GUID)
        ensures
            g == GUID::spec_unknown(),
    {
        GUID { guid_prefix: GuidPrefix::unknown(), entity_id: EntityId::unknown() }
    }

    /// The identifier of the entity `entity_id` of the participant with
    /// prefix `guid_prefix`.
    pub fn new_with_prefix_and_id(guid_prefix: GuidPrefix, entity_id: EntityId) -> (g: GUID)
        ensures
            g.guid_prefix == guid_prefix,
            g.entity_id == entity_id,
    {
        GUID { guid_prefix, entity_id }
    }
}

} // verus!
