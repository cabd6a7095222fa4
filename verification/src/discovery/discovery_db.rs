use crate::dds::rtps_reader_proxy::RtpsReaderProxy;
use crate::discovery::data_types::spdp_participant_data::SpdpDiscoveredParticipantData;
use crate::discovery::data_types::topic_data::DiscoveredReaderData;
use crate::discovery::data_types::topic_data::DiscoveredTopicData;
use crate::discovery::data_types::topic_data::DiscoveredWriterData;
use crate::structure::duration::Duration;
use crate::structure::guid::EntityId;
use crate::structure::guid::GuidPrefix;
use crate::structure::guid::GUID;
use crate::structure::guid_map::GuidMap;
use crate::structure::time::Timestamp;
use vstd::prelude::*;

verus! {

/// The lease of a participant that states none, in seconds.
pub const DEFAULT_PARTICIPANT_LEASE_SECONDS: i32 = 100;

/// What the registry records of a participant.
pub struct ParticipantRecord {
    /// What the participant announced last.
    pub data: SpdpDiscoveredParticipantData,
    /// When the participant was heard of last.
    pub last_seen: Timestamp,
    /// For how long the participant counts as alive after it was heard of.
    pub lease_duration: Duration,
}

impl ParticipantRecord {
    /// Whether the lease of the participant has run out at `now`: the time
    /// at which it was heard of last, plus its lease, lies before `now`.
    pub open spec fn spec_expired(&self, now: Timestamp) -> bool {
        self.last_seen.ticks() + self.lease_duration.ticks() < now.ticks()
    }

    /// Whether the lease of the participant has run out at `now`.
    pub fn expired(&self, now: Timestamp) -> (b: bool)
        ensures
            b == self.spec_expired(now),
    {
        let seen: i128 = (self.last_seen.seconds as i128) * 0x1_0000_0000i128 + (
        self.last_seen.fraction as i128);
        let lease: i128 = (self.lease_duration.seconds as i128) * 0x1_0000_0000i128 + (
        self.lease_duration.fraction as i128);
        let at: i128 = (now.seconds as i128) * 0x1_0000_0000i128 + (now.fraction as i128);
        seen + lease < at
    }
}

/// The identifier under which the registry files a participant.
pub open spec fn spec_participant_guid(prefix: GuidPrefix) -> GUID {
    GUID { guid_prefix: prefix, entity_id: EntityId::spec_participant() }
}

/// The lease of a participant: the one it states, or the default.
pub open spec fn spec_lease_of(stated: Option<Duration>) -> Duration {
    match stated {
        Some(d) => d,
        None => Duration { seconds: DEFAULT_PARTICIPANT_LEASE_SECONDS, fraction: 0 },
    }
}

/// Whether the record `t` is among the topics.
pub open spec fn spec_topic_recorded(topics: Seq<DiscoveredTopicData>, t: DiscoveredTopicData) -> bool {
    exists|j: int| 0 <= j < topics.len() && #[trigger] topics[j] == t
}

/// The registry of what discovery knows: participants, the readers and
/// writers of this participant and of others, and topics.
pub struct DiscoveryDB {
    participants: GuidMap<ParticipantRecord>,
    local_topic_readers: GuidMap<DiscoveredReaderData>,
    local_topic_writers: GuidMap<DiscoveredWriterData>,
    external_topic_readers: GuidMap<DiscoveredReaderData>,
    external_topic_writers: GuidMap<DiscoveredWriterData>,
    topics: Vec<DiscoveredTopicData>,
    readers_updated: bool,
    writers_updated: bool,
}

impl DiscoveryDB {
    /// The known participants.
    pub closed spec fn participants(&self) -> GuidMap<ParticipantRecord> {
        self.participants
    }

    /// The readers of this participant.
    pub closed spec fn local_readers(&self) -> GuidMap<DiscoveredReaderData> {
        self.local_topic_readers
    }

    /// The writers of this participant.
    pub closed spec fn local_writers(&self) -> GuidMap<DiscoveredWriterData> {
        self.local_topic_writers
    }

    /// The known readers of other participants.
    pub closed spec fn remote_readers(&self) -> GuidMap<DiscoveredReaderData> {
        self.external_topic_readers
    }

    /// The known writers of other participants.
    pub closed spec fn remote_writers(&self) -> GuidMap<DiscoveredWriterData> {
        self.external_topic_writers
    }

    /// The known topics.
    pub closed spec fn topics(&self) -> Seq<DiscoveredTopicData> {
        self.topics@
    }

    /// Whether the readers of this participant changed since they were
    /// announced last.
    pub closed spec fn spec_readers_updated(&self) -> bool {
        self.readers_updated
    }

    /// Whether the writers of this participant changed since they were
    /// announced last.
    pub closed spec fn spec_writers_updated(&self) -> bool {
        self.writers_updated
    }

    /// The invariant of the registry: each of its maps is well formed, and
    /// each topic is recorded once.
    pub open spec fn wf(&self) -> bool {
        &&& self.participants().wf()
        &&& forall|g: GUID|
            #![trigger self.participants().contains_key(g)]
            self.participants().contains_key(g) ==> g.entity_id == EntityId::spec_participant()
        &&& self.local_readers().wf()
        &&& self.local_writers().wf()
        &&& self.remote_readers().wf()
        &&& self.remote_writers().wf()
        &&& forall|i: int, j: int|
            0 <= i < self.topics().len() && 0 <= j < self.topics().len() && i != j ==> (
            #[trigger] self.topics()[i]).topic_data.name@ != (
            #[trigger] self.topics()[j]).topic_data.name@
    }

    /// Whether the participant with prefix `prefix` is known.
    pub open spec fn has_participant(&self, prefix: GuidPrefix) -> bool {
        self.participants().contains_key(spec_participant_guid(prefix))
    }

    /// What is recorded of the participant with prefix `prefix`.
    pub open spec fn participant(&self, prefix: GuidPrefix) -> ParticipantRecord {
        self.participants().value(spec_participant_guid(prefix))
    }

    /// Whether the topic `name` is known.
    pub open spec fn has_topic(&self, name: Seq<char>) -> bool {
        exists|i: int| 0 <= i < self.topics().len() && (#[trigger] self.topics()[i]).topic_data.name@
            == name
    }

    /// Whether a reader or a writer of this participant is attached to the
    /// topic `name`.
    pub open spec fn topic_in_use(&self, name: Seq<char>) -> bool {
        ||| exists|i: int|
            0 <= i < self.local_readers().entries().len() && (
            #[trigger] self.local_readers().entries()[i]).1.subscription_topic_data.topic_name@
                == name
        ||| exists|i: int|
            0 <= i < self.local_writers().entries().len() && (
            #[trigger] self.local_writers().entries()[i]).1.publication_topic_data.topic_name@
                == name
    }

    /// An empty registry.
    pub fn new() -> (db: DiscoveryDB)
        ensures
            db.wf(),
            forall|p: GuidPrefix| !db.has_participant(p),
            forall|g: GUID|
                !db.local_readers().contains_key(g) && !db.local_writers().contains_key(g)
                    && !db.remote_readers().contains_key(g) && !db.remote_writers().contains_key(
                    g,
                ),
            db.topics().len() == 0,
            !db.spec_readers_updated(),
            !db.spec_writers_updated(),
    {
        DiscoveryDB {
            participants: GuidMap::new(),
            local_topic_readers: GuidMap::new(),
            local_topic_writers: GuidMap::new(),
            external_topic_readers: GuidMap::new(),
            external_topic_writers: GuidMap::new(),
            topics: Vec::new(),
            readers_updated: false,
            writers_updated: false,
        }
    }

    /// Records or refreshes a participant that was heard of at `now`, and
    /// tells whether it was not known before.
    pub fn update_participant(&mut self, data: SpdpDiscoveredParticipantData, now: Timestamp) -> (was_new:
        bool)
        requires
            old(self).wf(),
        ensures
            final(self).wf(),
            was_new == !old(self).has_participant(data.participant_guid.guid_prefix),
            final(self).has_participant(data.participant_guid.guid_prefix),
            final(self).participant(data.participant_guid.guid_prefix).data == data,
            final(self).participant(data.participant_guid.guid_prefix).last_seen == now,
            final(self).participant(data.participant_guid.guid_prefix).lease_duration
                == spec_lease_of(data.lease_duration),
            forall|p: GuidPrefix|
                p != data.participant_guid.guid_prefix ==> final(self).has_participant(p) == old(self).has_participant(p) && (old(self).has_participant(p) ==> final(self).participant(p) == old(self).participant(p)),
            final(self).local_readers() == old(self).local_readers(),
            final(self).local_writers() == old(self).local_writers(),
            final(self).remote_readers() == old(self).remote_readers(),
            final(self).remote_writers() == old(self).remote_writers(),
            final(self).topics() == old(self).topics(),
    {
        let prefix = data.participant_guid.guid_prefix;
        let key = GUID { guid_prefix: prefix, entity_id: EntityId::participant() };
        let lease_duration = match data.lease_duration {
            Some(d) => d,
            None => Duration { seconds: DEFAULT_PARTICIPANT_LEASE_SECONDS, fraction: 0 },
        };
        let before = self.participants.insert(
            key,
            ParticipantRecord { data, last_seen: now, lease_duration },
        );
        proof {
            assert forall|p: GuidPrefix| p != prefix implies spec_participant_guid(p) != key by {}
        }
        before.is_none()
    }

    /// Forgets the participant with prefix `prefix`.
    pub fn remove_participant(&mut self, prefix: GuidPrefix)
        requires
            old(self).wf(),
        ensures
            final(self).wf(),
            !final(self).has_participant(prefix),
            forall|p: GuidPrefix|
                p != prefix ==> final(self).has_participant(p) == old(self).has_participant(p) && (
                old(self).has_participant(p) ==> final(self).participant(p) == old(self).participant(p)),
            final(self).local_readers() == old(self).local_readers(),
            final(self).local_writers() == old(self).local_writers(),
            final(self).remote_readers() == old(self).remote_readers(),
            final(self).remote_writers() == old(self).remote_writers(),
            final(self).topics() == old(self).topics(),
    {
        let key = GUID { guid_prefix: prefix, entity_id: EntityId::participant() };
        let _gone = self.participants.remove(key);
        proof {
            assert forall|p: GuidPrefix| p != prefix implies spec_participant_guid(p) != key by {}
        }
    }

    /// Refreshes the participant with prefix `prefix` that has shown at
    /// `now` that it is alive. A participant that is not known is not
    /// recorded by this.
    pub fn update_lease_duration(&mut self, prefix: GuidPrefix, now: Timestamp) -> (known: bool)
        requires
            old(self).wf(),
        ensures
            final(self).wf(),
            known == old(self).has_participant(prefix),
            final(self).has_participant(prefix) == old(self).has_participant(prefix),
            known ==> final(self).participant(prefix).last_seen == now && final(self).participant(prefix).lease_duration == old(self).participant(prefix).lease_duration
                && final(self).participant(prefix).data == old(self).participant(prefix).data,
            forall|p: GuidPrefix|
                p != prefix ==> final(self).has_participant(p) == old(self).has_participant(p) && (
                old(self).has_participant(p) ==> final(self).participant(p) == old(self).participant(p)),
    {
        let key = GUID { guid_prefix: prefix, entity_id: EntityId::participant() };
        proof {
            assert forall|p: GuidPrefix| p != prefix implies spec_participant_guid(p) != key by {}
        }
        match self.participants.remove(key) {
            None => false,
            Some(record) => {
                let _none = self.participants.insert(
                    key,
                    ParticipantRecord {
                        data: record.data,
                        last_seen: now,
                        lease_duration: record.lease_duration,
                    },
                );
                true
            },
        }
    }

    /// Forgets every participant whose lease has run out at `now`, and
    /// gives their prefixes.
    pub fn participant_cleanup(&mut self, now: Timestamp) -> (removed: Vec<GuidPrefix>)
        requires
            old(self).wf(),
        ensures
            final(self).wf(),
            forall|p: GuidPrefix|
                #![trigger final(self).has_participant(p)]
                final(self).has_participant(p) <==> old(self).has_participant(p) && !old(self).participant(p).spec_expired(now),
            forall|p: GuidPrefix|
                #![trigger final(self).participant(p)]
                final(self).has_participant(p) ==> final(self).participant(p) == old(self).participant(p),
            forall|i: int|
                0 <= i < removed.len() ==> old(self).has_participant(#[trigger] removed[i]) && old(self).participant(removed[i]).spec_expired(now),
            forall|p: GuidPrefix|
                #![trigger old(self).has_participant(p)]
                old(self).has_participant(p) && old(self).participant(p).spec_expired(now)
                    ==> exists|i: int| 0 <= i < removed.len() && #[trigger] removed[i] == p,
            final(self).local_readers() == old(self).local_readers(),
            final(self).local_writers() == old(self).local_writers(),
            final(self).remote_readers() == old(self).remote_readers(),
            final(self).remote_writers() == old(self).remote_writers(),
            final(self).topics() == old(self).topics(),
    {
        // Find the participants whose lease has run out.
        let mut removed: Vec<GuidPrefix> = Vec::new();
        let mut i: usize = 0;
        while i < self.participants.len()
            invariant
                self.wf(),
                i <= self.participants.entries().len(),
                forall|a: int|
                    0 <= a < removed.len() ==> self.has_participant(#[trigger] removed[a])
                        && self.participant(removed[a]).spec_expired(now),
                forall|k: int|
                    0 <= k < i && (#[trigger] self.participants.entries()[k]).1.spec_expired(now)
                        ==> exists|a: int|
                        0 <= a < removed.len() && #[trigger] removed[a]
                            == self.participants.entries()[k].0.guid_prefix,
            decreases self.participants.entries().len() - i,
        {
            let key = self.participants.key_at(i);
            proof {
                self.participants.lemma_index_unique(i as int, key);
                assert(key == spec_participant_guid(key.guid_prefix));
            }
            if self.participants.value_at(i).expired(now) {
                let ghost before = removed@;
                removed.push(key.guid_prefix);
                proof {
                    assert forall|k: int|
                        0 <= k < i + 1 && (
                        #[trigger] self.participants.entries()[k]).1.spec_expired(
                            now,
                        ) implies exists|a: int|
                        0 <= a < removed.len() && #[trigger] removed[a]
                            == self.participants.entries()[k].0.guid_prefix by {
                        if k < i {
                            let a = choose|a: int|
                                0 <= a < before.len() && #[trigger] before[a]
                                    == self.participants.entries()[k].0.guid_prefix;
                            assert(removed[a] == before[a]);
                        } else {
                            assert(removed[removed.len() - 1] == key.guid_prefix);
                        }
                    }
                }
            }
            i += 1;
        }
        proof {
            assert forall|p: GuidPrefix|
                #![trigger self.has_participant(p)]
                self.has_participant(p) && self.participant(p).spec_expired(now) implies exists|
                a: int,
            | 0 <= a < removed.len() && #[trigger] removed[a] == p by {
                let k = crate::structure::guid_map::spec_key_index(
                    self.participants.entries(),
                    spec_participant_guid(p),
                );
                assert(self.participants.entries()[k].0 == spec_participant_guid(p));
                self.participants.lemma_index_unique(k, spec_participant_guid(p));
            }
        }
        // Forget them.
        let mut a: usize = 0;
        while a < removed.len()
            invariant
                self.wf(),
                old(self).wf(),
                a <= removed.len(),
                self.local_topic_readers == old(self).local_topic_readers,
                self.local_topic_writers == old(self).local_topic_writers,
                self.external_topic_readers == old(self).external_topic_readers,
                self.external_topic_writers == old(self).external_topic_writers,
                self.topics == old(self).topics,
                forall|x: int|
                    0 <= x < removed.len() ==> old(self).has_participant(#[trigger] removed[x])
                        && old(self).participant(removed[x]).spec_expired(now),
                forall|p: GuidPrefix|
                    #![trigger old(self).has_participant(p)]
                    old(self).has_participant(p) && old(self).participant(p).spec_expired(now)
                        ==> exists|x: int| 0 <= x < removed.len() && #[trigger] removed[x] == p,
                forall|p: GuidPrefix|
                    #![trigger self.has_participant(p)]
                    self.has_participant(p) <==> old(self).has_participant(p) && !(exists|x: int|
                        0 <= x < a && #[trigger] removed[x] == p),
                forall|p: GuidPrefix|
                    #![trigger self.participant(p)]
                    self.has_participant(p) ==> self.participant(p) == old(self).participant(p),
            decreases removed.len() - a,
        {
            let prefix = removed[a];
            let key = GUID { guid_prefix: prefix, entity_id: EntityId::participant() };
            let ghost before = *self;
            let _gone = self.participants.remove(key);
            proof {
                assert forall|p: GuidPrefix| p != prefix implies spec_participant_guid(p)
                    != key by {}
                assert forall|p: GuidPrefix|
                    #![trigger self.has_participant(p)]
                    self.has_participant(p) <==> old(self).has_participant(p) && !(exists|x: int|
                        0 <= x < a + 1 && #[trigger] removed[x] == p) by {
                    if p == prefix {
                        assert(removed[a as int] == p);
                    } else {
                        assert(self.has_participant(p) == before.has_participant(p));
                        if exists|x: int| 0 <= x < a + 1 && #[trigger] removed[x] == p {
                            let x = choose|x: int| 0 <= x < a + 1 && #[trigger] removed[x] == p;
                            assert(x < a);
                        }
                    }
                }
                assert forall|p: GuidPrefix|
                    #![trigger self.participant(p)]
                    self.has_participant(p) implies self.participant(p) == old(self).participant(
                    p,
                ) by {
                    assert(p != prefix);
                    assert(before.has_participant(p));
                    assert(self.participant(p) == before.participant(p));
                }
                assert forall|g: GUID|
                    #![trigger self.participants().contains_key(g)]
                    self.participants().contains_key(g) implies g.entity_id
                    == EntityId::spec_participant() by {
                    assert(before.participants().contains_key(g));
                }
            }
            a += 1;
        }
        removed
    }

    /// Whether the readers of this participant changed since they were
    /// announced last.
    pub fn is_readers_updated(&self) -> (b: bool)
        ensures
            b == self.spec_readers_updated(),
    {
        self.readers_updated
    }

    /// Whether the writers of this participant changed since they were
    /// announced last.
    pub fn is_writers_updated(&self) -> (b: bool)
        ensures
            b == self.spec_writers_updated(),
    {
        self.writers_updated
    }

    /// Sets the mark that tells whether the readers of this participant
    /// are to be announced.
    pub fn readers_updated(&mut self, updated: bool)
        ensures
            final(self).spec_readers_updated() == updated,
            final(self).spec_writers_updated() == old(self).spec_writers_updated(),
            final(self).participants() == old(self).participants(),
            final(self).local_readers() == old(self).local_readers(),
            final(self).local_writers() == old(self).local_writers(),
            final(self).remote_readers() == old(self).remote_readers(),
            final(self).remote_writers() == old(self).remote_writers(),
            final(self).topics() == old(self).topics(),
    {
        self.readers_updated = updated;
    }

    /// Sets the mark that tells whether the writers of this participant
    /// are to be announced.
    pub fn writers_updated(&mut self, updated: bool)
        ensures
            final(self).spec_writers_updated() == updated,
            final(self).spec_readers_updated() == old(self).spec_readers_updated(),
            final(self).participants() == old(self).participants(),
            final(self).local_readers() == old(self).local_readers(),
            final(self).local_writers() == old(self).local_writers(),
            final(self).remote_readers() == old(self).remote_readers(),
            final(self).remote_writers() == old(self).remote_writers(),
            final(self).topics() == old(self).topics(),
    {
        self.writers_updated = updated;
    }

    /// Records a reader of another participant, and tells whether the
    /// record is new or differs from what was recorded: then a copy of the
    /// record is given back with the proxy made of it, else nothing. The
    /// proxy falls back on the default locators of the reader's
    /// participant, where that is known.
    pub fn update_subscription(&mut self, data: DiscoveredReaderData) -> (r: Option<
        (DiscoveredReaderData, RtpsReaderProxy),
    >)
        requires
            old(self).wf(),
        ensures
            final(self).wf(),
            r is Some <==> !old(self).remote_readers().contains_key(
                data.reader_proxy.remote_reader_guid,
            ) || !old(self).remote_readers().value(
                data.reader_proxy.remote_reader_guid,
            ).spec_same(&data),
            final(self).remote_readers().contains_key(data.reader_proxy.remote_reader_guid),
            final(self).remote_readers().value(data.reader_proxy.remote_reader_guid).spec_same(
                &data,
            ),
            r is Some ==> final(self).remote_readers().value(data.reader_proxy.remote_reader_guid)
                == data,
            r matches Some((copy, proxy)) ==> copy.spec_same(&data) && proxy.remote_reader_guid
                == data.reader_proxy.remote_reader_guid && proxy.highest_acked == 0
                && proxy.last_acknack_count is None && proxy.is_reliable == (
            data.subscription_topic_data.reliability matches Some(
                crate::dds::qos::policy::Reliability::Reliable { .. },
            )),
            forall|k: GUID|
                k != data.reader_proxy.remote_reader_guid ==> final(self).remote_readers().contains_key(k) == old(self).remote_readers().contains_key(k)
                    && (old(self).remote_readers().contains_key(k) ==> final(self).remote_readers().value(k) == old(self).remote_readers().value(k)),
            r is None ==> final(self).remote_readers() == old(self).remote_readers(),
            final(self).participants() == old(self).participants(),
            final(self).local_readers() == old(self).local_readers(),
            final(self).local_writers() == old(self).local_writers(),
            final(self).remote_writers() == old(self).remote_writers(),
            final(self).topics() == old(self).topics(),
    {
        let guid = data.reader_proxy.remote_reader_guid;
        let unchanged = match self.external_topic_readers.get(guid) {
            Some(known) => known.same_as(&data),
            None => false,
        };
        if unchanged {
            return None;
        }
        let copy = data.duplicate();
        let participant_key = GUID {
            guid_prefix: guid.guid_prefix,
            entity_id: EntityId::participant(),
        };
        let proxy = match self.participants.get(participant_key) {
            Some(record) => RtpsReaderProxy::from_discovered_reader_data(
                &data,
                &record.data.default_unicast_locators,
                &record.data.default_multicast_locators,
            ),
            None => {
                let none: Vec<crate::structure::locator::Locator> = Vec::new();
                RtpsReaderProxy::from_discovered_reader_data(&data, &none, &none)
            },
        };
        let _before = self.external_topic_readers.insert(guid, data);
        Some((copy, proxy))
    }

    /// Records a writer of another participant, and tells whether the
    /// record is new or differs from what was recorded: then a copy of the
    /// record is given back, else nothing.
    pub fn update_publication(&mut self, data: DiscoveredWriterData) -> (r: Option<
        DiscoveredWriterData,
    >)
        requires
            old(self).wf(),
        ensures
            final(self).wf(),
            r is Some <==> !old(self).remote_writers().contains_key(
                data.writer_proxy.remote_writer_guid,
            ) || !old(self).remote_writers().value(
                data.writer_proxy.remote_writer_guid,
            ).spec_same(&data),
            final(self).remote_writers().contains_key(data.writer_proxy.remote_writer_guid),
            final(self).remote_writers().value(data.writer_proxy.remote_writer_guid).spec_same(
                &data,
            ),
            r is Some ==> final(self).remote_writers().value(data.writer_proxy.remote_writer_guid)
                == data,
            r matches Some(copy) ==> copy.spec_same(&data) && copy.last_updated
                == data.last_updated,
            forall|k: GUID|
                k != data.writer_proxy.remote_writer_guid ==> final(self).remote_writers().contains_key(k) == old(self).remote_writers().contains_key(k)
                    && (old(self).remote_writers().contains_key(k) ==> final(self).remote_writers().value(k) == old(self).remote_writers().value(k)),
            r is None ==> final(self).remote_writers() == old(self).remote_writers(),
            final(self).participants() == old(self).participants(),
            final(self).local_readers() == old(self).local_readers(),
            final(self).local_writers() == old(self).local_writers(),
            final(self).remote_readers() == old(self).remote_readers(),
            final(self).topics() == old(self).topics(),
    {
        let guid = data.writer_proxy.remote_writer_guid;
        let unchanged = match self.external_topic_writers.get(guid) {
            Some(known) => known.same_as(&data),
            None => false,
        };
        if unchanged {
            return None;
        }
        let copy = data.duplicate();
        let _before = self.external_topic_writers.insert(guid, data);
        Some(copy)
    }

    /// Forgets the reader `guid` of another participant.
    pub fn remove_topic_reader(&mut self, guid: GUID)
        requires
            old(self).wf(),
        ensures
            final(self).wf(),
            !final(self).remote_readers().contains_key(guid),
            forall|k: GUID|
                k != guid ==> final(self).remote_readers().contains_key(k) == old(self).remote_readers().contains_key(k) && (old(self).remote_readers().contains_key(k)
                    ==> final(self).remote_readers().value(k) == old(self).remote_readers().value(
                    k,
                )),
            final(self).participants() == old(self).participants(),
            final(self).local_readers() == old(self).local_readers(),
            final(self).local_writers() == old(self).local_writers(),
            final(self).remote_writers() == old(self).remote_writers(),
            final(self).topics() == old(self).topics(),
    {
        let _gone = self.external_topic_readers.remove(guid);
    }

    /// Forgets the writer `guid` of another participant.
    pub fn remove_topic_writer(&mut self, guid: GUID)
        requires
            old(self).wf(),
        ensures
            final(self).wf(),
            !final(self).remote_writers().contains_key(guid),
            forall|k: GUID|
                k != guid ==> final(self).remote_writers().contains_key(k) == old(self).remote_writers().contains_key(k) && (old(self).remote_writers().contains_key(k)
                    ==> final(self).remote_writers().value(k) == old(self).remote_writers().value(
                    k,
                )),
            final(self).participants() == old(self).participants(),
            final(self).local_readers() == old(self).local_readers(),
            final(self).local_writers() == old(self).local_writers(),
            final(self).remote_readers() == old(self).remote_readers(),
            final(self).topics() == old(self).topics(),
    {
        let _gone = self.external_topic_writers.remove(guid);
    }

    /// Records a reader of this participant, and marks the readers as to
    /// be announced.
    pub fn update_local_topic_reader(&mut self, data: DiscoveredReaderData)
        requires
            old(self).wf(),
        ensures
            final(self).wf(),
            final(self).spec_readers_updated(),
            final(self).local_readers().contains_key(data.reader_proxy.remote_reader_guid),
            final(self).local_readers().value(data.reader_proxy.remote_reader_guid) == data,
            forall|k: GUID|
                k != data.reader_proxy.remote_reader_guid ==> final(self).local_readers().contains_key(k) == old(self).local_readers().contains_key(k) && (
                old(self).local_readers().contains_key(k) ==> final(self).local_readers().value(k)
                    == old(self).local_readers().value(k)),
            final(self).participants() == old(self).participants(),
            final(self).local_writers() == old(self).local_writers(),
            final(self).remote_readers() == old(self).remote_readers(),
            final(self).remote_writers() == old(self).remote_writers(),
            final(self).topics() == old(self).topics(),
    {
        let guid = data.reader_proxy.remote_reader_guid;
        let _before = self.local_topic_readers.insert(guid, data);
        self.readers_updated = true;
    }

    /// Records a writer of this participant, and marks the writers as to
    /// be announced.
    pub fn update_local_topic_writer(&mut self, data: DiscoveredWriterData)
        requires
            old(self).wf(),
        ensures
            final(self).wf(),
            final(self).spec_writers_updated(),
            final(self).local_writers().contains_key(data.writer_proxy.remote_writer_guid),
            final(self).local_writers().value(data.writer_proxy.remote_writer_guid) == data,
            forall|k: GUID|
                k != data.writer_proxy.remote_writer_guid ==> final(self).local_writers().contains_key(k) == old(self).local_writers().contains_key(k) && (
                old(self).local_writers().contains_key(k) ==> final(self).local_writers().value(k)
                    == old(self).local_writers().value(k)),
            final(self).participants() == old(self).participants(),
            final(self).local_readers() == old(self).local_readers(),
            final(self).remote_readers() == old(self).remote_readers(),
            final(self).remote_writers() == old(self).remote_writers(),
            final(self).topics() == old(self).topics(),
    {
        let guid = data.writer_proxy.remote_writer_guid;
        let _before = self.local_topic_writers.insert(guid, data);
        self.writers_updated = true;
    }

    /// Forgets the reader `guid` of this participant.
    pub fn remove_local_topic_reader(&mut self, guid: GUID)
        requires
            old(self).wf(),
        ensures
            final(self).wf(),
            !final(self).local_readers().contains_key(guid),
            forall|k: GUID|
                k != guid ==> final(self).local_readers().contains_key(k) == old(self).local_readers().contains_key(k) && (old(self).local_readers().contains_key(k)
                    ==> final(self).local_readers().value(k) == old(self).local_readers().value(k)),
            final(self).participants() == old(self).participants(),
            final(self).local_writers() == old(self).local_writers(),
            final(self).remote_readers() == old(self).remote_readers(),
            final(self).remote_writers() == old(self).remote_writers(),
            final(self).topics() == old(self).topics(),
    {
        let _gone = self.local_topic_readers.remove(guid);
    }

    /// Forgets the writer `guid` of this participant.
    pub fn remove_local_topic_writer(&mut self, guid: GUID)
        requires
            old(self).wf(),
        ensures
            final(self).wf(),
            !final(self).local_writers().contains_key(guid),
            forall|k: GUID|
                k != guid ==> final(self).local_writers().contains_key(k) == old(self).local_writers().contains_key(k) && (old(self).local_writers().contains_key(k)
                    ==> final(self).local_writers().value(k) == old(self).local_writers().value(k)),
            final(self).participants() == old(self).participants(),
            final(self).local_readers() == old(self).local_readers(),
            final(self).remote_readers() == old(self).remote_readers(),
            final(self).remote_writers() == old(self).remote_writers(),
            final(self).topics() == old(self).topics(),
    {
        let _gone = self.local_topic_writers.remove(guid);
    }

    /// Number of readers of this participant.
    pub fn local_reader_count(&self) -> (n: usize)
        ensures
            n == self.local_readers().entries().len(),
    {
        self.local_topic_readers.len()
    }

    /// The reader of this participant at position `i`.
    pub fn local_reader_at(&self, i: usize) -> (r: &DiscoveredReaderData)
        requires
            i < self.local_readers().entries().len(),
        ensures
            *r == self.local_readers().entries()[i as int].1,
    {
        self.local_topic_readers.value_at(i)
    }

    /// The identifier of the reader of this participant at position `i`.
    pub fn local_reader_key_at(&self, i: usize) -> (g: GUID)
        requires
            i < self.local_readers().entries().len(),
        ensures
            g == self.local_readers().entries()[i as int].0,
    {
        self.local_topic_readers.key_at(i)
    }

    /// The identifier of the writer of this participant at position `i`.
    pub fn local_writer_key_at(&self, i: usize) -> (g: GUID)
        requires
            i < self.local_writers().entries().len(),
        ensures
            g == self.local_writers().entries()[i as int].0,
    {
        self.local_topic_writers.key_at(i)
    }

    /// Number of writers of this participant.
    pub fn local_writer_count(&self) -> (n: usize)
        ensures
            n == self.local_writers().entries().len(),
    {
        self.local_topic_writers.len()
    }

    /// The writer of this participant at position `i`.
    pub fn local_writer_at(&self, i: usize) -> (r: &DiscoveredWriterData)
        requires
            i < self.local_writers().entries().len(),
        ensures
            *r == self.local_writers().entries()[i as int].1,
    {
        self.local_topic_writers.value_at(i)
    }

    /// Number of known topics.
    pub fn topic_count(&self) -> (n: usize)
        ensures
            n == self.topics().len(),
    {
        self.topics.len()
    }

    /// The topic at position `i`.
    pub fn topic_at(&self, i: usize) -> (r: &DiscoveredTopicData)
        requires
            i < self.topics().len(),
        ensures
            *r == self.topics()[i as int],
    {
        &self.topics[i]
    }

    /// Position of the topic `name`, if it is known.
    pub fn find_topic(&self, name: &String) -> (r: Option<usize>)
        ensures
            match r {
                Some(i) => i < self.topics().len() && self.topics()[i as int].topic_data.name@
                    == name@,
                None => !self.has_topic(name@),
            },
    {
        let mut i: usize = 0;
        while i < self.topics.len()
            invariant
                i <= self.topics.len(),
                forall|k: int| 0 <= k < i ==> (#[trigger] self.topics@[k]).topic_data.name@ != name@,
            decreases self.topics.len() - i,
        {
            if self.topics[i].topic_data.name == *name {
                return Some(i);
            }
            i += 1;
        }
        None
    }

    /// Records a topic, and tells whether the record is new or differs
    /// from what was recorded.
    pub fn update_topic_data(&mut self, data: DiscoveredTopicData) -> (updated: bool)
        requires
            old(self).wf(),
        ensures
            final(self).wf(),
            updated <==> !old(self).has_topic(data.topic_data.name@) || exists|i: int|
                0 <= i < old(self).topics().len() && (#[trigger] old(self).topics()[i]).topic_data.name@
                    == data.topic_data.name@ && !old(self).topics()[i].topic_data.spec_same(
                    &data.topic_data,
                ),
            final(self).has_topic(data.topic_data.name@),
            forall|name: Seq<char>|
                name != data.topic_data.name@ ==> final(self).has_topic(name) == old(self).has_topic(name),
            final(self).participants() == old(self).participants(),
            final(self).local_readers() == old(self).local_readers(),
            final(self).local_writers() == old(self).local_writers(),
            final(self).remote_readers() == old(self).remote_readers(),
            final(self).remote_writers() == old(self).remote_writers(),
    {
        let ghost before = self.topics@;
        let ghost name = data.topic_data.name@;
        match self.find_topic(&data.topic_data.name) {
            Some(i) => {
                let same = self.topics[i].topic_data.same_as(&data.topic_data);
                self.topics[i] = data;
                proof {
                    let now = self.topics@;
                    assert(now[i as int].topic_data.name@ == name);
                    assert forall|a: int| 0 <= a < now.len() && a != i implies #[trigger] now[a]
                        == before[a] by {}
                    assert forall|other: Seq<char>| other != name implies self.has_topic(other)
                        == old(self).has_topic(other) by {
                        if old(self).has_topic(other) {
                            let a = choose|a: int|
                                0 <= a < before.len() && (#[trigger] before[a]).topic_data.name@
                                    == other;
                            assert(now[a] == before[a]);
                        }
                        if self.has_topic(other) {
                            let a = choose|a: int|
                                0 <= a < now.len() && (#[trigger] now[a]).topic_data.name@ == other;
                            assert(now[a] == before[a]);
                        }
                    }
                    assert forall|a: int, b: int|
                        0 <= a < now.len() && 0 <= b < now.len() && a != b implies (
                    #[trigger] now[a]).topic_data.name@ != (#[trigger] now[b]).topic_data.name@ by {
                        assert(before[a].topic_data.name@ != before[b].topic_data.name@);
                        if a != i {
                            assert(now[a] == before[a]);
                        }
                        if b != i {
                            assert(now[b] == before[b]);
                        }
                    }
                    if !same {
                        assert(before[i as int].topic_data.name@ == name);
                    } else {
                        assert forall|a: int|
                            0 <= a < before.len() && (#[trigger] before[a]).topic_data.name@
                                == name implies before[a].topic_data.spec_same(
                            &data.topic_data,
                        ) by {
                            if a != i {
                                assert(before[a].topic_data.name@ != before[i as int].topic_data.name@);
                            }
                        }
                    }
                }
                !same
            },
            None => {
                self.topics.push(data);
                proof {
                    let now = self.topics@;
                    assert(now[before.len() as int].topic_data.name@ == name);
                    assert forall|other: Seq<char>| other != name implies self.has_topic(other)
                        == old(self).has_topic(other) by {
                        if old(self).has_topic(other) {
                            let a = choose|a: int|
                                0 <= a < before.len() && (#[trigger] before[a]).topic_data.name@
                                    == other;
                            assert(now[a] == before[a]);
                        }
                        if self.has_topic(other) {
                            let a = choose|a: int|
                                0 <= a < now.len() && (#[trigger] now[a]).topic_data.name@ == other;
                            assert(now[a] == before[a]);
                        }
                    }
                    assert forall|a: int, b: int|
                        0 <= a < now.len() && 0 <= b < now.len() && a != b implies (
                    #[trigger] now[a]).topic_data.name@ != (#[trigger] now[b]).topic_data.name@ by {
                        if a < before.len() {
                            assert(now[a] == before[a]);
                        }
                        if b < before.len() {
                            assert(now[b] == before[b]);
                        }
                    }
                }
                true
            },
        }
    }

    /// Whether a reader or a writer of this participant is attached to the
    /// topic `name`.
    pub fn is_topic_in_use(&self, name: &String) -> (b: bool)
        ensures
            b == self.topic_in_use(name@),
    {
        let mut i: usize = 0;
        while i < self.local_topic_readers.len()
            invariant
                i <= self.local_topic_readers.entries().len(),
                forall|k: int|
                    0 <= k < i ==> (
                    #[trigger] self.local_topic_readers.entries()[k]).1.subscription_topic_data.topic_name@
                        != name@,
            decreases self.local_topic_readers.entries().len() - i,
        {
            if self.local_topic_readers.value_at(i).subscription_topic_data.topic_name == *name {
                return true;
            }
            i += 1;
        }
        let mut j: usize = 0;
        while j < self.local_topic_writers.len()
            invariant
                j <= self.local_topic_writers.entries().len(),
                forall|k: int|
                    0 <= k < j ==> (
                    #[trigger] self.local_topic_writers.entries()[k]).1.publication_topic_data.topic_name@
                        != name@,
            decreases self.local_topic_writers.entries().len() - j,
        {
            if self.local_topic_writers.value_at(j).publication_topic_data.topic_name == *name {
                return true;
            }
            j += 1;
        }
        false
    }

    /// Forgets the topics that no reader and no writer of this participant
    /// is attached to.
    pub fn topic_cleanup(&mut self)
        requires
            old(self).wf(),
        ensures
            final(self).wf(),
            forall|name: Seq<char>|
                #![trigger final(self).has_topic(name)]
                final(self).has_topic(name) <==> old(self).has_topic(name) && old(self).topic_in_use(name),
            forall|i: int|
                0 <= i < final(self).topics().len() ==> #[trigger] spec_topic_recorded(
                    old(self).topics(),
                    final(self).topics()[i],
                ),
            final(self).participants() == old(self).participants(),
            final(self).local_readers() == old(self).local_readers(),
            final(self).local_writers() == old(self).local_writers(),
            final(self).remote_readers() == old(self).remote_readers(),
            final(self).remote_writers() == old(self).remote_writers(),
    {
        let ghost before = self.topics@;
        let ghost mut origin: Seq<int> = Seq::new(before.len(), |i: int| i);
        let mut i: usize = 0;
        proof {
            assert forall|j: int| 0 <= j < before.len() implies #[trigger]
                crate::dds::datasample_cache::spec_position_kept(origin, j) by {
                assert(origin[j] == j);
            }
        }
        while i < self.topics.len()
            invariant
                i <= self.topics.len(),
                self.participants == old(self).participants,
                self.local_topic_readers == old(self).local_topic_readers,
                self.local_topic_writers == old(self).local_topic_writers,
                self.external_topic_readers == old(self).external_topic_readers,
                self.external_topic_writers == old(self).external_topic_writers,
                before == old(self).topics@,
                origin.len() == self.topics@.len(),
                forall|a: int|
                    0 <= a < origin.len() ==> 0 <= (#[trigger] origin[a]) < before.len()
                        && self.topics@[a] == before[origin[a]],
                forall|a: int, b: int| 0 <= a < b < origin.len() ==> origin[a] < origin[b],
                forall|k: int|
                    0 <= k < i ==> self.topic_in_use((#[trigger] self.topics@[k]).topic_data.name@),
                forall|j: int|
                    0 <= j < before.len() && self.topic_in_use(before[j].topic_data.name@)
                        ==> #[trigger] crate::dds::datasample_cache::spec_position_kept(origin, j),
            decreases self.topics.len() - i,
        {
            if self.is_topic_in_use(&self.topics[i].topic_data.name) {
                i += 1;
            } else {
                let ghost cur = self.topics@;
                let _gone = self.topics.remove(i);
                proof {
                    let new_origin = origin.remove(i as int);
                    let now = self.topics@;
                    assert forall|a: int| 0 <= a < new_origin.len() implies 0 <= (
                    #[trigger] new_origin[a]) < before.len() && now[a] == before[new_origin[a]] by {
                        if a < i {
                            assert(new_origin[a] == origin[a]);
                            assert(now[a] == cur[a]);
                        } else {
                            assert(new_origin[a] == origin[a + 1]);
                            assert(now[a] == cur[a + 1]);
                        }
                    }
                    assert forall|a: int, b: int| 0 <= a < b < new_origin.len() implies new_origin[a]
                        < new_origin[b] by {
                        let a0 = if a < i {
                            a
                        } else {
                            a + 1
                        };
                        let b0 = if b < i {
                            b
                        } else {
                            b + 1
                        };
                        assert(new_origin[a] == origin[a0]);
                        assert(new_origin[b] == origin[b0]);
                    }
                    assert forall|k: int| 0 <= k < i implies self.topic_in_use(
                        (#[trigger] now[k]).topic_data.name@,
                    ) by {
                        assert(now[k] == cur[k]);
                    }
                    assert forall|j: int|
                        0 <= j < before.len() && self.topic_in_use(
                            before[j].topic_data.name@,
                        ) implies #[trigger] crate::dds::datasample_cache::spec_position_kept(
                        new_origin,
                        j,
                    ) by {
                        assert(crate::dds::datasample_cache::spec_position_kept(origin, j));
                        let a = choose|a: int| 0 <= a < origin.len() && #[trigger] origin[a] == j;
                        assert(cur[a] == before[j]);
                        if a < i {
                            assert(new_origin[a] == j);
                        } else {
                            assert(a != i);
                            assert(new_origin[a - 1] == j);
                        }
                    }
                    origin = new_origin;
                }
            }
        }
        proof {
            let now = self.topics@;
            assert forall|a: int, b: int|
                0 <= a < now.len() && 0 <= b < now.len() && a != b implies (
            #[trigger] now[a]).topic_data.name@ != (#[trigger] now[b]).topic_data.name@ by {
                if a < b {
                    assert(origin[a] < origin[b]);
                } else {
                    assert(origin[b] < origin[a]);
                }
                assert(before[origin[a]].topic_data.name@ != before[origin[b]].topic_data.name@);
            }
            assert forall|name: Seq<char>|
                #![trigger self.has_topic(name)]
                self.has_topic(name) <==> old(self).has_topic(name) && old(self).topic_in_use(
                    name,
                ) by {
                if self.has_topic(name) {
                    let a = choose|a: int|
                        0 <= a < now.len() && (#[trigger] now[a]).topic_data.name@ == name;
                    assert(before[origin[a]].topic_data.name@ == name);
                    assert(self.topic_in_use(now[a].topic_data.name@));
                }
                if old(self).has_topic(name) && old(self).topic_in_use(name) {
                    let j = choose|j: int|
                        0 <= j < before.len() && (#[trigger] before[j]).topic_data.name@ == name;
                    assert(crate::dds::datasample_cache::spec_position_kept(origin, j));
                    let a = choose|a: int| 0 <= a < origin.len() && #[trigger] origin[a] == j;
                    assert(now[a].topic_data.name@ == name);
                }
            }
            assert forall|a: int| 0 <= a < self.topics().len() implies #[trigger]
                spec_topic_recorded(old(self).topics(), self.topics()[a]) by {
                assert(old(self).topics()[origin[a]] == self.topics()[a]);
            }
        }
    }
}

} // verus!
