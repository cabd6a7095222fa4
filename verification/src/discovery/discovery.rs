use crate::dds::qos::policy::Deadline;
use crate::dds::qos::policy::DestinationOrder;
use crate::dds::qos::policy::Durability;
use crate::dds::qos::policy::History;
use crate::dds::qos::policy::Liveliness;
use crate::dds::qos::policy::Ownership;
use crate::dds::qos::policy::Presentation;
use crate::dds::qos::policy::PresentationAccessScope;
use crate::dds::qos::policy::Reliability;
use crate::dds::qos::policy::TimeBasedFilter;
use crate::dds::qos::QosPolicies;
use crate::dds::qos::QosPolicyBuilder;
use crate::dds::readcondition::ReadCondition;
use crate::dds::rtps_reader_proxy::RtpsReaderProxy;
use crate::discovery::data_types::spdp_participant_data::SpdpDiscoveredParticipantData;
use crate::discovery::data_types::spdp_participant_data::SpdpDiscoveredParticipantDataKey;
use crate::discovery::data_types::topic_data::DiscoveredReaderData;
use crate::discovery::data_types::topic_data::DiscoveredReaderDataKey;
use crate::discovery::data_types::topic_data::DiscoveredTopicData;
use crate::discovery::data_types::topic_data::DiscoveredWriterData;
use crate::discovery::data_types::topic_data::DiscoveredWriterDataKey;
use crate::discovery::data_types::topic_data::ParticipantMessageData;
use crate::discovery::data_types::topic_data::ParticipantMessageDataKind;
use crate::discovery::discovery_db::DiscoveryDB;
use crate::structure::duration::Duration;
use crate::structure::guid::EntityId;
use crate::structure::guid::GuidPrefix;
use crate::structure::guid::GUID;
use crate::structure::time::Timestamp;
use vstd::prelude::*;

verus! {

/// Seconds between two removals of participants whose lease has run out.
pub const PARTICIPANT_CLEANUP_PERIOD: i32 = 2;

/// Seconds between two removals of topics that are not in use.
pub const TOPIC_CLEANUP_PERIOD: i32 = 10;

/// Seconds between two announcements of this participant.
pub const SEND_PARTICIPANT_INFO_PERIOD: i32 = 2;

/// Seconds between two announcements of the readers of this participant.
pub const SEND_READERS_INFO_PERIOD: i32 = 2;

/// Seconds between two announcements of the writers of this participant.
pub const SEND_WRITERS_INFO_PERIOD: i32 = 2;

/// Seconds between two announcements of the topics.
pub const SEND_TOPIC_INFO_PERIOD: i32 = 20;

/// Seconds between two checks whether liveliness is to be asserted.
pub const CHECK_PARTICIPANT_MESSAGES: i32 = 1;

/// How many announcement periods the lease of this participant lasts, so
/// that the lease does not break where one or two announcements are lost.
pub const LEASE_PERIODS: u8 = 5;

/// What the application or an endpoint asks of discovery.
#[allow(non_camel_case_types)]
#[derive(Clone, Copy, Debug, Eq, PartialEq, Structural, Hash)]
pub enum DiscoveryCommand {
    STOP_DISCOVERY,
    REMOVE_LOCAL_WRITER { guid: GUID },
    REMOVE_LOCAL_READER { guid: GUID },
    MANUAL_ASSERT_LIVELINESS,
    ASSERT_TOPIC_LIVELINESS { writer_guid: GUID, manual_assertion: bool },
}

/// When this participant asserted its liveliness last, for each kind of
/// assertion.
#[derive(Clone, Copy, Debug, Eq, PartialEq, Structural, Hash)]
pub struct LivelinessState {
    pub last_auto_update: Timestamp,
    pub last_manual_participant_update: Timestamp,
}

impl LivelinessState {
    /// The state of a participant that starts at `now`.
    pub fn new(now: Timestamp) -> (s: LivelinessState)
        ensures
            s.last_auto_update == now,
            s.last_manual_participant_update == now,
    {
        LivelinessState { last_auto_update: now, last_manual_participant_update: now }
    }
}

/// What discovery tells the event loop of the participant.
pub enum DiscoveryNotificationType {
    ReaderUpdated {
        rtps_reader_proxy: RtpsReaderProxy,
        discovered_reader_data: DiscoveredReaderData,
        needs_new_cache_change: bool,
    },
    ReaderLost { reader_guid: GUID },
    WriterUpdated { discovered_writer_data: DiscoveredWriterData },
    WriterLost { writer_guid: GUID },
    ParticipantUpdated { guid_prefix: GuidPrefix },
    ParticipantLost { guid_prefix: GuidPrefix },
    TopicsInfoUpdated,
    AssertTopicLiveliness { writer_guid: GUID, manual_assertion: bool },
}

/// The sources of events of the discovery loop.
#[derive(Clone, Copy, Debug, Eq, PartialEq, Structural, Hash)]
pub enum DiscoveryToken {
    Command,
    ParticipantData,
    ParticipantCleanup,
    SendParticipantInfo,
    ReaderData,
    SendReadersInfo,
    WriterData,
    SendWritersInfo,
    TopicData,
    TopicCleanup,
    SendTopicInfo,
    ParticipantMessage,
    ParticipantMessageTimer,
    Other,
}

/// What the discovery loop is to do next. Discovery decides; the loop acts
/// on its readers, writers, timers and channels.
pub enum DiscoveryAction {
    /// Take the commands off the command channel and hand each to
    /// discovery.
    DrainCommands,
    /// Read the participant announcements and hand each to discovery.
    ReadParticipants,
    /// Read the subscription announcements: all of the participant given,
    /// or else those not read yet.
    ReadSubscriptions { read_history: Option<GuidPrefix> },
    /// Read the publication announcements likewise.
    ReadPublications { read_history: Option<GuidPrefix> },
    /// Read the topic announcements likewise.
    ReadTopics { read_history: Option<GuidPrefix> },
    /// Take the liveliness messages and hand each to discovery.
    ReadParticipantMessages,
    /// Announce this participant with the given lease.
    AnnounceParticipant { lease_duration: Duration },
    /// Announce the reader of this participant at the given position of the
    /// registry.
    AnnounceReader { position: usize },
    /// Announce the writer of this participant at the given position of the
    /// registry.
    AnnounceWriter { position: usize },
    /// Announce the topic at the given position of the registry.
    AnnounceTopic { position: usize },
    /// Tell the network that this participant is gone.
    DisposeParticipant { participant_key: SpdpDiscoveredParticipantDataKey },
    /// Tell the network that a reader of this participant is gone.
    DisposeReader { reader_key: DiscoveredReaderDataKey },
    /// Tell the network that a writer of this participant is gone.
    DisposeWriter { writer_key: DiscoveredWriterDataKey },
    /// Assert the liveliness of this participant.
    WriteParticipantMessage { kind: ParticipantMessageDataKind },
    /// Tell the event loop of the participant.
    Notify { notification: DiscoveryNotificationType },
    /// Arm the timer of the token to fire after the given seconds.
    SetTimer { token: DiscoveryToken, seconds: i32 },
    /// End the loop.
    Stop,
}

/// Whether an entity is one of the built-in readers of discovery, which
/// are not announced.
pub open spec fn spec_is_discovery_reader(eid: EntityId) -> bool {
    ||| eid == EntityId::spec_spdp_builtin_participant_reader()
    ||| eid == EntityId::spec_sedp_builtin_subscriptions_reader()
    ||| eid == EntityId::spec_sedp_builtin_publications_reader()
    ||| eid == EntityId::spec_sedp_builtin_topic_reader()
    ||| eid == EntityId::spec_p2p_builtin_participant_message_reader()
}

/// Whether an entity is one of the built-in writers of discovery, which
/// are not announced.
pub open spec fn spec_is_discovery_writer(eid: EntityId) -> bool {
    ||| eid == EntityId::spec_spdp_builtin_participant_writer()
    ||| eid == EntityId::spec_sedp_builtin_subscriptions_writer()
    ||| eid == EntityId::spec_sedp_builtin_publications_writer()
    ||| eid == EntityId::spec_sedp_builtin_topic_writer()
    ||| eid == EntityId::spec_p2p_builtin_participant_message_writer()
}

/// Whether an entity is one of the built-in readers of discovery.
pub fn is_discovery_reader(eid: EntityId) -> (b: bool)
    ensures
        b == spec_is_discovery_reader(eid),
{
    eid == EntityId::spdp_builtin_participant_reader() || eid
        == EntityId::sedp_builtin_subscriptions_reader() || eid
        == EntityId::sedp_builtin_publications_reader() || eid
        == EntityId::sedp_builtin_topic_reader() || eid
        == EntityId::p2p_builtin_participant_message_reader()
}

/// Whether an entity is one of the built-in writers of discovery.
pub fn is_discovery_writer(eid: EntityId) -> (b: bool)
    ensures
        b == spec_is_discovery_writer(eid),
{
    eid == EntityId::spdp_builtin_participant_writer() || eid
        == EntityId::sedp_builtin_subscriptions_writer() || eid
        == EntityId::sedp_builtin_publications_writer() || eid
        == EntityId::sedp_builtin_topic_writer() || eid
        == EntityId::p2p_builtin_participant_message_writer()
}

/// The least lease among the first `n` writers whose liveliness is of the
/// kind with strength `rank`, in ticks; `None` where there is no such
/// writer.
pub open spec fn spec_min_lease(
    writers: Seq<(GUID, DiscoveredWriterData)>,
    rank: int,
    n: int,
) -> Option<int>
    decreases n,
{
    if n <= 0 {
        None
    } else {
        let before = spec_min_lease(writers, rank, n - 1);
        match writers[n - 1].1.publication_topic_data.liveliness {
            Some(l) => if l.spec_rank() == rank {
                match before {
                    Some(m) => if l.spec_lease_duration().ticks() < m {
                        Some(l.spec_lease_duration().ticks())
                    } else {
                        before
                    },
                    None => Some(l.spec_lease_duration().ticks()),
                }
            } else {
                before
            },
            None => before,
        }
    }
}

/// Whether liveliness is to be asserted at `now`: more than a third of the
/// least lease has passed since the last assertion.
pub open spec fn spec_assertion_due(last: Timestamp, now: Timestamp, min_lease: Option<int>) -> bool {
    match min_lease {
        Some(m) => 3 * (now.ticks() - last.ticks()) > m,
        None => false,
    }
}

/// The announcements of the first `n` readers of this participant, in the
/// order of the registry; the built-in readers of discovery are not
/// announced.
pub open spec fn spec_own_readers(readers: Seq<(GUID, DiscoveredReaderData)>, n: int) -> Seq<
    DiscoveryAction,
>
    decreases n,
{
    if n <= 0 {
        Seq::empty()
    } else if spec_is_discovery_reader(readers[n - 1].0.entity_id) {
        spec_own_readers(readers, n - 1)
    } else {
        spec_own_readers(readers, n - 1).push(
            DiscoveryAction::AnnounceReader { position: (n - 1) as usize },
        )
    }
}

/// The announcements of the first `n` writers of this participant, in the
/// order of the registry; the built-in writers of discovery are not
/// announced.
pub open spec fn spec_own_writers(writers: Seq<(GUID, DiscoveredWriterData)>, n: int) -> Seq<
    DiscoveryAction,
>
    decreases n,
{
    if n <= 0 {
        Seq::empty()
    } else if spec_is_discovery_writer(writers[n - 1].0.entity_id) {
        spec_own_writers(writers, n - 1)
    } else {
        spec_own_writers(writers, n - 1).push(
            DiscoveryAction::AnnounceWriter { position: (n - 1) as usize },
        )
    }
}

/// The announcements of `n` topics, by their positions.
pub open spec fn spec_all_topics(n: int) -> Seq<DiscoveryAction> {
    Seq::new(n as nat, |i: int| DiscoveryAction::AnnounceTopic { position: i as usize })
}

/// The report that the participant `prefix` is lost.
pub open spec fn spec_lost(prefix: GuidPrefix) -> DiscoveryAction {
    DiscoveryAction::Notify {
        notification: DiscoveryNotificationType::ParticipantLost { guid_prefix: prefix },
    }
}

/// The order to arm the timer of `token` for `seconds`.
pub open spec fn spec_timer(token: DiscoveryToken, seconds: i32) -> DiscoveryAction {
    DiscoveryAction::SetTimer { token, seconds }
}

/// The assertions of liveliness that are due.
pub open spec fn spec_liveliness_messages(auto_due: bool, manual_due: bool) -> Seq<
    DiscoveryAction,
> {
    (if auto_due {
        seq![
            DiscoveryAction::WriteParticipantMessage {
                kind: ParticipantMessageDataKind::AutomaticLivelinessUpdate,
            },
        ]
    } else {
        Seq::empty()
    }) + (if manual_due {
        seq![
            DiscoveryAction::WriteParticipantMessage {
                kind: ParticipantMessageDataKind::ManualLivelinessUpdate,
            },
        ]
    } else {
        Seq::empty()
    })
}

/// The decisions of discovery for one participant.
pub struct Discovery {
    participant_guid: GUID,
    liveliness_state: LivelinessState,
}

impl Discovery {
    /// The participant that this discovery serves.
    pub closed spec fn participant_guid(&self) -> GUID {
        self.participant_guid
    }

    /// When liveliness was asserted last.
    pub closed spec fn liveliness_state(&self) -> LivelinessState {
        self.liveliness_state
    }

    /// The discovery of the participant `participant_guid`, started at
    /// `now`.
    pub fn new(participant_guid: GUID, now: Timestamp) -> (d: Discovery)
        ensures
            d.participant_guid() == participant_guid,
            d.liveliness_state() == (LivelinessState {
                last_auto_update: now,
                last_manual_participant_update: now,
            }),
    {
        Discovery { participant_guid, liveliness_state: LivelinessState::new(now) }
    }

    /// The timers that the loop arms at its start, each with its period in
    /// seconds.
    pub fn timers() -> (t: Vec<(DiscoveryToken, i32)>)
        ensures
            t@ == seq![
                (DiscoveryToken::ParticipantCleanup, PARTICIPANT_CLEANUP_PERIOD),
                (DiscoveryToken::SendParticipantInfo, SEND_PARTICIPANT_INFO_PERIOD),
                (DiscoveryToken::SendReadersInfo, SEND_READERS_INFO_PERIOD),
                (DiscoveryToken::SendWritersInfo, SEND_WRITERS_INFO_PERIOD),
                (DiscoveryToken::SendTopicInfo, SEND_TOPIC_INFO_PERIOD),
                (DiscoveryToken::TopicCleanup, TOPIC_CLEANUP_PERIOD),
                (DiscoveryToken::ParticipantMessageTimer, CHECK_PARTICIPANT_MESSAGES),
            ],
    {
        let mut t: Vec<(DiscoveryToken, i32)> = Vec::new();
        t.push((DiscoveryToken::ParticipantCleanup, PARTICIPANT_CLEANUP_PERIOD));
        t.push((DiscoveryToken::SendParticipantInfo, SEND_PARTICIPANT_INFO_PERIOD));
        t.push((DiscoveryToken::SendReadersInfo, SEND_READERS_INFO_PERIOD));
        t.push((DiscoveryToken::SendWritersInfo, SEND_WRITERS_INFO_PERIOD));
        t.push((DiscoveryToken::SendTopicInfo, SEND_TOPIC_INFO_PERIOD));
        t.push((DiscoveryToken::TopicCleanup, TOPIC_CLEANUP_PERIOD));
        t.push((DiscoveryToken::ParticipantMessageTimer, CHECK_PARTICIPANT_MESSAGES));
        assert(t@ =~= seq![
            (DiscoveryToken::ParticipantCleanup, PARTICIPANT_CLEANUP_PERIOD),
            (DiscoveryToken::SendParticipantInfo, SEND_PARTICIPANT_INFO_PERIOD),
            (DiscoveryToken::SendReadersInfo, SEND_READERS_INFO_PERIOD),
            (DiscoveryToken::SendWritersInfo, SEND_WRITERS_INFO_PERIOD),
            (DiscoveryToken::SendTopicInfo, SEND_TOPIC_INFO_PERIOD),
            (DiscoveryToken::TopicCleanup, TOPIC_CLEANUP_PERIOD),
            (DiscoveryToken::ParticipantMessageTimer, CHECK_PARTICIPANT_MESSAGES),
        ]);
        t
    }

    pub open spec fn spec_subscriber_qos() -> QosPolicies {
        QosPolicies {
            durability: Some(Durability::TransientLocal),
            presentation: Some(
                Presentation {
                    access_scope: PresentationAccessScope::Topic,
                    coherent_access: false,
                    ordered_access: false,
                },
            ),
            deadline: Some(Deadline(Duration::spec_infinite())),
            latency_budget: None,
            ownership: Some(Ownership::Shared),
            liveliness: Some(Liveliness::Automatic { lease_duration: Duration::spec_infinite() }),
            time_based_filter: Some(TimeBasedFilter { minimum_separation: Duration::spec_zero() }),
            reliability: Some(
                Reliability::Reliable {
                    max_blocking_time: Duration { seconds: 0, fraction: 429496729 },
                },
            ),
            destination_order: Some(DestinationOrder::ByReceptionTimestamp),
            history: Some(History::KeepLast { depth: 10 }),
            resource_limits: None,
            lifespan: None,
        }
    }

    /// The policies of the built-in readers of endpoint discovery:
    /// reliable with a tenth of a second of blocking time, transient
    /// local, the last ten samples kept.
    #[verifier::when_used_as_spec(spec_subscriber_qos)]
    pub fn subscriber_qos() -> (q: QosPolicies)
        ensures
            q == Discovery::spec_subscriber_qos(),
    {
        let blocking = Duration::from_millis(100);
        assert(100_000_000int * 0x1_0000_0000 / 1_000_000_000 == 429496729);
        assert(blocking == (Duration { seconds: 0, fraction: 429496729 }));
        QosPolicyBuilder::new().durability(Durability::TransientLocal).presentation(
            Presentation {
                access_scope: PresentationAccessScope::Topic,
                coherent_access: false,
                ordered_access: false,
            },
        ).deadline(Deadline(Duration::infinite())).ownership(Ownership::Shared).liveliness(
            Liveliness::Automatic { lease_duration: Duration::infinite() },
        ).time_based_filter(TimeBasedFilter { minimum_separation: Duration::zero() }).reliability(
            Reliability::Reliable { max_blocking_time: blocking },
        ).destination_order(DestinationOrder::ByReceptionTimestamp).history(
            History::KeepLast { depth: 10 },
        ).build()
    }

    /// The policies of the built-in writers of endpoint discovery: those of
    /// the built-in readers.
    pub fn publisher_qos() -> (q: QosPolicies)
        ensures
            q == Discovery::spec_subscriber_qos(),
    {
        Discovery::subscriber_qos()
    }

    pub open spec fn spec_create_spdp_patricipant_qos() -> QosPolicies {
        QosPolicies {
            reliability: Some(Reliability::BestEffort),
            history: Some(History::KeepLast { depth: 1 }),
            ..QosPolicies::spec_qos_none()
        }
    }

    /// The policies of participant discovery: best effort, the last sample
    /// kept.
    #[verifier::when_used_as_spec(spec_create_spdp_patricipant_qos)]
    pub fn create_spdp_patricipant_qos() -> (q: QosPolicies)
        ensures
            q == Discovery::spec_create_spdp_patricipant_qos(),
    {
        QosPolicyBuilder::new().reliability(Reliability::BestEffort).history(
            History::KeepLast { depth: 1 },
        ).build()
    }

    pub open spec fn spec_participant_message_qos() -> QosPolicies {
        QosPolicies {
            durability: Some(Durability::TransientLocal),
            reliability: Some(Reliability::Reliable { max_blocking_time: Duration::spec_zero() }),
            history: Some(History::KeepLast { depth: 1 }),
            ..QosPolicies::spec_qos_none()
        }
    }

    /// The policies of the liveliness messages: reliable without blocking,
    /// transient local, the last sample kept.
    #[verifier::when_used_as_spec(spec_participant_message_qos)]
    pub fn participant_message_qos() -> (q: QosPolicies)
        ensures
            q == Discovery::spec_participant_message_qos(),
    {
        QosPolicyBuilder::new().durability(Durability::TransientLocal).reliability(
            Reliability::Reliable { max_blocking_time: Duration::zero() },
        ).history(History::KeepLast { depth: 1 }).build()
    }

    /// Forgets every participant whose lease has run out at `now`, and
    /// reports each of them as lost, once.
    pub fn participant_cleanup(db: &mut DiscoveryDB, now: Timestamp) -> (actions: Vec<
        DiscoveryAction,
    >)
        requires
            old(db).wf(),
        ensures
            final(db).wf(),
            forall|i: int|
                0 <= i < actions@.len() ==> ((#[trigger] actions@[i]) matches DiscoveryAction::Notify {
                    notification: DiscoveryNotificationType::ParticipantLost { guid_prefix },
                } && old(db).has_participant(guid_prefix) && old(db).participant(
                    guid_prefix,
                ).spec_expired(now)),
            forall|p: GuidPrefix|
                #![trigger old(db).has_participant(p)]
                old(db).has_participant(p) && old(db).participant(p).spec_expired(now)
                    ==> exists|i: int|
                    0 <= i < actions@.len() && #[trigger] actions@[i] == spec_lost(p),
            forall|p: GuidPrefix|
                #![trigger final(db).has_participant(p)]
                final(db).has_participant(p) <==> old(db).has_participant(p) && !old(db).participant(p).spec_expired(now),
            forall|p: GuidPrefix|
                #![trigger final(db).participant(p)]
                final(db).has_participant(p) ==> final(db).participant(p) == old(db).participant(p),
            final(db).local_readers() == old(db).local_readers(),
            final(db).local_writers() == old(db).local_writers(),
            final(db).remote_readers() == old(db).remote_readers(),
            final(db).remote_writers() == old(db).remote_writers(),
            final(db).topics() == old(db).topics(),
    {
        let removed = db.participant_cleanup(now);
        let mut actions: Vec<DiscoveryAction> = Vec::new();
        let mut i: usize = 0;
        while i < removed.len()
            invariant
                i <= removed.len(),
                actions@.len() == i,
                forall|k: int| 0 <= k < i ==> #[trigger] actions@[k] == spec_lost(removed@[k]),
            decreases removed.len() - i,
        {
            actions.push(
                DiscoveryAction::Notify {
                    notification: DiscoveryNotificationType::ParticipantLost {
                        guid_prefix: removed[i],
                    },
                },
            );
            i += 1;
        }
        proof {
            assert forall|p: GuidPrefix|
                #![trigger old(db).has_participant(p)]
                old(db).has_participant(p) && old(db).participant(p).spec_expired(
                    now,
                ) implies exists|i: int|
                0 <= i < actions@.len() && #[trigger] actions@[i] == spec_lost(p) by {
                let a = choose|a: int| 0 <= a < removed.len() && #[trigger] removed[a] == p;
                assert(actions@[a] == spec_lost(p));
            }
        }
        actions
    }

    /// Forgets the topics that no reader or writer of this participant
    /// uses.
    pub fn topic_cleanup(db: &mut DiscoveryDB)
        requires
            old(db).wf(),
        ensures
            final(db).wf(),
            forall|name: Seq<char>|
                #![trigger final(db).has_topic(name)]
                final(db).has_topic(name) <==> old(db).has_topic(name) && old(db).topic_in_use(
                    name,
                ),
            final(db).participants() == old(db).participants(),
            final(db).local_readers() == old(db).local_readers(),
            final(db).local_writers() == old(db).local_writers(),
    {
        db.topic_cleanup();
    }

    /// Whether the readers of this participant are to be announced: they
    /// are where one was added or changed since they were asked for last.
    /// Asking takes the mark away.
    pub fn read_readers_info(db: &mut DiscoveryDB) -> (updated: bool)
        ensures
            updated == old(db).spec_readers_updated(),
            !final(db).spec_readers_updated(),
            final(db).spec_writers_updated() == old(db).spec_writers_updated(),
            final(db).participants() == old(db).participants(),
            final(db).local_readers() == old(db).local_readers(),
            final(db).local_writers() == old(db).local_writers(),
            final(db).remote_readers() == old(db).remote_readers(),
            final(db).remote_writers() == old(db).remote_writers(),
            final(db).topics() == old(db).topics(),
            !updated ==> *final(db) == *old(db),
    {
        let updated = db.is_readers_updated();
        if updated {
            db.readers_updated(false);
        }
        updated
    }

    /// Whether the writers of this participant are to be announced: they
    /// are where one was added or changed since they were asked for last.
    /// Asking takes the mark away.
    pub fn read_writers_info(db: &mut DiscoveryDB) -> (updated: bool)
        ensures
            updated == old(db).spec_writers_updated(),
            !final(db).spec_writers_updated(),
            final(db).spec_readers_updated() == old(db).spec_readers_updated(),
            final(db).participants() == old(db).participants(),
            final(db).local_readers() == old(db).local_readers(),
            final(db).local_writers() == old(db).local_writers(),
            final(db).remote_readers() == old(db).remote_readers(),
            final(db).remote_writers() == old(db).remote_writers(),
            final(db).topics() == old(db).topics(),
            !updated ==> *final(db) == *old(db),
    {
        let updated = db.is_writers_updated();
        if updated {
            db.writers_updated(false);
        }
        updated
    }

    /// The announcements of the readers of this participant, in the order
    /// of the registry, without the built-in readers of discovery.
    pub fn write_readers_info(db: &DiscoveryDB) -> (actions: Vec<DiscoveryAction>)
        requires
            db.wf(),
        ensures
            actions@ == spec_own_readers(
                db.local_readers().entries(),
                db.local_readers().entries().len() as int,
            ),
    {
        let mut actions: Vec<DiscoveryAction> = Vec::new();
        let count = db.local_reader_count();
        let mut k: usize = 0;
        while k < count
            invariant
                db.wf(),
                count == db.local_readers().entries().len(),
                k <= count,
                actions@ == spec_own_readers(db.local_readers().entries(), k as int),
            decreases count - k,
        {
            let eid = db.local_reader_key_at(k).entity_id;
            if !is_discovery_reader(eid) {
                actions.push(DiscoveryAction::AnnounceReader { position: k });
            }
            k += 1;
        }
        actions
    }

    /// The announcements of the writers of this participant, in the order
    /// of the registry, without the built-in writers of discovery.
    pub fn write_writers_info(db: &DiscoveryDB) -> (actions: Vec<DiscoveryAction>)
        requires
            db.wf(),
        ensures
            actions@ == spec_own_writers(
                db.local_writers().entries(),
                db.local_writers().entries().len() as int,
            ),
    {
        let mut actions: Vec<DiscoveryAction> = Vec::new();
        let count = db.local_writer_count();
        let mut k: usize = 0;
        while k < count
            invariant
                db.wf(),
                count == db.local_writers().entries().len(),
                k <= count,
                actions@ == spec_own_writers(db.local_writers().entries(), k as int),
            decreases count - k,
        {
            let eid = db.local_writer_key_at(k).entity_id;
            if !is_discovery_writer(eid) {
                actions.push(DiscoveryAction::AnnounceWriter { position: k });
            }
            k += 1;
        }
        actions
    }

    /// The announcements of all topics of the registry, in its order.
    pub fn write_topic_info(db: &DiscoveryDB) -> (actions: Vec<DiscoveryAction>)
        ensures
            actions@ == spec_all_topics(db.topics().len() as int),
    {
        let mut actions: Vec<DiscoveryAction> = Vec::new();
        let count = db.topic_count();
        let mut k: usize = 0;
        while k < count
            invariant
                count == db.topics().len(),
                k <= count,
                actions@ =~= spec_all_topics(k as int),
            decreases count - k,
        {
            actions.push(DiscoveryAction::AnnounceTopic { position: k });
            k += 1;
        }
        actions
    }

    /// What the loop is to do where the source `token` is ready at `now`.
    ///
    /// A reader that is ready is read; a timer that fired has its work
    /// done and is armed again. The cleanup of participants forgets those
    /// whose lease has run out and reports each as lost; the cleanup of
    /// topics forgets the topics not in use.
    pub fn handle_token(&mut self, token: DiscoveryToken, db: &mut DiscoveryDB, now: Timestamp) -> (actions:
        Vec<DiscoveryAction>)
        requires
            old(db).wf(),
        ensures
            final(db).wf(),
            final(self).participant_guid() == old(self).participant_guid(),
            token != DiscoveryToken::ParticipantMessageTimer ==> *final(self) == *old(self),
            token == DiscoveryToken::Command ==> actions@ == seq![DiscoveryAction::DrainCommands]
                && *final(db) == *old(db),
            token == DiscoveryToken::ParticipantData ==> actions@ == seq![
                DiscoveryAction::ReadParticipants,
            ] && *final(db) == *old(db),
            token == DiscoveryToken::ReaderData ==> actions@ == seq![
                DiscoveryAction::ReadSubscriptions { read_history: None },
            ] && *final(db) == *old(db),
            token == DiscoveryToken::WriterData ==> actions@ == seq![
                DiscoveryAction::ReadPublications { read_history: None },
            ] && *final(db) == *old(db),
            token == DiscoveryToken::TopicData ==> actions@ == seq![
                DiscoveryAction::ReadTopics { read_history: None },
            ] && *final(db) == *old(db),
            token == DiscoveryToken::ParticipantMessage ==> actions@ == seq![
                DiscoveryAction::ReadParticipantMessages,
            ] && *final(db) == *old(db),
            token == DiscoveryToken::Other ==> actions@.len() == 0 && *final(db) == *old(db),
            token == DiscoveryToken::SendParticipantInfo ==> actions@ == seq![
                DiscoveryAction::AnnounceParticipant {
                    lease_duration: Duration {
                        seconds: 10i32,
                        fraction: 0,
                    },
                },
                spec_timer(DiscoveryToken::SendParticipantInfo, SEND_PARTICIPANT_INFO_PERIOD),
            ] && *final(db) == *old(db),
            token == DiscoveryToken::SendTopicInfo ==> actions@ == spec_all_topics(
                old(db).topics().len() as int,
            ).push(spec_timer(DiscoveryToken::SendTopicInfo, SEND_TOPIC_INFO_PERIOD)) && *final(db)
                == *old(db),
            token == DiscoveryToken::TopicCleanup ==> actions@ == seq![
                spec_timer(DiscoveryToken::TopicCleanup, TOPIC_CLEANUP_PERIOD),
            ] && (forall|name: Seq<char>|
                #![trigger final(db).has_topic(name)]
                final(db).has_topic(name) <==> old(db).has_topic(name) && old(db).topic_in_use(
                    name,
                )),
            token == DiscoveryToken::ParticipantCleanup ==> {
                &&& actions@.len() >= 1
                &&& actions@.last() == spec_timer(
                    DiscoveryToken::ParticipantCleanup,
                    PARTICIPANT_CLEANUP_PERIOD,
                )
                &&& forall|i: int|
                    0 <= i < actions@.len() - 1 ==> ((#[trigger] actions@[i]) matches DiscoveryAction::Notify {
                        notification: DiscoveryNotificationType::ParticipantLost { guid_prefix },
                    } && old(db).has_participant(guid_prefix) && old(db).participant(
                        guid_prefix,
                    ).spec_expired(now))
                &&& forall|p: GuidPrefix|
                    #![trigger old(db).has_participant(p)]
                    old(db).has_participant(p) && old(db).participant(p).spec_expired(now)
                        ==> exists|i: int|
                        0 <= i < actions@.len() - 1 && #[trigger] actions@[i] == spec_lost(p)
                &&& forall|p: GuidPrefix|
                    #![trigger final(db).has_participant(p)]
                    final(db).has_participant(p) <==> old(db).has_participant(p) && !old(db).participant(p).spec_expired(now)
            },
            token == DiscoveryToken::SendReadersInfo ==> {
                &&& actions@ == (if old(db).spec_readers_updated() {
                    spec_own_readers(
                        old(db).local_readers().entries(),
                        old(db).local_readers().entries().len() as int,
                    )
                } else {
                    Seq::empty()
                }).push(spec_timer(DiscoveryToken::SendReadersInfo, SEND_READERS_INFO_PERIOD))
                &&& !final(db).spec_readers_updated()
                &&& final(db).local_readers() == old(db).local_readers()
            },
            token == DiscoveryToken::SendWritersInfo ==> {
                &&& actions@ == (if old(db).spec_writers_updated() {
                    spec_own_writers(
                        old(db).local_writers().entries(),
                        old(db).local_writers().entries().len() as int,
                    )
                } else {
                    Seq::empty()
                }).push(spec_timer(DiscoveryToken::SendWritersInfo, SEND_WRITERS_INFO_PERIOD))
                &&& !final(db).spec_writers_updated()
                &&& final(db).local_writers() == old(db).local_writers()
            },
            token == DiscoveryToken::ParticipantMessageTimer ==> {
                let auto_due = spec_assertion_due(
                    old(self).liveliness_state().last_auto_update,
                    now,
                    spec_min_lease(
                        old(db).local_writers().entries(),
                        0,
                        old(db).local_writers().entries().len() as int,
                    ),
                );
                let manual_due = spec_assertion_due(
                    old(self).liveliness_state().last_manual_participant_update,
                    now,
                    spec_min_lease(
                        old(db).local_writers().entries(),
                        1,
                        old(db).local_writers().entries().len() as int,
                    ),
                );
                &&& *final(db) == *old(db)
                &&& final(self).liveliness_state() == (LivelinessState {
                    last_auto_update: if auto_due {
                        now
                    } else {
                        old(self).liveliness_state().last_auto_update
                    },
                    last_manual_participant_update: old(self).liveliness_state().last_manual_participant_update,
                })
                &&& actions@ == spec_liveliness_messages(auto_due, manual_due).push(
                    spec_timer(DiscoveryToken::ParticipantMessageTimer, CHECK_PARTICIPANT_MESSAGES),
                )
            },
    {
        let mut actions: Vec<DiscoveryAction> = Vec::new();
        match token {
            DiscoveryToken::Command => {
                actions.push(DiscoveryAction::DrainCommands);
                assert(actions@ =~= seq![DiscoveryAction::DrainCommands]);
            },
            DiscoveryToken::ParticipantData => {
                actions.push(DiscoveryAction::ReadParticipants);
                assert(actions@ =~= seq![DiscoveryAction::ReadParticipants]);
            },
            DiscoveryToken::ParticipantCleanup => {
                actions = Self::participant_cleanup(db, now);
                let ghost lost = actions@;
                actions.push(
                    DiscoveryAction::SetTimer {
                        token: DiscoveryToken::ParticipantCleanup,
                        seconds: PARTICIPANT_CLEANUP_PERIOD,
                    },
                );
                proof {
                    assert forall|i: int| 0 <= i < actions@.len() - 1 implies actions@[i]
                        == lost[i] by {}
                    assert forall|p: GuidPrefix|
                        #![trigger old(db).has_participant(p)]
                        old(db).has_participant(p) && old(db).participant(p).spec_expired(
                            now,
                        ) implies exists|i: int|
                        0 <= i < actions@.len() - 1 && #[trigger] actions@[i] == spec_lost(p) by {
                        let a = choose|a: int| 0 <= a < lost.len() && #[trigger] lost[a] == spec_lost(p);
                        assert(actions@[a] == lost[a]);
                    }
                }
            },
            DiscoveryToken::SendParticipantInfo => {
                actions.push(
                    DiscoveryAction::AnnounceParticipant {
                        lease_duration: Duration::from_secs(
                            SEND_PARTICIPANT_INFO_PERIOD * (LEASE_PERIODS as i32),
                        ),
                    },
                );
                actions.push(
                    DiscoveryAction::SetTimer {
                        token: DiscoveryToken::SendParticipantInfo,
                        seconds: SEND_PARTICIPANT_INFO_PERIOD,
                    },
                );
                assert(actions@ =~= seq![
                    DiscoveryAction::AnnounceParticipant {
                        lease_duration: Duration {
                            seconds: 10i32,
                            fraction: 0,
                        },
                    },
                    spec_timer(DiscoveryToken::SendParticipantInfo, SEND_PARTICIPANT_INFO_PERIOD),
                ]);
            },
            DiscoveryToken::ReaderData => {
                actions.push(DiscoveryAction::ReadSubscriptions { read_history: None });
                assert(actions@ =~= seq![DiscoveryAction::ReadSubscriptions { read_history: None }]);
            },
            DiscoveryToken::SendReadersInfo => {
                if Self::read_readers_info(db) {
                    actions = Self::write_readers_info(db);
                }
                actions.push(
                    DiscoveryAction::SetTimer {
                        token: DiscoveryToken::SendReadersInfo,
                        seconds: SEND_READERS_INFO_PERIOD,
                    },
                );
            },
            DiscoveryToken::WriterData => {
                actions.push(DiscoveryAction::ReadPublications { read_history: None });
                assert(actions@ =~= seq![DiscoveryAction::ReadPublications { read_history: None }]);
            },
            DiscoveryToken::SendWritersInfo => {
                if Self::read_writers_info(db) {
                    actions = Self::write_writers_info(db);
                }
                actions.push(
                    DiscoveryAction::SetTimer {
                        token: DiscoveryToken::SendWritersInfo,
                        seconds: SEND_WRITERS_INFO_PERIOD,
                    },
                );
            },
            DiscoveryToken::TopicData => {
                actions.push(DiscoveryAction::ReadTopics { read_history: None });
                assert(actions@ =~= seq![DiscoveryAction::ReadTopics { read_history: None }]);
            },
            DiscoveryToken::TopicCleanup => {
                Self::topic_cleanup(db);
                actions.push(
                    DiscoveryAction::SetTimer {
                        token: DiscoveryToken::TopicCleanup,
                        seconds: TOPIC_CLEANUP_PERIOD,
                    },
                );
                assert(actions@ =~= seq![
                    spec_timer(DiscoveryToken::TopicCleanup, TOPIC_CLEANUP_PERIOD),
                ]);
            },
            DiscoveryToken::SendTopicInfo => {
                actions = Self::write_topic_info(db);
                actions.push(
                    DiscoveryAction::SetTimer {
                        token: DiscoveryToken::SendTopicInfo,
                        seconds: SEND_TOPIC_INFO_PERIOD,
                    },
                );
            },
            DiscoveryToken::ParticipantMessage => {
                actions.push(DiscoveryAction::ReadParticipantMessages);
                assert(actions@ =~= seq![DiscoveryAction::ReadParticipantMessages]);
            },
            DiscoveryToken::ParticipantMessageTimer => {
                let kinds = self.write_participant_message(db, now);
                let mut i: usize = 0;
                while i < kinds.len()
                    invariant
                        i <= kinds.len(),
                        actions@.len() == i,
                        forall|k: int|
                            0 <= k < i ==> #[trigger] actions@[k]
                                == (DiscoveryAction::WriteParticipantMessage { kind: kinds@[k] }),
                    decreases kinds.len() - i,
                {
                    actions.push(DiscoveryAction::WriteParticipantMessage { kind: kinds[i] });
                    i += 1;
                }
                actions.push(
                    DiscoveryAction::SetTimer {
                        token: DiscoveryToken::ParticipantMessageTimer,
                        seconds: CHECK_PARTICIPANT_MESSAGES,
                    },
                );
                proof {
                    let auto_due = spec_assertion_due(
                        old(self).liveliness_state().last_auto_update,
                        now,
                        spec_min_lease(
                            old(db).local_writers().entries(),
                            0,
                            old(db).local_writers().entries().len() as int,
                        ),
                    );
                    let manual_due = spec_assertion_due(
                        old(self).liveliness_state().last_manual_participant_update,
                        now,
                        spec_min_lease(
                            old(db).local_writers().entries(),
                            1,
                            old(db).local_writers().entries().len() as int,
                        ),
                    );
                    assert(actions@ =~= spec_liveliness_messages(auto_due, manual_due).push(
                        spec_timer(
                            DiscoveryToken::ParticipantMessageTimer,
                            CHECK_PARTICIPANT_MESSAGES,
                        ),
                    ));
                }
            },
            DiscoveryToken::Other => {},
        }
        actions
    }

    /// The least lease among the writers of this participant whose
    /// liveliness is of the kind with strength `rank`.
    pub fn min_lease(db: &DiscoveryDB, rank: u8) -> (r: Option<Duration>)
        ensures
            match r {
                Some(d) => spec_min_lease(
                    db.local_writers().entries(),
                    rank as int,
                    db.local_writers().entries().len() as int,
                ) == Some(d.ticks()),
                None => spec_min_lease(
                    db.local_writers().entries(),
                    rank as int,
                    db.local_writers().entries().len() as int,
                ) is None,
            },
    {
        let mut best: Option<Duration> = None;
        let mut i: usize = 0;
        while i < db.local_writer_count()
            invariant
                i <= db.local_writers().entries().len(),
                match best {
                    Some(d) => spec_min_lease(db.local_writers().entries(), rank as int, i as int)
                        == Some(d.ticks()),
                    None => spec_min_lease(db.local_writers().entries(), rank as int, i as int)
                        is None,
                },
            decreases db.local_writers().entries().len() - i,
        {
            match db.local_writer_at(i).publication_topic_data.liveliness {
                Some(l) => {
                    if l.rank() == rank {
                        let lease = l.lease_duration();
                        best = match best {
                            Some(m) => if lease.lt(&m) {
                                Some(lease)
                            } else {
                                Some(m)
                            },
                            None => Some(lease),
                        };
                    }
                },
                None => {},
            }
            i += 1;
        }
        best
    }

    /// Decides which assertions of liveliness are due at `now`: an
    /// automatic one where more than a third of the least lease among the
    /// writers with automatic liveliness has passed since the last one,
    /// and likewise a manual one for the writers with liveliness manual by
    /// participant. An automatic assertion that is decided counts as made.
    pub fn write_participant_message(&mut self, db: &DiscoveryDB, now: Timestamp) -> (kinds: Vec<
        ParticipantMessageDataKind,
    >)
        ensures
            final(self).participant_guid() == old(self).participant_guid(),
            ({
                let auto_due = spec_assertion_due(
                    old(self).liveliness_state().last_auto_update,
                    now,
                    spec_min_lease(
                        db.local_writers().entries(),
                        0,
                        db.local_writers().entries().len() as int,
                    ),
                );
                let manual_due = spec_assertion_due(
                    old(self).liveliness_state().last_manual_participant_update,
                    now,
                    spec_min_lease(
                        db.local_writers().entries(),
                        1,
                        db.local_writers().entries().len() as int,
                    ),
                );
                &&& final(self).liveliness_state() == (LivelinessState {
                    last_auto_update: if auto_due {
                        now
                    } else {
                        old(self).liveliness_state().last_auto_update
                    },
                    last_manual_participant_update: old(self).liveliness_state().last_manual_participant_update,
                })
                &&& kinds@ == (if auto_due {
                    seq![ParticipantMessageDataKind::AutomaticLivelinessUpdate]
                } else {
                    Seq::empty()
                }) + (if manual_due {
                    seq![ParticipantMessageDataKind::ManualLivelinessUpdate]
                } else {
                    Seq::empty()
                })
            }),
    {
        let mut kinds: Vec<ParticipantMessageDataKind> = Vec::new();
        let last_manual = self.liveliness_state.last_manual_participant_update;
        let auto_due = match Discovery::min_lease(db, 0) {
            Some(lease) => assertion_due(self.liveliness_state.last_auto_update, now, lease),
            None => false,
        };
        if auto_due {
            kinds.push(ParticipantMessageDataKind::AutomaticLivelinessUpdate);
            self.liveliness_state.last_auto_update = now;
        }
        let manual_due = match Discovery::min_lease(db, 1) {
            Some(lease) => assertion_due(last_manual, now, lease),
            None => false,
        };
        if manual_due {
            kinds.push(ParticipantMessageDataKind::ManualLivelinessUpdate);
        }
        assert(kinds@ =~= (if auto_due {
            seq![ParticipantMessageDataKind::AutomaticLivelinessUpdate]
        } else {
            Seq::empty()
        }) + (if manual_due {
            seq![ParticipantMessageDataKind::ManualLivelinessUpdate]
        } else {
            Seq::empty()
        }));
        kinds
    }
}

impl Discovery {
    /// The participant that this discovery serves.
    pub fn get_participant_guid(&self) -> (g: GUID)
        ensures
            g == self.participant_guid(),
    {
        self.participant_guid
    }

    /// When liveliness was asserted last.
    pub fn get_liveliness_state(&self) -> (s: LivelinessState)
        ensures
            s == self.liveliness_state(),
    {
        self.liveliness_state
    }

    /// What the loop is to do on a command.
    ///
    /// A stop disposes every reader and every writer of this participant
    /// and the participant itself, and ends the loop. The removal of a
    /// reader or of a writer disposes it and forgets it, unless it is the
    /// built-in writer that would announce the disposal. A manual assertion
    /// of liveliness is recorded at `now`. An assertion of the liveliness
    /// of a topic is passed on to the event loop.
    pub fn handle_command(
        &mut self,
        command: DiscoveryCommand,
        publication_writer_guid: GUID,
        subscription_writer_guid: GUID,
        db: &mut DiscoveryDB,
        now: Timestamp,
    ) -> (actions: Vec<DiscoveryAction>)
        requires
            old(db).wf(),
        ensures
            final(db).wf(),
            final(self).participant_guid() == old(self).participant_guid(),
            match command {
                DiscoveryCommand::STOP_DISCOVERY => {
                    let readers = old(db).local_readers().entries();
                    let writers = old(db).local_writers().entries();
                    &&& *final(db) == *old(db)
                    &&& *final(self) == *old(self)
                    &&& actions@.len() == readers.len() + writers.len() + 2
                    &&& forall|i: int|
                        0 <= i < readers.len() ==> #[trigger] actions@[i]
                            == (DiscoveryAction::DisposeReader {
                            reader_key: DiscoveredReaderDataKey(
                                readers[i].1.reader_proxy.remote_reader_guid,
                            ),
                        })
                    &&& forall|i: int|
                        0 <= i < writers.len() ==> #[trigger] actions@[readers.len() as int + i]
                            == (DiscoveryAction::DisposeWriter {
                            writer_key: DiscoveredWriterDataKey(
                                writers[i].1.writer_proxy.remote_writer_guid,
                            ),
                        })
                    &&& actions@[readers.len() as int + writers.len() as int]
                        == (DiscoveryAction::DisposeParticipant {
                        participant_key: SpdpDiscoveredParticipantDataKey(
                            old(self).participant_guid(),
                        ),
                    })
                    &&& actions@[readers.len() as int + writers.len() as int + 1] == DiscoveryAction::Stop
                },
                DiscoveryCommand::REMOVE_LOCAL_WRITER { guid } => {
                    &&& *final(self) == *old(self)
                    &&& guid == publication_writer_guid ==> actions@.len() == 0 && *final(db)
                        == *old(db)
                    &&& guid != publication_writer_guid ==> actions@ == seq![
                        DiscoveryAction::DisposeWriter {
                            writer_key: DiscoveredWriterDataKey(guid),
                        },
                    ] && !final(db).local_writers().contains_key(guid) && final(db).local_readers()
                        == old(db).local_readers()
                },
                DiscoveryCommand::REMOVE_LOCAL_READER { guid } => {
                    &&& *final(self) == *old(self)
                    &&& guid == subscription_writer_guid ==> actions@.len() == 0 && *final(db)
                        == *old(db)
                    &&& guid != subscription_writer_guid ==> actions@ == seq![
                        DiscoveryAction::DisposeReader {
                            reader_key: DiscoveredReaderDataKey(guid),
                        },
                    ] && !final(db).local_readers().contains_key(guid) && final(db).local_writers()
                        == old(db).local_writers()
                },
                DiscoveryCommand::MANUAL_ASSERT_LIVELINESS => {
                    &&& actions@.len() == 0
                    &&& *final(db) == *old(db)
                    &&& final(self).liveliness_state() == (LivelinessState {
                        last_auto_update: old(self).liveliness_state().last_auto_update,
                        last_manual_participant_update: now,
                    })
                },
                DiscoveryCommand::ASSERT_TOPIC_LIVELINESS { writer_guid, manual_assertion } => {
                    &&& *final(db) == *old(db)
                    &&& *final(self) == *old(self)
                    &&& actions@ == seq![
                        DiscoveryAction::Notify {
                            notification: DiscoveryNotificationType::AssertTopicLiveliness {
                                writer_guid,
                                manual_assertion,
                            },
                        },
                    ]
                },
            },
    {
        let mut actions: Vec<DiscoveryAction> = Vec::new();
        match command {
            DiscoveryCommand::STOP_DISCOVERY => {
                let mut i: usize = 0;
                while i < db.local_reader_count()
                    invariant
                        *db == *old(db),
                        i <= db.local_readers().entries().len(),
                        actions@.len() == i,
                        forall|k: int|
                            0 <= k < i ==> #[trigger] actions@[k]
                                == (DiscoveryAction::DisposeReader {
                                reader_key: DiscoveredReaderDataKey(
                                    db.local_readers().entries()[k].1.reader_proxy.remote_reader_guid,
                                ),
                            }),
                    decreases db.local_readers().entries().len() - i,
                {
                    actions.push(
                        DiscoveryAction::DisposeReader {
                            reader_key: DiscoveredReaderDataKey(
                                db.local_reader_at(i).reader_proxy.remote_reader_guid,
                            ),
                        },
                    );
                    i += 1;
                }
                let readers = i;
                let mut j: usize = 0;
                while j < db.local_writer_count()
                    invariant
                        *db == *old(db),
                        readers == db.local_readers().entries().len(),
                        j <= db.local_writers().entries().len(),
                        actions@.len() == readers + j,
                        forall|k: int|
                            0 <= k < readers ==> #[trigger] actions@[k]
                                == (DiscoveryAction::DisposeReader {
                                reader_key: DiscoveredReaderDataKey(
                                    db.local_readers().entries()[k].1.reader_proxy.remote_reader_guid,
                                ),
                            }),
                        forall|k: int|
                            0 <= k < j ==> #[trigger] actions@[readers + k]
                                == (DiscoveryAction::DisposeWriter {
                                writer_key: DiscoveredWriterDataKey(
                                    db.local_writers().entries()[k].1.writer_proxy.remote_writer_guid,
                                ),
                            }),
                    decreases db.local_writers().entries().len() - j,
                {
                    let ghost before = actions@;
                    actions.push(
                        DiscoveryAction::DisposeWriter {
                            writer_key: DiscoveredWriterDataKey(
                                db.local_writer_at(j).writer_proxy.remote_writer_guid,
                            ),
                        },
                    );
                    proof {
                        assert forall|k: int| 0 <= k < readers implies #[trigger] actions@[k]
                            == (DiscoveryAction::DisposeReader {
                            reader_key: DiscoveredReaderDataKey(
                                db.local_readers().entries()[k].1.reader_proxy.remote_reader_guid,
                            ),
                        }) by {
                            assert(actions@[k] == before[k]);
                        }
                        assert forall|k: int| 0 <= k < j + 1 implies #[trigger] actions@[readers
                            + k] == (DiscoveryAction::DisposeWriter {
                            writer_key: DiscoveredWriterDataKey(
                                db.local_writers().entries()[k].1.writer_proxy.remote_writer_guid,
                            ),
                        }) by {
                            if k < j {
                                assert(actions@[readers + k] == before[readers + k]);
                            }
                        }
                    }
                    j += 1;
                }
                let ghost disposals = actions@;
                actions.push(
                    DiscoveryAction::DisposeParticipant {
                        participant_key: SpdpDiscoveredParticipantDataKey(self.participant_guid),
                    },
                );
                actions.push(DiscoveryAction::Stop);
                proof {
                    let nr = db.local_readers().entries().len();
                    let nw = db.local_writers().entries().len();
                    assert forall|k: int| 0 <= k < nr implies #[trigger] actions@[k]
                        == (DiscoveryAction::DisposeReader {
                        reader_key: DiscoveredReaderDataKey(
                            db.local_readers().entries()[k].1.reader_proxy.remote_reader_guid,
                        ),
                    }) by {
                        assert(actions@[k] == disposals[k]);
                    }
                    assert forall|k: int| 0 <= k < nw implies #[trigger] actions@[nr + k]
                        == (DiscoveryAction::DisposeWriter {
                        writer_key: DiscoveredWriterDataKey(
                            db.local_writers().entries()[k].1.writer_proxy.remote_writer_guid,
                        ),
                    }) by {
                        assert(actions@[nr + k] == disposals[nr + k]);
                    }
                }
            },
            DiscoveryCommand::REMOVE_LOCAL_WRITER { guid } => {
                if guid != publication_writer_guid {
                    actions.push(
                        DiscoveryAction::DisposeWriter { writer_key: DiscoveredWriterDataKey(guid) },
                    );
                    db.remove_local_topic_writer(guid);
                    assert(actions@ =~= seq![
                        DiscoveryAction::DisposeWriter {
                            writer_key: DiscoveredWriterDataKey(guid),
                        },
                    ]);
                }
            },
            DiscoveryCommand::REMOVE_LOCAL_READER { guid } => {
                if guid != subscription_writer_guid {
                    actions.push(
                        DiscoveryAction::DisposeReader { reader_key: DiscoveredReaderDataKey(guid) },
                    );
                    db.remove_local_topic_reader(guid);
                    assert(actions@ =~= seq![
                        DiscoveryAction::DisposeReader {
                            reader_key: DiscoveredReaderDataKey(guid),
                        },
                    ]);
                }
            },
            DiscoveryCommand::MANUAL_ASSERT_LIVELINESS => {
                self.liveliness_state.last_manual_participant_update = now;
            },
            DiscoveryCommand::ASSERT_TOPIC_LIVELINESS { writer_guid, manual_assertion } => {
                actions.push(
                    DiscoveryAction::Notify {
                        notification: DiscoveryNotificationType::AssertTopicLiveliness {
                            writer_guid,
                            manual_assertion,
                        },
                    },
                );
                assert(actions@ =~= seq![
                    DiscoveryAction::Notify {
                        notification: DiscoveryNotificationType::AssertTopicLiveliness {
                            writer_guid,
                            manual_assertion,
                        },
                    },
                ]);
            },
        }
        actions
    }

    /// What the loop is to do on a participant announcement that was heard
    /// at `now`.
    ///
    /// An announcement records or refreshes the participant and reports it
    /// as updated; where the participant was not known, what the built-in
    /// readers hold of it already is read again, so that a participant that
    /// comes back finds its endpoints matched. A disposal forgets the
    /// participant and reports it as lost.
    pub fn handle_participant_reader(
        sample: Result<SpdpDiscoveredParticipantData, SpdpDiscoveredParticipantDataKey>,
        db: &mut DiscoveryDB,
        now: Timestamp,
    ) -> (actions: Vec<DiscoveryAction>)
        requires
            old(db).wf(),
        ensures
            final(db).wf(),
            match sample {
                Ok(data) => {
                    let prefix = data.participant_guid.guid_prefix;
                    let updated = DiscoveryAction::Notify {
                        notification: DiscoveryNotificationType::ParticipantUpdated {
                            guid_prefix: prefix,
                        },
                    };
                    &&& final(db).has_participant(prefix)
                    &&& final(db).participant(prefix).data == data
                    &&& final(db).participant(prefix).last_seen == now
                    &&& forall|p: GuidPrefix|
                        p != prefix ==> final(db).has_participant(p) == old(db).has_participant(p)
                    &&& actions@ == if old(db).has_participant(prefix) {
                        seq![updated]
                    } else {
                        seq![
                            updated,
                            DiscoveryAction::ReadTopics { read_history: Some(prefix) },
                            DiscoveryAction::ReadSubscriptions { read_history: Some(prefix) },
                            DiscoveryAction::ReadPublications { read_history: Some(prefix) },
                        ]
                    }
                },
                Err(key) => {
                    &&& !final(db).has_participant(key.0.guid_prefix)
                    &&& forall|p: GuidPrefix|
                        p != key.0.guid_prefix ==> final(db).has_participant(p) == old(db).has_participant(p)
                    &&& actions@ == seq![
                        DiscoveryAction::Notify {
                            notification: DiscoveryNotificationType::ParticipantLost {
                                guid_prefix: key.0.guid_prefix,
                            },
                        },
                    ]
                },
            },
    {
        let mut actions: Vec<DiscoveryAction> = Vec::new();
        match sample {
            Ok(data) => {
                let guid_prefix = data.participant_guid.guid_prefix;
                let was_new = db.update_participant(data, now);
                actions.push(
                    DiscoveryAction::Notify {
                        notification: DiscoveryNotificationType::ParticipantUpdated { guid_prefix },
                    },
                );
                if was_new {
                    actions.push(DiscoveryAction::ReadTopics { read_history: Some(guid_prefix) });
                    actions.push(
                        DiscoveryAction::ReadSubscriptions { read_history: Some(guid_prefix) },
                    );
                    actions.push(
                        DiscoveryAction::ReadPublications { read_history: Some(guid_prefix) },
                    );
                    assert(actions@ =~= seq![
                        DiscoveryAction::Notify {
                            notification: DiscoveryNotificationType::ParticipantUpdated {
                                guid_prefix,
                            },
                        },
                        DiscoveryAction::ReadTopics { read_history: Some(guid_prefix) },
                        DiscoveryAction::ReadSubscriptions { read_history: Some(guid_prefix) },
                        DiscoveryAction::ReadPublications { read_history: Some(guid_prefix) },
                    ]);
                } else {
                    assert(actions@ =~= seq![
                        DiscoveryAction::Notify {
                            notification: DiscoveryNotificationType::ParticipantUpdated {
                                guid_prefix,
                            },
                        },
                    ]);
                }
            },
            Err(key) => {
                db.remove_participant(key.0.guid_prefix);
                actions.push(
                    DiscoveryAction::Notify {
                        notification: DiscoveryNotificationType::ParticipantLost {
                            guid_prefix: key.0.guid_prefix,
                        },
                    },
                );
                assert(actions@ =~= seq![
                    DiscoveryAction::Notify {
                        notification: DiscoveryNotificationType::ParticipantLost {
                            guid_prefix: key.0.guid_prefix,
                        },
                    },
                ]);
            },
        }
        actions
    }

    /// Which announcements a built-in reader is asked for: all that it
    /// holds where the history of a participant is looked through, else
    /// those not read yet.
    pub fn read_condition_for(read_history: Option<GuidPrefix>) -> (rc: ReadCondition)
        ensures
            rc == if read_history is Some {
                ReadCondition::spec_any()
            } else {
                ReadCondition::spec_not_read()
            },
    {
        match read_history {
            Some(_) => ReadCondition::any(),
            None => ReadCondition::not_read(),
        }
    }

    /// Whether an announcement of the endpoint `guid` is to be looked at,
    /// where only the announcements of the participant `read_history` are
    /// asked for, or all where none is named.
    pub open spec fn spec_wanted(read_history: Option<GuidPrefix>, guid: GUID) -> bool {
        match read_history {
            Some(prefix) => prefix == guid.guid_prefix,
            None => true,
        }
    }

    /// What the loop is to do on a subscription announcement that was
    /// heard at `now`.
    ///
    /// An announcement that is asked for is recorded; where it is new or
    /// differs from what was recorded, the reader is reported as updated,
    /// with its proxy. Its topic is recorded too. A disposal forgets the
    /// reader and reports it as lost.
    pub fn handle_subscription_reader(
        read_history: Option<GuidPrefix>,
        sample: Result<DiscoveredReaderData, DiscoveredReaderDataKey>,
        db: &mut DiscoveryDB,
        now: Timestamp,
    ) -> (actions: Vec<DiscoveryAction>)
        requires
            old(db).wf(),
        ensures
            final(db).wf(),
            final(db).participants() == old(db).participants(),
            final(db).local_readers() == old(db).local_readers(),
            final(db).local_writers() == old(db).local_writers(),
            final(db).remote_writers() == old(db).remote_writers(),
            match sample {
                Ok(data) => {
                    let guid = data.reader_proxy.remote_reader_guid;
                    let changed = !old(db).remote_readers().contains_key(guid) || !old(db).remote_readers().value(guid).spec_same(&data);
                    if Discovery::spec_wanted(read_history, guid) {
                        &&& final(db).remote_readers().contains_key(guid)
                        &&& final(db).remote_readers().value(guid).spec_same(&data)
                        &&& final(db).has_topic(data.subscription_topic_data.topic_name@)
                        &&& actions@.len() == if changed {
                            1int
                        } else {
                            0int
                        }
                        &&& changed ==> (actions@[0] matches DiscoveryAction::Notify {
                            notification: DiscoveryNotificationType::ReaderUpdated {
                                rtps_reader_proxy,
                                discovered_reader_data,
                                needs_new_cache_change,
                            },
                        } && discovered_reader_data.spec_same(&data)
                            && rtps_reader_proxy.remote_reader_guid == guid
                            && rtps_reader_proxy.highest_acked == 0 && needs_new_cache_change)
                    } else {
                        &&& actions@.len() == 0
                        &&& *final(db) == *old(db)
                    }
                },
                Err(key) => {
                    &&& !final(db).remote_readers().contains_key(key.0)
                    &&& forall|k: GUID|
                        k != key.0 ==> final(db).remote_readers().contains_key(k) == old(db).remote_readers().contains_key(k)
                    &&& actions@ == seq![
                        DiscoveryAction::Notify {
                            notification: DiscoveryNotificationType::ReaderLost {
                                reader_guid: key.0,
                            },
                        },
                    ]
                },
            },
    {
        let mut actions: Vec<DiscoveryAction> = Vec::new();
        match sample {
            Ok(data) => {
                let guid = data.reader_proxy.remote_reader_guid;
                let wanted = match read_history {
                    Some(prefix) => prefix == guid.guid_prefix,
                    None => true,
                };
                if wanted {
                    let topic = DiscoveredTopicData::new(
                        now,
                        crate::discovery::data_types::topic_data::TopicBuiltinTopicData::new(
                            None,
                            data.subscription_topic_data.topic_name.clone(),
                            data.subscription_topic_data.data_type_name.clone(),
                            &data.subscription_topic_data.qos(),
                        ),
                    );
                    match db.update_subscription(data) {
                        Some((discovered_reader_data, rtps_reader_proxy)) => {
                            actions.push(
                                DiscoveryAction::Notify {
                                    notification: DiscoveryNotificationType::ReaderUpdated {
                                        rtps_reader_proxy,
                                        discovered_reader_data,
                                        needs_new_cache_change: true,
                                    },
                                },
                            );
                        },
                        None => {},
                    }
                    let _updated = db.update_topic_data(topic);
                }
            },
            Err(key) => {
                db.remove_topic_reader(key.0);
                actions.push(
                    DiscoveryAction::Notify {
                        notification: DiscoveryNotificationType::ReaderLost { reader_guid: key.0 },
                    },
                );
                assert(actions@ =~= seq![
                    DiscoveryAction::Notify {
                        notification: DiscoveryNotificationType::ReaderLost { reader_guid: key.0 },
                    },
                ]);
            },
        }
        actions
    }

    /// What the loop is to do on a publication announcement that was heard
    /// at `now`.
    ///
    /// An announcement that is asked for is recorded; where it is new or
    /// differs from what was recorded, the writer is reported as updated.
    /// Its topic is recorded too. A disposal forgets the writer and
    /// reports it as lost.
    pub fn handle_publication_reader(
        read_history: Option<GuidPrefix>,
        sample: Result<DiscoveredWriterData, DiscoveredWriterDataKey>,
        db: &mut DiscoveryDB,
        now: Timestamp,
    ) -> (actions: Vec<DiscoveryAction>)
        requires
            old(db).wf(),
        ensures
            final(db).wf(),
            final(db).participants() == old(db).participants(),
            final(db).local_readers() == old(db).local_readers(),
            final(db).local_writers() == old(db).local_writers(),
            final(db).remote_readers() == old(db).remote_readers(),
            match sample {
                Ok(data) => {
                    let guid = data.writer_proxy.remote_writer_guid;
                    let changed = !old(db).remote_writers().contains_key(guid) || !old(db).remote_writers().value(guid).spec_same(&data);
                    if Discovery::spec_wanted(read_history, guid) {
                        &&& final(db).remote_writers().contains_key(guid)
                        &&& final(db).remote_writers().value(guid).spec_same(&data)
                        &&& final(db).has_topic(data.publication_topic_data.topic_name@)
                        &&& actions@.len() == if changed {
                            1int
                        } else {
                            0int
                        }
                        &&& changed ==> (actions@[0] matches DiscoveryAction::Notify {
                            notification: DiscoveryNotificationType::WriterUpdated {
                                discovered_writer_data,
                            },
                        } && discovered_writer_data.spec_same(&data))
                    } else {
                        &&& actions@.len() == 0
                        &&& *final(db) == *old(db)
                    }
                },
                Err(key) => {
                    &&& !final(db).remote_writers().contains_key(key.0)
                    &&& forall|k: GUID|
                        k != key.0 ==> final(db).remote_writers().contains_key(k) == old(db).remote_writers().contains_key(k)
                    &&& actions@ == seq![
                        DiscoveryAction::Notify {
                            notification: DiscoveryNotificationType::WriterLost {
                                writer_guid: key.0,
                            },
                        },
                    ]
                },
            },
    {
        let mut actions: Vec<DiscoveryAction> = Vec::new();
        match sample {
            Ok(data) => {
                let guid = data.writer_proxy.remote_writer_guid;
                let wanted = match read_history {
                    Some(prefix) => prefix == guid.guid_prefix,
                    None => true,
                };
                if wanted {
                    let topic = DiscoveredTopicData::new(
                        now,
                        crate::discovery::data_types::topic_data::TopicBuiltinTopicData::new(
                            None,
                            data.publication_topic_data.topic_name.clone(),
                            data.publication_topic_data.data_type_name.clone(),
                            &data.publication_topic_data.qos(),
                        ),
                    );
                    match db.update_publication(data) {
                        Some(discovered_writer_data) => {
                            actions.push(
                                DiscoveryAction::Notify {
                                    notification: DiscoveryNotificationType::WriterUpdated {
                                        discovered_writer_data,
                                    },
                                },
                            );
                        },
                        None => {},
                    }
                    let _updated = db.update_topic_data(topic);
                }
            },
            Err(key) => {
                db.remove_topic_writer(key.0);
                actions.push(
                    DiscoveryAction::Notify {
                        notification: DiscoveryNotificationType::WriterLost { writer_guid: key.0 },
                    },
                );
                assert(actions@ =~= seq![
                    DiscoveryAction::Notify {
                        notification: DiscoveryNotificationType::WriterLost { writer_guid: key.0 },
                    },
                ]);
            },
        }
        actions
    }

    /// What the loop is to do on a topic announcement: the topic is
    /// recorded, and where the record is new or differs from what was
    /// recorded, the event loop is told that the topics changed.
    pub fn handle_topic_reader(data: DiscoveredTopicData, db: &mut DiscoveryDB) -> (actions: Vec<
        DiscoveryAction,
    >)
        requires
            old(db).wf(),
        ensures
            final(db).wf(),
            final(db).has_topic(data.topic_data.name@),
            actions@.len() <= 1,
            actions@.len() == 1 ==> actions@[0] == (DiscoveryAction::Notify {
                notification: DiscoveryNotificationType::TopicsInfoUpdated,
            }),
            actions@.len() == 0 ==> old(db).has_topic(data.topic_data.name@),
            !old(db).has_topic(data.topic_data.name@) ==> actions@.len() == 1,
    {
        let mut actions: Vec<DiscoveryAction> = Vec::new();
        if db.update_topic_data(data) {
            actions.push(
                DiscoveryAction::Notify {
                    notification: DiscoveryNotificationType::TopicsInfoUpdated,
                },
            );
        }
        actions
    }

    /// Records that the participant of a liveliness message showed at
    /// `now` that it is alive.
    pub fn handle_participant_message_reader(
        message: &ParticipantMessageData,
        db: &mut DiscoveryDB,
        now: Timestamp,
    )
        requires
            old(db).wf(),
        ensures
            final(db).wf(),
            final(db).has_participant(message.guid) == old(db).has_participant(message.guid),
            old(db).has_participant(message.guid) ==> final(db).participant(
                message.guid,
            ).last_seen == now,
            forall|p: GuidPrefix|
                p != message.guid ==> final(db).has_participant(p) == old(db).has_participant(p)
                    && (old(db).has_participant(p) ==> final(db).participant(p) == old(db).participant(p)),
    {
        let _known = db.update_lease_duration(message.guid, now);
    }
}

/// One of the built-in topics of discovery with the identifiers of its
/// reader and of its writer, their policies, and the token under which
/// the loop waits for the reader.
pub struct BuiltinEndpointDescription {
    pub topic_name: String,
    pub data_type_name: String,
    pub reader_id: EntityId,
    pub writer_id: EntityId,
    pub qos: QosPolicies,
    pub reader_token: DiscoveryToken,
}

impl Discovery {
    /// The built-in topics of discovery: participants, subscriptions,
    /// publications, topics, and liveliness messages. Participant
    /// discovery is best effort; the others are reliable.
    pub fn builtin_endpoints() -> (t: Vec<BuiltinEndpointDescription>)
        ensures
            t@.len() == 5,
            t@[0].topic_name@ == "DCPSParticipant"@,
            t@[0].data_type_name@ == "SPDPDiscoveredParticipantData"@,
            t@[0].reader_id == EntityId::spec_spdp_builtin_participant_reader(),
            t@[0].writer_id == EntityId::spec_spdp_builtin_participant_writer(),
            t@[0].qos == Discovery::spec_create_spdp_patricipant_qos(),
            t@[0].reader_token == DiscoveryToken::ParticipantData,
            t@[1].topic_name@ == "DCPSSubscription"@,
            t@[1].data_type_name@ == "DiscoveredReaderData"@,
            t@[1].reader_id == EntityId::spec_sedp_builtin_subscriptions_reader(),
            t@[1].writer_id == EntityId::spec_sedp_builtin_subscriptions_writer(),
            t@[1].qos == Discovery::spec_subscriber_qos(),
            t@[1].reader_token == DiscoveryToken::ReaderData,
            t@[2].topic_name@ == "DCPSPublication"@,
            t@[2].data_type_name@ == "DiscoveredWriterData"@,
            t@[2].reader_id == EntityId::spec_sedp_builtin_publications_reader(),
            t@[2].writer_id == EntityId::spec_sedp_builtin_publications_writer(),
            t@[2].qos == Discovery::spec_subscriber_qos(),
            t@[2].reader_token == DiscoveryToken::WriterData,
            t@[3].topic_name@ == "DCPSTopic"@,
            t@[3].data_type_name@ == "DiscoveredTopicData"@,
            t@[3].reader_id == EntityId::spec_sedp_builtin_topic_reader(),
            t@[3].writer_id == EntityId::spec_sedp_builtin_topic_writer(),
            t@[3].qos == QosPolicies::spec_qos_none(),
            t@[3].reader_token == DiscoveryToken::TopicData,
            t@[4].topic_name@ == "DCPSParticipantMessage"@,
            t@[4].data_type_name@ == "ParticipantMessageData"@,
            t@[4].reader_id == EntityId::spec_p2p_builtin_participant_message_reader(),
            t@[4].writer_id == EntityId::spec_p2p_builtin_participant_message_writer(),
            t@[4].qos == Discovery::spec_participant_message_qos(),
            t@[4].reader_token == DiscoveryToken::ParticipantMessage,
    {
        let mut t: Vec<BuiltinEndpointDescription> = Vec::new();
        t.push(
            BuiltinEndpointDescription {
                topic_name: String::from_str("DCPSParticipant"),
                data_type_name: String::from_str("SPDPDiscoveredParticipantData"),
                reader_id: EntityId::spdp_builtin_participant_reader(),
                writer_id: EntityId::spdp_builtin_participant_writer(),
                qos: Discovery::create_spdp_patricipant_qos(),
                reader_token: DiscoveryToken::ParticipantData,
            },
        );
        t.push(
            BuiltinEndpointDescription {
                topic_name: String::from_str("DCPSSubscription"),
                data_type_name: String::from_str("DiscoveredReaderData"),
                reader_id: EntityId::sedp_builtin_subscriptions_reader(),
                writer_id: EntityId::sedp_builtin_subscriptions_writer(),
                qos: Discovery::subscriber_qos(),
                reader_token: DiscoveryToken::ReaderData,
            },
        );
        t.push(
            BuiltinEndpointDescription {
                topic_name: String::from_str("DCPSPublication"),
                data_type_name: String::from_str("DiscoveredWriterData"),
                reader_id: EntityId::sedp_builtin_publications_reader(),
                writer_id: EntityId::sedp_builtin_publications_writer(),
                qos: Discovery::publisher_qos(),
                reader_token: DiscoveryToken::WriterData,
            },
        );
        t.push(
            BuiltinEndpointDescription {
                topic_name: String::from_str("DCPSTopic"),
                data_type_name: String::from_str("DiscoveredTopicData"),
                reader_id: EntityId::sedp_builtin_topic_reader(),
                writer_id: EntityId::sedp_builtin_topic_writer(),
                qos: QosPolicyBuilder::new().build(),
                reader_token: DiscoveryToken::TopicData,
            },
        );
        t.push(
            BuiltinEndpointDescription {
                topic_name: String::from_str("DCPSParticipantMessage"),
                data_type_name: String::from_str("ParticipantMessageData"),
                reader_id: EntityId::p2p_builtin_participant_message_reader(),
                writer_id: EntityId::p2p_builtin_participant_message_writer(),
                qos: Discovery::participant_message_qos(),
                reader_token: DiscoveryToken::ParticipantMessage,
            },
        );
        t
    }

    /// Records this participant in the registry at the start of
    /// discovery, so that its own readers and writers find each other, and
    /// tells the event loop of the participant.
    ///
    /// The event loop is told of the participant, of a reader of
    /// participant announcements without a participant at the multicast
    /// locators of discovery, so that announcements are sent somewhere,
    /// and of the own writer of participant announcements.
    pub fn initialize_participant(
        &self,
        participant_data: SpdpDiscoveredParticipantData,
        multicast_locators: &crate::structure::locator::LocatorList,
        unicast_locators: &crate::structure::locator::LocatorList,
        db: &mut DiscoveryDB,
        now: Timestamp,
    ) -> (actions: Vec<DiscoveryAction>)
        requires
            old(db).wf(),
        ensures
            final(db).wf(),
            final(db).has_participant(participant_data.participant_guid.guid_prefix),
            final(db).participant(participant_data.participant_guid.guid_prefix).data
                == participant_data,
            actions@.len() == 3,
            actions@[0] == (DiscoveryAction::Notify {
                notification: DiscoveryNotificationType::ParticipantUpdated {
                    guid_prefix: self.participant_guid().guid_prefix,
                },
            }),
            actions@[1] matches DiscoveryAction::Notify {
                notification: DiscoveryNotificationType::ReaderUpdated {
                    rtps_reader_proxy,
                    discovered_reader_data,
                    needs_new_cache_change,
                },
            } && needs_new_cache_change && rtps_reader_proxy.remote_reader_guid == (GUID {
                guid_prefix: GuidPrefix::spec_unknown(),
                entity_id: EntityId::spec_spdp_builtin_participant_reader(),
            }) && rtps_reader_proxy.multicast_locator_list@ == multicast_locators@
                && !rtps_reader_proxy.is_reliable
                && discovered_reader_data.reader_proxy.remote_reader_guid
                == rtps_reader_proxy.remote_reader_guid
                && discovered_reader_data.reader_proxy.multicast_locator_list@
                == multicast_locators@
                && discovered_reader_data.subscription_topic_data.topic_name@
                == "DCPSParticipant"@ && discovered_reader_data.subscription_topic_data.reliability
                == Some(Reliability::BestEffort),
            actions@[2] matches DiscoveryAction::Notify {
                notification: DiscoveryNotificationType::WriterUpdated { discovered_writer_data },
            } && discovered_writer_data.writer_proxy.remote_writer_guid == (GUID {
                guid_prefix: self.participant_guid().guid_prefix,
                entity_id: EntityId::spec_spdp_builtin_participant_writer(),
            }) && discovered_writer_data.writer_proxy.unicast_locator_list@ == unicast_locators@
                && discovered_writer_data.writer_proxy.multicast_locator_list@
                == multicast_locators@ && discovered_writer_data.last_updated == now
                && discovered_writer_data.publication_topic_data.participant_key == Some(
                self.participant_guid(),
            ) && discovered_writer_data.publication_topic_data.topic_name@ == "DCPSParticipant"@,
    {
        let mut actions: Vec<DiscoveryAction> = Vec::new();
        let _was_new = db.update_participant(participant_data, now);
        actions.push(
            DiscoveryAction::Notify {
                notification: DiscoveryNotificationType::ParticipantUpdated {
                    guid_prefix: self.participant_guid.guid_prefix,
                },
            },
        );
        // A reader without a participant at the multicast address, so that
        // the announcements of this participant are sent somewhere.
        let reader_guid = GUID::new_with_prefix_and_id(
            GuidPrefix::unknown(),
            EntityId::spdp_builtin_participant_reader(),
        );
        let mut reader_proxy = crate::discovery::data_types::topic_data::ReaderProxy::new(
            reader_guid,
        );
        reader_proxy.multicast_locator_list = crate::structure::locator::copy_locators(
            multicast_locators,
        );
        let sub_topic_data =
            crate::discovery::data_types::topic_data::SubscriptionBuiltinTopicData::new(
            reader_guid,
            String::from_str("DCPSParticipant"),
            String::from_str("SPDPDiscoveredParticipantData"),
            &Discovery::create_spdp_patricipant_qos(),
        );
        let drd = DiscoveredReaderData {
            reader_proxy,
            subscription_topic_data: sub_topic_data,
            content_filter: None,
        };
        let none: Vec<crate::structure::locator::Locator> = Vec::new();
        let rtps_reader_proxy = RtpsReaderProxy::from_discovered_reader_data(&drd, &none, &none);
        assert(rtps_reader_proxy.multicast_locator_list@ =~= multicast_locators@);
        actions.push(
            DiscoveryAction::Notify {
                notification: DiscoveryNotificationType::ReaderUpdated {
                    rtps_reader_proxy,
                    discovered_reader_data: drd,
                    needs_new_cache_change: true,
                },
            },
        );
        let writer_guid = GUID::new_with_prefix_and_id(
            self.participant_guid.guid_prefix,
            EntityId::spdp_builtin_participant_writer(),
        );
        let writer_proxy = crate::discovery::data_types::topic_data::WriterProxy::new(
            writer_guid,
            crate::structure::locator::copy_locators(unicast_locators),
            crate::structure::locator::copy_locators(multicast_locators),
        );
        let pub_topic_data =
            crate::discovery::data_types::topic_data::PublicationBuiltinTopicData::new(
            writer_guid,
            self.participant_guid,
            String::from_str("DCPSParticipant"),
            String::from_str("SPDPDiscoveredParticipantData"),
        );
        let dwd = DiscoveredWriterData {
            last_updated: now,
            writer_proxy,
            publication_topic_data: pub_topic_data,
        };
        actions.push(
            DiscoveryAction::Notify {
                notification: DiscoveryNotificationType::WriterUpdated {
                    discovered_writer_data: dwd,
                },
            },
        );
        actions
    }
}

/// Whether a type name stands for every type.
pub open spec fn spec_is_wildcard(name: Seq<char>) -> bool {
    vstd::utf8::encode_utf8(name) == seq![0x2au8]
}

/// Whether a reader with the given topic data and a writer with the given
/// topic data match: they name the same topic, they name the same type or
/// one of them names every type, and the writer offers what the reader
/// asks for.
pub open spec fn spec_reader_matches_writer(
    reader: crate::discovery::data_types::topic_data::SubscriptionBuiltinTopicData,
    writer: crate::discovery::data_types::topic_data::PublicationBuiltinTopicData,
) -> bool {
    &&& reader.topic_name@ == writer.topic_name@
    &&& (reader.data_type_name@ == writer.data_type_name@ || spec_is_wildcard(
        reader.data_type_name@,
    ) || spec_is_wildcard(writer.data_type_name@))
    &&& writer.spec_qos().spec_offer_satisfies(&reader.spec_qos())
}

/// Whether a type name stands for every type: it is a single asterisk.
pub fn is_wildcard(name: &String) -> (b: bool)
    ensures
        b == spec_is_wildcard(name@),
{
    let bytes = name.as_str().as_bytes();
    let b = bytes.len() == 1 && bytes[0] == 0x2a;
    proof {
        if b {
            assert(bytes@ =~= seq![0x2au8]);
        } else if bytes@.len() == 1 {
            assert(seq![0x2au8][0] == 0x2au8);
        }
    }
    b
}

/// Decides whether a reader and a writer match.
pub fn reader_matches_writer(
    reader: &crate::discovery::data_types::topic_data::SubscriptionBuiltinTopicData,
    writer: &crate::discovery::data_types::topic_data::PublicationBuiltinTopicData,
) -> (b: bool)
    ensures
        b == spec_reader_matches_writer(*reader, *writer),
{
    reader.topic_name == writer.topic_name && (reader.data_type_name == writer.data_type_name
        || is_wildcard(&reader.data_type_name) || is_wildcard(&writer.data_type_name))
        && writer.qos().offer_satisfies(&reader.qos())
}

/// Whether more than a third of `lease` has passed from `last` to `now`.
pub fn assertion_due(last: Timestamp, now: Timestamp, lease: Duration) -> (due: bool)
    ensures
        due == spec_assertion_due(last, now, Some(lease.ticks())),
{
    let from: i128 = (last.seconds as i128) * 0x1_0000_0000i128 + (last.fraction as i128);
    let to: i128 = (now.seconds as i128) * 0x1_0000_0000i128 + (now.fraction as i128);
    let span: i128 = (lease.seconds as i128) * 0x1_0000_0000i128 + (lease.fraction as i128);
    3 * (to - from) > span
}

} // verus!
