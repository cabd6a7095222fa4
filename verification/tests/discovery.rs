use rustdds::dds::readcondition::ReadCondition;
use rustdds::dds::traits::key::Key;
use rustdds::dds::traits::key::KeyHash;
use rustdds::dds::traits::key::Keyed;
use rustdds::dds::with_key::datareader::DataReader;
use rustdds::dds::qos::policy::Durability;
use rustdds::dds::qos::policy::History;
use rustdds::dds::qos::policy::Liveliness;
use rustdds::dds::qos::policy::Ownership;
use rustdds::dds::qos::policy::Reliability;
use rustdds::dds::qos::QosPolicies;
use rustdds::dds::qos::QosPolicyBuilder;
use rustdds::discovery::data_types::spdp_participant_data::SpdpDiscoveredParticipantData;
use rustdds::discovery::data_types::spdp_participant_data::SpdpDiscoveredParticipantDataKey;
use rustdds::discovery::data_types::topic_data::DiscoveredReaderData;
use rustdds::discovery::data_types::topic_data::DiscoveredReaderDataKey;
use rustdds::discovery::data_types::topic_data::DiscoveredTopicData;
use rustdds::discovery::data_types::topic_data::DiscoveredWriterData;
use rustdds::discovery::data_types::topic_data::DiscoveredWriterDataKey;
use rustdds::discovery::data_types::topic_data::ParticipantMessageData;
use rustdds::discovery::data_types::topic_data::ParticipantMessageDataKind;
use rustdds::discovery::data_types::topic_data::PublicationBuiltinTopicData;
use rustdds::discovery::data_types::topic_data::ReaderProxy;
use rustdds::discovery::data_types::topic_data::SubscriptionBuiltinTopicData;
use rustdds::discovery::data_types::topic_data::TopicBuiltinTopicData;
use rustdds::discovery::data_types::topic_data::WriterProxy;
use rustdds::discovery::discovery::is_discovery_reader;
use rustdds::discovery::discovery::is_discovery_writer;
use rustdds::discovery::discovery::is_wildcard;
use rustdds::discovery::discovery::reader_matches_writer;
use rustdds::discovery::discovery::Discovery;
use rustdds::discovery::discovery::DiscoveryAction;
use rustdds::discovery::discovery::DiscoveryCommand;
use rustdds::discovery::discovery::DiscoveryNotificationType;
use rustdds::discovery::discovery::DiscoveryToken;
use rustdds::discovery::discovery::LivelinessState;
use rustdds::discovery::discovery_db::DiscoveryDB;
use rustdds::messages::protocol_version::ProtocolVersion;
use rustdds::messages::vendor_id::VendorId;
use rustdds::structure::builtin_endpoint::BuiltinEndpointSet;
use rustdds::structure::duration::Duration;
use rustdds::structure::guid::EntityId;
use rustdds::structure::guid::GuidPrefix;
use rustdds::structure::guid::GUID;
use rustdds::structure::locator::Locator;
use rustdds::structure::time::Timestamp;

fn prefix(n: u32) -> GuidPrefix {
    GuidPrefix { host_id: n, app_id: 0, instance_id: 0 }
}

fn guid(p: u32, entity: u32) -> GUID {
    GUID { guid_prefix: prefix(p), entity_id: EntityId { value: entity } }
}

fn at(seconds: u32) -> Timestamp {
    Timestamp { seconds, fraction: 0 }
}

fn participant(p: u32, lease: Option<Duration>) -> SpdpDiscoveredParticipantData {
    SpdpDiscoveredParticipantData {
        updated_time: Timestamp::zero(),
        protocol_version: ProtocolVersion::protocolversion_2_3(),
        vendor_id: VendorId::this_implementation(),
        expects_inline_qos: false,
        participant_guid: guid(p, 0x1c1),
        metatraffic_unicast_locators: vec![],
        metatraffic_multicast_locators: vec![],
        default_unicast_locators: vec![Locator::udpv4(10, 0, 0, p as u8, 7411)],
        default_multicast_locators: vec![Locator::udpv4(239, 255, 0, 1, 7401)],
        available_builtin_endpoints: BuiltinEndpointSet { value: 0x3f },
        lease_duration: lease,
        manual_liveliness_count: 0,
        builtin_endpoint_qos: None,
        entity_name: None,
    }
}

fn reader_data(p: u32, entity: u32, topic: &str, qos: &QosPolicies) -> DiscoveredReaderData {
    DiscoveredReaderData {
        reader_proxy: ReaderProxy::new(guid(p, entity)),
        subscription_topic_data: SubscriptionBuiltinTopicData::new(
            guid(p, entity),
            topic.to_string(),
            "ShapeType".to_string(),
            qos,
        ),
        content_filter: None,
    }
}

fn writer(p: u32, entity: u32, topic: &str, liveliness: Option<Liveliness>) -> DiscoveredWriterData {
    let mut data = PublicationBuiltinTopicData::new(
        guid(p, entity),
        guid(p, 0x1c1),
        topic.to_string(),
        "ShapeType".to_string(),
    );
    data.liveliness = liveliness;
    DiscoveredWriterData {
        last_updated: Timestamp::zero(),
        writer_proxy: WriterProxy::new(guid(p, entity), vec![], vec![]),
        publication_topic_data: data,
    }
}

fn describe(actions: &[DiscoveryAction]) -> Vec<String> {
    actions
        .iter()
        .map(|a| match a {
            DiscoveryAction::DrainCommands => "drain".to_string(),
            DiscoveryAction::ReadParticipants => "read participants".to_string(),
            DiscoveryAction::ReadSubscriptions { read_history } => format!("read subscriptions {:?}", read_history.map(|p| p.host_id)),
            DiscoveryAction::ReadPublications { read_history } => format!("read publications {:?}", read_history.map(|p| p.host_id)),
            DiscoveryAction::ReadTopics { read_history } => format!("read topics {:?}", read_history.map(|p| p.host_id)),
            DiscoveryAction::ReadParticipantMessages => "read messages".to_string(),
            DiscoveryAction::AnnounceParticipant { lease_duration } => format!("announce participant {}", lease_duration.seconds),
            DiscoveryAction::AnnounceReader { position } => format!("announce reader {}", position),
            DiscoveryAction::AnnounceWriter { position } => format!("announce writer {}", position),
            DiscoveryAction::AnnounceTopic { position } => format!("announce topic {}", position),
            DiscoveryAction::DisposeParticipant { participant_key } => format!("dispose participant {}", participant_key.0.guid_prefix.host_id),
            DiscoveryAction::DisposeReader { reader_key } => format!("dispose reader {:x}", reader_key.0.entity_id.value),
            DiscoveryAction::DisposeWriter { writer_key } => format!("dispose writer {:x}", writer_key.0.entity_id.value),
            DiscoveryAction::WriteParticipantMessage { kind } => format!("message {:?}", kind),
            DiscoveryAction::Notify { notification } => match notification {
                DiscoveryNotificationType::ReaderUpdated { discovered_reader_data, rtps_reader_proxy, needs_new_cache_change } => format!(
                    "reader updated {:x} reliable={} new={}",
                    discovered_reader_data.reader_proxy.remote_reader_guid.entity_id.value,
                    rtps_reader_proxy.is_reliable,
                    needs_new_cache_change
                ),
                DiscoveryNotificationType::ReaderLost { reader_guid } => format!("reader lost {:x}", reader_guid.entity_id.value),
                DiscoveryNotificationType::WriterUpdated { discovered_writer_data } => format!(
                    "writer updated {:x}",
                    discovered_writer_data.writer_proxy.remote_writer_guid.entity_id.value
                ),
                DiscoveryNotificationType::WriterLost { writer_guid } => format!("writer lost {:x}", writer_guid.entity_id.value),
                DiscoveryNotificationType::ParticipantUpdated { guid_prefix } => format!("participant updated {}", guid_prefix.host_id),
                DiscoveryNotificationType::ParticipantLost { guid_prefix } => format!("participant lost {}", guid_prefix.host_id),
                DiscoveryNotificationType::TopicsInfoUpdated => "topics updated".to_string(),
                DiscoveryNotificationType::AssertTopicLiveliness { writer_guid, manual_assertion } => {
                    format!("assert liveliness {:x} {}", writer_guid.entity_id.value, manual_assertion)
                }
            },
            DiscoveryAction::SetTimer { token, seconds } => format!("timer {:?} {}", token, seconds),
            DiscoveryAction::Stop => "stop".to_string(),
        })
        .collect()
}

#[test]
fn update_participant_tells_whether_the_participant_is_new() {
    let mut db = DiscoveryDB::new();
    assert!(db.update_participant(participant(1, None), at(10)));
    assert!(!db.update_participant(participant(1, None), at(11)));
    assert!(db.update_participant(participant(2, None), at(11)));
    db.remove_participant(prefix(1));
    assert!(db.update_participant(participant(1, None), at(12)));
}

#[test]
fn two_participants_find_each_other() {
    // what each participant does on the announcement of the other
    let mut first = DiscoveryDB::new();
    let mut second = DiscoveryDB::new();
    first.update_participant(participant(1, None), at(0));
    second.update_participant(participant(2, None), at(0));
    let actions = Discovery::handle_participant_reader(Ok(participant(2, None)), &mut first, at(1));
    assert_eq!(
        describe(&actions),
        vec!["participant updated 2", "read topics Some(2)", "read subscriptions Some(2)", "read publications Some(2)"]
    );
    let actions = Discovery::handle_participant_reader(Ok(participant(1, None)), &mut second, at(1));
    assert_eq!(actions.len(), 4);
    // each registry now holds both, and a further announcement is a refresh
    for db in [&mut first, &mut second] {
        assert!(!db.update_participant(participant(1, None), at(2)));
        assert!(!db.update_participant(participant(2, None), at(2)));
    }
    let again = Discovery::handle_participant_reader(Ok(participant(2, None)), &mut first, at(3));
    assert_eq!(describe(&again), vec!["participant updated 2"]);
    // a reader of the second participant gets a proxy at the first, with the
    // default locators of its participant
    let reliable = QosPolicyBuilder::new()
        .reliability(Reliability::Reliable { max_blocking_time: Duration::zero() })
        .build();
    let (record, proxy) = first.update_subscription(reader_data(2, 0x107, "Square", &reliable)).unwrap();
    assert_eq!(record.reader_proxy.remote_reader_guid, guid(2, 0x107));
    assert_eq!(proxy.remote_reader_guid, guid(2, 0x107));
    assert!(proxy.is_reliable);
    assert_eq!(proxy.unicast_locator_list, vec![Locator::udpv4(10, 0, 0, 2, 7411)]);
    assert_eq!(proxy.multicast_locator_list, vec![Locator::udpv4(239, 255, 0, 1, 7401)]);
}

#[test]
fn a_participant_whose_lease_ran_out_is_evicted() {
    let mut db = DiscoveryDB::new();
    db.update_participant(participant(1, Some(Duration::from_secs(10))), at(100));
    db.update_participant(participant(2, Some(Duration::from_secs(50))), at(100));
    db.update_participant(participant(3, None), at(100));
    assert!(db.participant_cleanup(at(110)).is_empty());
    assert_eq!(db.participant_cleanup(at(111)), vec![prefix(1)]);
    assert!(db.participant_cleanup(at(111)).is_empty());
    assert!(db.update_participant(participant(1, Some(Duration::from_secs(10))), at(111)));
    // a sign of life extends the lease
    assert!(db.update_lease_duration(prefix(2), at(149)));
    assert!(!db.update_lease_duration(prefix(9), at(149)));
    assert_eq!(db.participant_cleanup(at(151)), vec![prefix(1)]);
    let mut both = db.participant_cleanup(at(1000));
    both.sort();
    assert_eq!(both, vec![prefix(2), prefix(3)]);
}

#[test]
fn the_default_lease_is_a_hundred_seconds() {
    let mut db = DiscoveryDB::new();
    db.update_participant(participant(3, None), at(100));
    assert!(db.participant_cleanup(at(200)).is_empty());
    assert_eq!(db.participant_cleanup(Timestamp { seconds: 200, fraction: 1 }), vec![prefix(3)]);
}

#[test]
fn the_cleanup_timer_reports_the_lost_and_is_armed_again() {
    let mut db = DiscoveryDB::new();
    let mut discovery = Discovery::new(guid(1, 0x1c1), at(0));
    db.update_participant(participant(5, Some(Duration::from_secs(10))), at(0));
    db.update_participant(participant(6, Some(Duration::infinite())), at(0));
    let actions = discovery.handle_token(DiscoveryToken::ParticipantCleanup, &mut db, at(12));
    assert_eq!(actions.len(), 2);
    assert_eq!(describe(&actions), vec!["participant lost 5", "timer ParticipantCleanup 2"]);
    let actions = discovery.handle_token(DiscoveryToken::ParticipantCleanup, &mut db, at(1_000_000));
    assert_eq!(describe(&actions), vec!["timer ParticipantCleanup 2"]);
}

#[test]
fn each_token_has_its_actions() {
    let mut db = DiscoveryDB::new();
    let mut discovery = Discovery::new(guid(1, 0x1c1), at(0));
    let mut actions_of = |token| describe(&discovery.handle_token(token, &mut db, at(1)));
    assert_eq!(actions_of(DiscoveryToken::Command), vec!["drain"]);
    assert_eq!(actions_of(DiscoveryToken::ParticipantData), vec!["read participants"]);
    assert_eq!(actions_of(DiscoveryToken::ReaderData), vec!["read subscriptions None"]);
    assert_eq!(actions_of(DiscoveryToken::WriterData), vec!["read publications None"]);
    assert_eq!(actions_of(DiscoveryToken::TopicData), vec!["read topics None"]);
    assert_eq!(actions_of(DiscoveryToken::ParticipantMessage), vec!["read messages"]);
    assert_eq!(
        actions_of(DiscoveryToken::SendParticipantInfo),
        vec!["announce participant 10", "timer SendParticipantInfo 2"]
    );
    assert_eq!(actions_of(DiscoveryToken::SendTopicInfo), vec!["timer SendTopicInfo 20"]);
    assert_eq!(actions_of(DiscoveryToken::TopicCleanup), vec!["timer TopicCleanup 10"]);
    assert_eq!(actions_of(DiscoveryToken::SendReadersInfo), vec!["timer SendReadersInfo 2"]);
    assert_eq!(actions_of(DiscoveryToken::SendWritersInfo), vec!["timer SendWritersInfo 2"]);
    assert_eq!(actions_of(DiscoveryToken::ParticipantMessageTimer), vec!["timer ParticipantMessageTimer 1"]);
    assert!(actions_of(DiscoveryToken::Other).is_empty());
    assert_eq!(
        Discovery::timers(),
        vec![
            (DiscoveryToken::ParticipantCleanup, 2),
            (DiscoveryToken::SendParticipantInfo, 2),
            (DiscoveryToken::SendReadersInfo, 2),
            (DiscoveryToken::SendWritersInfo, 2),
            (DiscoveryToken::SendTopicInfo, 20),
            (DiscoveryToken::TopicCleanup, 10),
            (DiscoveryToken::ParticipantMessageTimer, 1),
        ]
    );
}

#[test]
fn own_endpoints_are_announced_once_after_a_change_but_not_those_of_discovery() {
    let mut db = DiscoveryDB::new();
    let mut discovery = Discovery::new(guid(1, 0x1c1), at(0));
    let qos = QosPolicies::qos_none();
    db.update_local_topic_reader(reader_data(1, EntityId::sedp_builtin_subscriptions_reader().value, "DCPSSubscription", &qos));
    db.update_local_topic_reader(reader_data(1, 0x107, "Square", &qos));
    db.update_local_topic_writer(writer(1, EntityId::spdp_builtin_participant_writer().value, "DCPSParticipant", None));
    db.update_local_topic_writer(writer(1, 0x102, "Square", None));
    db.update_local_topic_writer(writer(1, 0x202, "Circle", None));
    assert!(db.is_readers_updated());
    let actions = discovery.handle_token(DiscoveryToken::SendReadersInfo, &mut db, at(1));
    assert_eq!(describe(&actions), vec!["announce reader 1", "timer SendReadersInfo 2"]);
    assert_eq!(db.local_reader_at(1).reader_proxy.remote_reader_guid, guid(1, 0x107));
    assert!(!db.is_readers_updated());
    let actions = discovery.handle_token(DiscoveryToken::SendReadersInfo, &mut db, at(2));
    assert_eq!(describe(&actions), vec!["timer SendReadersInfo 2"]);
    let actions = discovery.handle_token(DiscoveryToken::SendWritersInfo, &mut db, at(1));
    assert_eq!(describe(&actions), vec!["announce writer 1", "announce writer 2", "timer SendWritersInfo 2"]);
    assert!(!db.is_writers_updated());
    assert!(is_discovery_reader(EntityId::sedp_builtin_topic_reader()));
    assert!(is_discovery_reader(EntityId::p2p_builtin_participant_message_reader()));
    assert!(!is_discovery_reader(EntityId { value: 0x107 }));
    assert!(is_discovery_writer(EntityId::sedp_builtin_publications_writer()));
    assert!(!is_discovery_writer(EntityId::sedp_builtin_publications_reader()));
}

#[test]
fn commands() {
    let mut db = DiscoveryDB::new();
    let mut discovery = Discovery::new(guid(1, 0x1c1), at(0));
    let publications = guid(1, EntityId::sedp_builtin_publications_writer().value);
    let subscriptions = guid(1, EntityId::sedp_builtin_subscriptions_writer().value);
    let qos = QosPolicies::qos_none();
    db.update_local_topic_reader(reader_data(1, 0x107, "Square", &qos));
    db.update_local_topic_reader(reader_data(1, 0x207, "Circle", &qos));
    db.update_local_topic_writer(writer(1, 0x102, "Square", None));
    let run = |command, db: &mut DiscoveryDB, d: &mut Discovery| {
        describe(&d.handle_command(command, publications, subscriptions, db, at(5)))
    };
    assert_eq!(
        run(DiscoveryCommand::ASSERT_TOPIC_LIVELINESS { writer_guid: guid(1, 0x102), manual_assertion: true }, &mut db, &mut discovery),
        vec!["assert liveliness 102 true"]
    );
    assert!(run(DiscoveryCommand::MANUAL_ASSERT_LIVELINESS, &mut db, &mut discovery).is_empty());
    assert_eq!(
        discovery.get_liveliness_state(),
        LivelinessState { last_auto_update: at(0), last_manual_participant_update: at(5) }
    );
    assert!(run(DiscoveryCommand::REMOVE_LOCAL_WRITER { guid: publications }, &mut db, &mut discovery).is_empty());
    assert!(run(DiscoveryCommand::REMOVE_LOCAL_READER { guid: subscriptions }, &mut db, &mut discovery).is_empty());
    assert_eq!(
        run(DiscoveryCommand::STOP_DISCOVERY, &mut db, &mut discovery),
        vec!["dispose reader 107", "dispose reader 207", "dispose writer 102", "dispose participant 1", "stop"]
    );
    assert_eq!(
        run(DiscoveryCommand::REMOVE_LOCAL_READER { guid: guid(1, 0x107) }, &mut db, &mut discovery),
        vec!["dispose reader 107"]
    );
    assert_eq!(db.local_reader_count(), 1);
    assert_eq!(
        run(DiscoveryCommand::REMOVE_LOCAL_WRITER { guid: guid(1, 0x102) }, &mut db, &mut discovery),
        vec!["dispose writer 102"]
    );
    assert_eq!(db.local_writer_count(), 0);
    assert_eq!(run(DiscoveryCommand::STOP_DISCOVERY, &mut db, &mut discovery), vec!["dispose reader 207", "dispose participant 1", "stop"]);
    assert_eq!(discovery.get_participant_guid(), guid(1, 0x1c1));
}

#[test]
fn subscriptions_are_reported_when_they_change() {
    let mut db = DiscoveryDB::new();
    let qos = QosPolicies::qos_none();
    let actions = Discovery::handle_subscription_reader(None, Ok(reader_data(2, 0x107, "Square", &qos)), &mut db, at(1));
    assert_eq!(describe(&actions), vec!["reader updated 107 reliable=false new=true"]);
    assert_eq!(db.topic_count(), 1);
    assert_eq!(db.topic_at(0).topic_data.name, "Square");
    let actions = Discovery::handle_subscription_reader(None, Ok(reader_data(2, 0x107, "Square", &qos)), &mut db, at(2));
    assert!(actions.is_empty());
    let changed = QosPolicyBuilder::new().durability(Durability::TransientLocal).build();
    let actions = Discovery::handle_subscription_reader(None, Ok(reader_data(2, 0x107, "Square", &changed)), &mut db, at(3));
    assert_eq!(actions.len(), 1);
    // only the announcements of the participant asked for are looked at
    let actions = Discovery::handle_subscription_reader(Some(prefix(3)), Ok(reader_data(2, 0x207, "Circle", &qos)), &mut db, at(4));
    assert!(actions.is_empty());
    assert_eq!(db.topic_count(), 1);
    let actions = Discovery::handle_subscription_reader(Some(prefix(2)), Ok(reader_data(2, 0x207, "Circle", &qos)), &mut db, at(4));
    assert_eq!(actions.len(), 1);
    assert_eq!(db.topic_count(), 2);
    let actions = Discovery::handle_subscription_reader(None, Err(DiscoveredReaderDataKey(guid(2, 0x107))), &mut db, at(5));
    assert_eq!(describe(&actions), vec!["reader lost 107"]);
    assert!(db.update_subscription(reader_data(2, 0x107, "Square", &changed)).is_some());
    assert!(db.update_subscription(reader_data(2, 0x207, "Circle", &qos)).is_none());
}

#[test]
fn publications_are_reported_when_they_change() {
    let mut db = DiscoveryDB::new();
    let actions = Discovery::handle_publication_reader(None, Ok(writer(2, 0x102, "Square", None)), &mut db, at(1));
    assert_eq!(describe(&actions), vec!["writer updated 102"]);
    let actions = Discovery::handle_publication_reader(None, Ok(writer(2, 0x102, "Square", None)), &mut db, at(2));
    assert!(actions.is_empty());
    let lively = Some(Liveliness::Automatic { lease_duration: Duration::from_secs(1) });
    let actions = Discovery::handle_publication_reader(None, Ok(writer(2, 0x102, "Square", lively)), &mut db, at(3));
    assert_eq!(actions.len(), 1);
    let actions = Discovery::handle_publication_reader(Some(prefix(7)), Ok(writer(2, 0x202, "Circle", None)), &mut db, at(4));
    assert!(actions.is_empty());
    let actions = Discovery::handle_publication_reader(None, Err(DiscoveredWriterDataKey(guid(2, 0x102))), &mut db, at(5));
    assert_eq!(describe(&actions), vec!["writer lost 102"]);
    assert!(db.update_publication(writer(2, 0x102, "Square", None)).is_some());
    db.remove_topic_writer(guid(2, 0x102));
    db.remove_topic_reader(guid(2, 0x102));
    assert!(db.update_publication(writer(2, 0x102, "Square", None)).is_some());
}

#[test]
fn a_disposed_participant_is_lost() {
    let mut db = DiscoveryDB::new();
    db.update_participant(participant(4, None), at(0));
    let actions = Discovery::handle_participant_reader(Err(SpdpDiscoveredParticipantDataKey(guid(4, 0x1c1))), &mut db, at(1));
    assert_eq!(describe(&actions), vec!["participant lost 4"]);
    assert!(db.update_participant(participant(4, None), at(2)));
}

fn topic(name: &str, history: Option<History>) -> DiscoveredTopicData {
    let qos = QosPolicies { history, ..QosPolicies::qos_none() };
    DiscoveredTopicData::new(at(0), TopicBuiltinTopicData::new(None, name.to_string(), "ShapeType".to_string(), &qos))
}

#[test]
fn topics_are_recorded_and_cleaned() {
    let mut db = DiscoveryDB::new();
    assert_eq!(describe(&Discovery::handle_topic_reader(topic("Square", None), &mut db)), vec!["topics updated"]);
    assert!(Discovery::handle_topic_reader(topic("Square", None), &mut db).is_empty());
    assert_eq!(
        Discovery::handle_topic_reader(topic("Square", Some(History::KeepAll)), &mut db).len(),
        1
    );
    assert!(db.update_topic_data(topic("Circle", None)));
    assert!(db.update_topic_data(topic("Triangle", None)));
    assert_eq!(db.topic_count(), 3);
    assert_eq!(db.find_topic(&"Circle".to_string()), Some(1));
    db.update_local_topic_reader(reader_data(1, 0x107, "Circle", &QosPolicies::qos_none()));
    db.update_local_topic_writer(writer(1, 0x102, "Triangle", None));
    assert!(db.is_topic_in_use(&"Circle".to_string()));
    assert!(db.is_topic_in_use(&"Triangle".to_string()));
    assert!(!db.is_topic_in_use(&"Square".to_string()));
    let mut discovery = Discovery::new(guid(1, 0x1c1), at(0));
    discovery.handle_token(DiscoveryToken::TopicCleanup, &mut db, at(1));
    assert_eq!(db.topic_count(), 2);
    assert_eq!(db.find_topic(&"Square".to_string()), None);
    assert_eq!(db.topic_at(0).topic_data.name, "Circle");
    db.remove_local_topic_reader(guid(1, 0x107));
    db.remove_local_topic_writer(guid(1, 0x102));
    db.topic_cleanup();
    assert_eq!(db.topic_count(), 0);
}

#[test]
fn liveliness_is_asserted_after_a_third_of_the_least_lease() {
    let mut db = DiscoveryDB::new();
    let lease = |s| Duration::from_secs(s);
    db.update_local_topic_writer(writer(1, 0x102, "A", Some(Liveliness::Automatic { lease_duration: lease(30) })));
    db.update_local_topic_writer(writer(1, 0x202, "B", Some(Liveliness::Automatic { lease_duration: lease(9) })));
    db.update_local_topic_writer(writer(1, 0x302, "C", Some(Liveliness::ManualByParticipant { lease_duration: lease(60) })));
    db.update_local_topic_writer(writer(1, 0x402, "D", Some(Liveliness::ManualByTopic { lease_duration: lease(1) })));
    db.update_local_topic_writer(writer(1, 0x502, "E", None));
    assert_eq!(Discovery::min_lease(&db, 0), Some(lease(9)));
    assert_eq!(Discovery::min_lease(&db, 1), Some(lease(60)));
    assert_eq!(Discovery::min_lease(&db, 2), Some(lease(1)));
    let mut discovery = Discovery::new(guid(1, 0x1c1), at(100));
    assert!(discovery.write_participant_message(&db, at(103)).is_empty());
    assert_eq!(
        discovery.write_participant_message(&db, Timestamp { seconds: 103, fraction: 1 }),
        vec![ParticipantMessageDataKind::AutomaticLivelinessUpdate]
    );
    assert_eq!(discovery.get_liveliness_state().last_auto_update, Timestamp { seconds: 103, fraction: 1 });
    assert!(discovery.write_participant_message(&db, at(106)).is_empty());
    // the manual assertion is due after more than twenty seconds, and stays
    // due until the application asserts
    let actions = discovery.handle_token(DiscoveryToken::ParticipantMessageTimer, &mut db, at(121));
    assert_eq!(
        describe(&actions),
        vec!["message AutomaticLivelinessUpdate", "message ManualLivelinessUpdate", "timer ParticipantMessageTimer 1"]
    );
    assert_eq!(
        discovery.write_participant_message(&db, at(122)),
        vec![ParticipantMessageDataKind::ManualLivelinessUpdate]
    );
    let publications = guid(1, 0x4c2);
    discovery.handle_command(DiscoveryCommand::MANUAL_ASSERT_LIVELINESS, publications, publications, &mut db, at(122));
    assert!(discovery.write_participant_message(&db, at(123)).is_empty());
    assert!(Discovery::new(guid(1, 0x1c1), at(0)).write_participant_message(&DiscoveryDB::new(), at(1000)).is_empty());
}

#[test]
fn a_liveliness_message_refreshes_its_participant() {
    let mut db = DiscoveryDB::new();
    db.update_participant(participant(2, Some(Duration::from_secs(10))), at(0));
    let message = ParticipantMessageData {
        guid: prefix(2),
        kind: ParticipantMessageDataKind::AutomaticLivelinessUpdate,
        data: vec![],
    };
    Discovery::handle_participant_message_reader(&message, &mut db, at(8));
    assert!(db.participant_cleanup(at(15)).is_empty());
    assert_eq!(db.participant_cleanup(at(19)), vec![prefix(2)]);
}

#[test]
fn the_participant_is_initialized_with_its_own_endpoints() {
    let mut db = DiscoveryDB::new();
    let discovery = Discovery::new(guid(1, 0x1c1), at(0));
    let multicast = vec![Locator::udpv4(239, 255, 0, 1, 7400)];
    let unicast = vec![Locator::udpv4(127, 0, 0, 1, 7410)];
    let actions = discovery.initialize_participant(participant(1, Some(Duration::infinite())), &multicast, &unicast, &mut db, at(1));
    assert_eq!(
        describe(&actions),
        vec!["participant updated 1", "reader updated 1c1 reliable=false new=true", "writer updated 1c2"]
    );
    match &actions[1] {
        DiscoveryAction::Notify {
            notification: DiscoveryNotificationType::ReaderUpdated { rtps_reader_proxy, discovered_reader_data, .. },
        } => {
            assert_eq!(rtps_reader_proxy.remote_reader_guid.guid_prefix, GuidPrefix::unknown());
            assert_eq!(rtps_reader_proxy.multicast_locator_list, multicast);
            assert!(rtps_reader_proxy.unicast_locator_list.is_empty());
            assert_eq!(discovered_reader_data.subscription_topic_data.topic_name, "DCPSParticipant");
            assert_eq!(discovered_reader_data.subscription_topic_data.data_type_name, "SPDPDiscoveredParticipantData");
            assert_eq!(discovered_reader_data.subscription_topic_data.reliability, Some(Reliability::BestEffort));
        }
        _ => panic!("the second action reports the reader"),
    }
    match &actions[2] {
        DiscoveryAction::Notify { notification: DiscoveryNotificationType::WriterUpdated { discovered_writer_data } } => {
            assert_eq!(discovered_writer_data.writer_proxy.remote_writer_guid.guid_prefix, prefix(1));
            assert_eq!(discovered_writer_data.writer_proxy.unicast_locator_list, unicast);
            assert_eq!(discovered_writer_data.writer_proxy.multicast_locator_list, multicast);
            assert_eq!(discovered_writer_data.publication_topic_data.participant_key, Some(guid(1, 0x1c1)));
            assert_eq!(discovered_writer_data.last_updated, at(1));
        }
        _ => panic!("the third action reports the writer"),
    }
    assert!(!db.update_participant(participant(1, None), at(2)));
}

#[test]
fn the_builtin_endpoints() {
    let endpoints = Discovery::builtin_endpoints();
    let names: Vec<(&str, &str)> =
        endpoints.iter().map(|e| (e.topic_name.as_str(), e.data_type_name.as_str())).collect();
    assert_eq!(
        names,
        vec![
            ("DCPSParticipant", "SPDPDiscoveredParticipantData"),
            ("DCPSSubscription", "DiscoveredReaderData"),
            ("DCPSPublication", "DiscoveredWriterData"),
            ("DCPSTopic", "DiscoveredTopicData"),
            ("DCPSParticipantMessage", "ParticipantMessageData"),
        ]
    );
    assert_eq!(endpoints[0].qos.reliability, Some(Reliability::BestEffort));
    assert_eq!(endpoints[0].qos.history, Some(History::KeepLast { depth: 1 }));
    assert_eq!(endpoints[0].reader_id, EntityId::spdp_builtin_participant_reader());
    assert_eq!(endpoints[1].writer_id, EntityId::sedp_builtin_subscriptions_writer());
    assert_eq!(endpoints[2].reader_token, DiscoveryToken::WriterData);
    assert_eq!(endpoints[3].qos, QosPolicies::qos_none());
    assert_eq!(endpoints[4].qos, Discovery::participant_message_qos());
    for e in &endpoints[1..3] {
        assert_eq!(e.qos, Discovery::subscriber_qos());
        assert_eq!(
            e.qos.reliability,
            Some(Reliability::Reliable { max_blocking_time: Duration::from_millis(100) })
        );
        assert_eq!(e.qos.history, Some(History::KeepLast { depth: 10 }));
        assert_eq!(e.qos.durability, Some(Durability::TransientLocal));
    }
    assert_eq!(Discovery::publisher_qos(), Discovery::subscriber_qos());
    assert_eq!(Discovery::create_spdp_patricipant_qos(), endpoints[0].qos);
    assert_eq!(LivelinessState::new(at(3)).last_auto_update, at(3));
}

#[test]
fn readers_and_writers_match_by_topic_type_and_policies() {
    let none = QosPolicies::qos_none();
    let reliable = QosPolicyBuilder::new().reliability(Reliability::Reliable { max_blocking_time: Duration::zero() }).build();
    let best_effort = QosPolicyBuilder::new().reliability(Reliability::BestEffort).build();
    let sub = |topic: &str, data_type: &str, qos: &QosPolicies| {
        SubscriptionBuiltinTopicData::new(guid(1, 0x107), topic.to_string(), data_type.to_string(), qos)
    };
    let publication = |topic: &str, data_type: &str, qos: &QosPolicies| {
        let mut p = PublicationBuiltinTopicData::new(guid(2, 0x102), guid(2, 0x1c1), topic.to_string(), data_type.to_string());
        p.reliability = qos.reliability;
        p.durability = qos.durability;
        p.ownership = qos.ownership;
        p
    };
    assert!(reader_matches_writer(&sub("Square", "ShapeType", &none), &publication("Square", "ShapeType", &none)));
    assert!(!reader_matches_writer(&sub("Square", "ShapeType", &none), &publication("Circle", "ShapeType", &none)));
    assert!(!reader_matches_writer(&sub("Square", "ShapeType", &none), &publication("Square", "Other", &none)));
    assert!(reader_matches_writer(&sub("Square", "*", &none), &publication("Square", "Other", &none)));
    assert!(reader_matches_writer(&sub("Square", "ShapeType", &none), &publication("Square", "*", &none)));
    assert!(is_wildcard(&"*".to_string()));
    assert!(!is_wildcard(&"**".to_string()));
    assert!(!is_wildcard(&"".to_string()));
    // a reader may not ask for more than the writer offers
    assert!(reader_matches_writer(&sub("Square", "ShapeType", &best_effort), &publication("Square", "ShapeType", &reliable)));
    assert!(!reader_matches_writer(&sub("Square", "ShapeType", &reliable), &publication("Square", "ShapeType", &best_effort)));
    assert!(reader_matches_writer(&sub("Square", "ShapeType", &reliable), &publication("Square", "ShapeType", &reliable)));
    let transient = QosPolicyBuilder::new().durability(Durability::TransientLocal).build();
    assert!(transient.offer_satisfies(&none));
    assert!(!none.offer_satisfies(&transient));
    let exclusive = QosPolicyBuilder::new().ownership(Ownership::Exclusive { strength: 1 }).build();
    assert!(!exclusive.offer_satisfies(&none));
    assert!(exclusive.offer_satisfies(&QosPolicyBuilder::new().ownership(Ownership::Exclusive { strength: 5 }).build()));
    let quick = QosPolicyBuilder::new().liveliness(Liveliness::Automatic { lease_duration: Duration::from_secs(1) }).build();
    let slow = QosPolicyBuilder::new().liveliness(Liveliness::Automatic { lease_duration: Duration::from_secs(5) }).build();
    assert!(quick.offer_satisfies(&slow));
    assert!(!slow.offer_satisfies(&quick));
    assert_eq!(none.modify_by(&reliable), reliable);
    assert_eq!(reliable.modify_by(&none), reliable);
    assert_eq!(reliable.modify_by(&best_effort), best_effort);
}

#[test]
fn the_timers_do_their_work_one_by_one() {
    let mut db = DiscoveryDB::new();
    let qos = QosPolicies::qos_none();
    db.update_topic_data(topic("Square", None));
    db.update_topic_data(topic("Circle", None));
    assert_eq!(describe(&Discovery::write_topic_info(&db)), vec!["announce topic 0", "announce topic 1"]);
    let mut discovery = Discovery::new(guid(1, 0x1c1), at(0));
    assert_eq!(
        describe(&discovery.handle_token(DiscoveryToken::SendTopicInfo, &mut db, at(1))),
        vec!["announce topic 0", "announce topic 1", "timer SendTopicInfo 20"]
    );
    assert!(!Discovery::read_readers_info(&mut db));
    assert!(!Discovery::read_writers_info(&mut db));
    db.update_local_topic_reader(reader_data(1, 0x107, "Square", &qos));
    db.update_local_topic_reader(reader_data(1, EntityId::sedp_builtin_topic_reader().value, "DCPSTopic", &qos));
    db.update_local_topic_writer(writer(1, 0x102, "Square", None));
    assert!(Discovery::read_readers_info(&mut db));
    assert!(!Discovery::read_readers_info(&mut db));
    assert!(Discovery::read_writers_info(&mut db));
    assert!(!Discovery::read_writers_info(&mut db));
    assert_eq!(describe(&Discovery::write_readers_info(&db)), vec!["announce reader 0"]);
    assert_eq!(describe(&Discovery::write_writers_info(&db)), vec!["announce writer 0"]);
    Discovery::topic_cleanup(&mut db);
    assert_eq!(db.topic_count(), 1);
    assert_eq!(db.topic_at(0).topic_data.name, "Square");
    db.update_participant(participant(7, Some(Duration::from_secs(1))), at(0));
    db.update_participant(participant(8, Some(Duration::from_secs(3))), at(0));
    assert!(Discovery::participant_cleanup(&mut db, at(1)).is_empty());
    assert_eq!(describe(&Discovery::participant_cleanup(&mut db, at(2))), vec!["participant lost 7"]);
    assert_eq!(describe(&Discovery::participant_cleanup(&mut db, at(4))), vec!["participant lost 8"]);
    assert!(Discovery::participant_cleanup(&mut db, at(5)).is_empty());
}

#[test]
fn the_history_of_a_participant_is_read_whole() {
    assert_eq!(Discovery::read_condition_for(Some(prefix(2))), ReadCondition::any());
    assert_eq!(Discovery::read_condition_for(None), ReadCondition::not_read());
    // announcements wait in a data reader, one instance for each endpoint
    let mut reader = DataReader::<DiscoveredReaderData>::new(Discovery::subscriber_qos());
    let qos = QosPolicies::qos_none();
    assert!(reader.receive_sample(Ok(reader_data(2, 0x107, "Square", &qos)), guid(2, 0x3c2), at(1), None));
    assert!(reader.receive_sample(Ok(reader_data(3, 0x107, "Square", &qos)), guid(3, 0x3c2), at(2), None));
    assert!(reader.receive_sample(Ok(reader_data(2, 0x107, "Circle", &qos)), guid(2, 0x3c2), at(3), None));
    assert!(reader.receive_sample(Err(DiscoveredReaderDataKey(guid(3, 0x107))), guid(3, 0x3c2), at(4), None));
    let mut db = DiscoveryDB::new();
    let mut told = Vec::new();
    let samples = reader.read(usize::MAX, Discovery::read_condition_for(None));
    assert_eq!(samples.len(), 4);
    for sample in samples {
        let value = match sample.value() {
            Ok(data) => Ok(data.duplicate()),
            Err(key) => Err(*key),
        };
        told.extend(describe(&Discovery::handle_subscription_reader(None, value, &mut db, at(5))));
    }
    assert_eq!(
        told,
        vec![
            "reader updated 107 reliable=false new=true",
            "reader updated 107 reliable=false new=true",
            "reader updated 107 reliable=false new=true",
            "reader lost 107"
        ]
    );
    assert!(reader.read(usize::MAX, Discovery::read_condition_for(None)).is_empty());
    assert_eq!(reader.read(usize::MAX, Discovery::read_condition_for(Some(prefix(2)))).len(), 4);
    assert_eq!(
        DiscoveredReaderDataKey(guid(2, 0x107)).into_hash_key(),
        KeyHash { value: (2u128 << 96) | 0x107 }
    );
    assert!(DiscoveredReaderDataKey(guid(2, 0x107)).key_lt(&DiscoveredReaderDataKey(guid(2, 0x108))));
    assert!(DiscoveredReaderDataKey(guid(2, 0x107)).key_lt(&DiscoveredReaderDataKey(guid(3, 0))));
    assert!(!guid(3, 0).key_lt(&guid(2, 0x107)));
    assert!(guid(3, 0).key_eq(&guid(3, 0).clone_key()));
    assert_eq!(participant(4, None).get_key(), SpdpDiscoveredParticipantDataKey(guid(4, 0x1c1)));
    assert_eq!(writer(4, 0x102, "Square", None).get_key(), DiscoveredWriterDataKey(guid(4, 0x102)));
}
