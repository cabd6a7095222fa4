use rustdds::dds::no_key::datareader::DataReader as NoKeyDataReader;
use rustdds::dds::qos::policy::History;
use rustdds::dds::qos::QosPolicies;
use rustdds::dds::qos::QosPolicyBuilder;
use rustdds::dds::readcondition::ReadCondition;
use rustdds::dds::sampleinfo::InstanceState;
use rustdds::dds::sampleinfo::SampleState;
use rustdds::dds::sampleinfo::ViewState;
use rustdds::dds::traits::key::Keyed;
use rustdds::dds::with_key::datareader::DataReader;
use rustdds::structure::guid::EntityId;
use rustdds::structure::guid::GuidPrefix;
use rustdds::structure::guid::GUID;
use rustdds::structure::time::Timestamp;
use rustdds::dds::reader::Reader;
use rustdds::dds::rtps_writer_proxy::RtpsWriterProxy;
use rustdds::discovery::discovery::Discovery;
use rustdds::discovery::discovery::DiscoveryAction;
use rustdds::discovery::discovery::DiscoveryNotificationType;
use rustdds::discovery::discovery::DiscoveryToken;
use rustdds::discovery::discovery_db::DiscoveryDB;
use rustdds::structure::duration::Duration;

#[derive(Debug, Clone, PartialEq)]
struct Shape {
    color: String,
    x: i32,
}

impl Keyed for Shape {
    type K = u32;

    fn spec_key(&self) -> u32 {
        self.color.len() as u32
    }

    fn get_key(&self) -> u32 {
        self.color.len() as u32
    }
}

fn shape(color: &str, x: i32) -> Shape {
    Shape { color: color.to_string(), x }
}

fn ts(seconds: u32) -> Timestamp {
    Timestamp { seconds, fraction: 0 }
}

fn writer() -> GUID {
    GUID { guid_prefix: GuidPrefix { host_id: 1, app_id: 2, instance_id: 3 }, entity_id: EntityId { value: 0x102 } }
}

fn keep_all() -> QosPolicies {
    QosPolicyBuilder::new().history(History::KeepAll).build()
}

#[test]
fn a_dispose_is_read_as_one_sample_with_the_key() {
    let mut reader = DataReader::<Shape>::new(QosPolicies::qos_none());
    assert!(reader.receive_sample(Ok(shape("RED", 1)), writer(), ts(1), None));
    assert!(reader.receive_sample(Err(3), writer(), ts(2), None));
    let samples = reader.read(usize::MAX, ReadCondition::any());
    assert_eq!(samples.len(), 1);
    assert_eq!(samples[0].sample_info().instance_state, InstanceState::NotAliveDisposed);
    assert_eq!(samples[0].sample_info().publication_handle, writer());
    assert!(matches!(samples[0].value(), Err(3)));
}

#[test]
fn read_keeps_what_take_removes() {
    let mut reader = DataReader::<Shape>::new(keep_all());
    for i in 1..=4 {
        assert!(reader.receive_sample(Ok(shape("RED", i)), writer(), ts(i as u32), None));
    }
    assert!(!reader.receive_sample(Ok(shape("RED", 9)), writer(), ts(2), None));
    let first_two = reader.read(2, ReadCondition::not_read());
    assert_eq!(first_two.iter().map(|s| s.value().as_ref().ok().unwrap().x).collect::<Vec<_>>(), vec![1, 2]);
    let next = reader.read_next_sample().unwrap();
    assert_eq!(next.value().as_ref().ok().unwrap().x, 3);
    assert_eq!(next.sample_info().sample_state, SampleState::NotRead);
    assert_eq!(next.sample_info().view_state, ViewState::NotNew);
    let taken = reader.take(10, ReadCondition::any());
    assert_eq!(taken.len(), 4);
    assert_eq!(taken[3].sample_info().sample_state, SampleState::NotRead);
    assert_eq!(taken[0].sample_info().sample_state, SampleState::Read);
    assert_eq!(taken[0].sample_info().sample_rank, 3);
    assert!(reader.read(10, ReadCondition::any()).is_empty());
    assert!(reader.read_next_sample().is_none());
    assert!(reader.take_next_sample().is_none());
    assert!(reader.receive_sample(Ok(shape("BLUE", 5)), writer(), ts(9), None));
    let taken = reader.take_next_sample().unwrap();
    assert_eq!(taken.into_value(), Ok(shape("BLUE", 5)));
}

#[test]
fn the_policies_of_a_reader_can_be_replaced() {
    let mut reader = DataReader::<Shape>::new(QosPolicies::qos_none());
    assert_eq!(reader.get_qos(), QosPolicies::qos_none());
    reader.set_qos(keep_all());
    assert_eq!(reader.get_qos(), keep_all());
    for i in 1..=3 {
        reader.receive_sample(Ok(shape("RED", i)), writer(), ts(i as u32), None);
    }
    assert_eq!(reader.read(10, ReadCondition::any()).len(), 3);
}

#[test]
fn an_unkeyed_reader_reads_values() {
    let mut reader = NoKeyDataReader::<String>::new(keep_all());
    assert!(reader.read_next_sample().is_none());
    assert!(reader.receive_sample("one".to_string(), writer(), ts(1), Some(ts(7))));
    assert!(reader.receive_sample("two".to_string(), writer(), ts(2), None));
    assert!(!reader.receive_sample("again".to_string(), writer(), ts(2), None));
    let next = reader.read_next_sample().unwrap();
    assert_eq!(*next.value(), "one");
    assert_eq!(next.sample_info().source_timestamp, Some(ts(7)));
    assert_eq!(next.sample_info().instance_state, InstanceState::Alive);
    let all = reader.read(10, ReadCondition::any());
    assert_eq!(all.iter().map(|s| s.value.as_str()).collect::<Vec<_>>(), vec!["one", "two"]);
    assert_eq!(all[0].sample_info.sample_state, SampleState::Read);
    assert_eq!(all[1].sample_info.sample_state, SampleState::NotRead);
    let limited = reader.read(1, ReadCondition::any());
    assert_eq!(limited.len(), 1);
    assert_eq!(reader.get_qos(), keep_all());
    reader.set_qos(QosPolicies::qos_none());
    assert_eq!(reader.get_qos(), QosPolicies::qos_none());
}

#[test]
fn the_instances_of_a_lost_participant_have_no_writers() {
    let remote = GuidPrefix { host_id: 1, app_id: 2, instance_id: 3 };
    let other = GUID { guid_prefix: GuidPrefix { host_id: 5, app_id: 5, instance_id: 5 }, entity_id: EntityId { value: 0x102 } };
    let own = GUID { guid_prefix: GuidPrefix { host_id: 9, app_id: 9, instance_id: 9 }, entity_id: EntityId { value: 0x1c1 } };
    let mut db = DiscoveryDB::new();
    let mut discovery = Discovery::new(own, ts(0));
    let mut announced = rustdds::discovery::data_types::spdp_participant_data::SpdpDiscoveredParticipantData {
        updated_time: ts(0),
        protocol_version: rustdds::messages::protocol_version::ProtocolVersion::protocolversion_2_3(),
        vendor_id: rustdds::messages::vendor_id::VendorId::this_implementation(),
        expects_inline_qos: false,
        participant_guid: GUID { guid_prefix: remote, entity_id: EntityId { value: 0x1c1 } },
        metatraffic_unicast_locators: vec![],
        metatraffic_multicast_locators: vec![],
        default_unicast_locators: vec![],
        default_multicast_locators: vec![],
        available_builtin_endpoints: rustdds::structure::builtin_endpoint::BuiltinEndpointSet { value: 0 },
        lease_duration: Some(Duration::from_secs(10)),
        manual_liveliness_count: 0,
        builtin_endpoint_qos: None,
        entity_name: None,
    };
    db.update_participant(announced.clone(), ts(100));
    announced.participant_guid = GUID { guid_prefix: other.guid_prefix, entity_id: EntityId { value: 0x1c1 } };
    db.update_participant(announced, ts(100));

    let mut rtps_reader = Reader::new(GUID { guid_prefix: own.guid_prefix, entity_id: EntityId { value: 0x107 } }, true);
    rtps_reader.matched_writer_add(RtpsWriterProxy::new(writer(), vec![], vec![]));
    rtps_reader.matched_writer_add(RtpsWriterProxy::new(other, vec![], vec![]));
    let mut reader = DataReader::<Shape>::new(keep_all());
    reader.receive_sample(Ok(shape("RED", 1)), writer(), ts(101), None);
    reader.receive_sample(Ok(shape("GREEN", 1)), other, ts(102), None);
    assert_eq!(reader.read(10, ReadCondition::any()).len(), 2);

    // the lease of ten seconds and the cleanup period of two have passed;
    // the other participant was heard again in time
    db.update_lease_duration(other.guid_prefix, ts(108));
    assert_eq!(discovery.handle_token(DiscoveryToken::ParticipantCleanup, &mut db, ts(110)).len(), 1);
    let actions = discovery.handle_token(DiscoveryToken::ParticipantCleanup, &mut db, ts(112));
    assert_eq!(actions.len(), 2);
    let lost = match &actions[0] {
        DiscoveryAction::Notify { notification: DiscoveryNotificationType::ParticipantLost { guid_prefix } } => {
            *guid_prefix
        }
        _ => panic!("the participant is reported as lost"),
    };
    assert_eq!(lost, remote);
    let writers = rtps_reader.participant_lost(lost);
    assert_eq!(writers, vec![writer()]);
    assert!(rtps_reader.matched_writer(writer()).is_none());
    assert!(rtps_reader.matched_writer(other).is_some());
    assert!(rtps_reader.participant_lost(lost).is_empty());
    for guid in writers {
        reader.writer_lost(guid);
    }
    let samples = reader.read(10, ReadCondition::any());
    let states: Vec<InstanceState> = samples.iter().map(|s| s.sample_info().instance_state).collect();
    assert_eq!(states, vec![InstanceState::NotAliveNoWriters, InstanceState::Alive]);
    assert_eq!(samples[0].sample_info().generation_counts.no_writers_generation_count, 0);

    // the instance comes back to life in a new generation
    reader.receive_sample(Ok(shape("RED", 2)), other, ts(120), None);
    let samples = reader.read(10, ReadCondition::not_read());
    assert_eq!(samples.len(), 1);
    assert_eq!(samples[0].sample_info().instance_state, InstanceState::Alive);
    assert_eq!(samples[0].sample_info().generation_counts.no_writers_generation_count, 1);
    assert_eq!(samples[0].sample_info().generation_counts.disposed_generation_count, 0);
    assert_eq!(samples[0].sample_info().view_state, ViewState::New);
    // a disposed instance stays disposed where its writer is lost
    reader.receive_sample(Err(5), other, ts(121), None);
    reader.writer_lost(other);
    let samples = reader.take(10, ReadCondition::any());
    let states: Vec<InstanceState> = samples.iter().map(|s| s.sample_info().instance_state).collect();
    assert_eq!(
        states,
        vec![
            InstanceState::NotAliveNoWriters,
            InstanceState::NotAliveDisposed,
            InstanceState::NotAliveNoWriters,
            InstanceState::NotAliveDisposed
        ]
    );
}

#[test]
fn an_unkeyed_reader_takes_values() {
    let mut reader = NoKeyDataReader::<String>::new(keep_all());
    for (i, text) in ["one", "two", "three"].iter().enumerate() {
        assert!(reader.receive_sample(text.to_string(), writer(), ts(i as u32 + 1), None));
    }
    let first = reader.take_next_sample().unwrap();
    assert_eq!(first.value, "one");
    assert_eq!(first.sample_info.sample_state, SampleState::NotRead);
    assert_eq!(reader.read(1, ReadCondition::any())[0].value.as_str(), "two");
    let rest = reader.take(10, ReadCondition::any());
    assert_eq!(rest.iter().map(|s| s.value.as_str()).collect::<Vec<_>>(), vec!["two", "three"]);
    assert_eq!(rest[0].sample_info.sample_state, SampleState::Read);
    assert_eq!(rest[0].sample_info.sample_rank, 1);
    assert!(reader.take_next_sample().is_none());
    assert!(reader.take(10, ReadCondition::any()).is_empty());
}
