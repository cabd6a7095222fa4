use rustdds::dds::qos::policy::Deadline;
use rustdds::dds::qos::policy::DestinationOrder;
use rustdds::dds::qos::policy::Durability;
use rustdds::dds::qos::policy::History;
use rustdds::dds::qos::policy::LatencyBudget;
use rustdds::dds::qos::policy::Lifespan;
use rustdds::dds::qos::policy::Liveliness;
use rustdds::dds::qos::policy::Ownership;
use rustdds::dds::qos::policy::Presentation;
use rustdds::dds::qos::policy::PresentationAccessScope;
use rustdds::dds::qos::policy::Reliability;
use rustdds::dds::qos::policy::ResourceLimits;
use rustdds::dds::qos::policy::TimeBasedFilter;
use rustdds::dds::qos::QosPolicies;
use rustdds::discovery::content_filter_property::ContentFilterProperty;
use rustdds::discovery::data_types::spdp_participant_data::SpdpDiscoveredParticipantData;
use rustdds::discovery::data_types::spdp_participant_data::SpdpDiscoveredParticipantDataKey;
use rustdds::discovery::data_types::topic_data::DiscoveredReaderData;
use rustdds::discovery::data_types::topic_data::DiscoveredReaderDataKey;
use rustdds::discovery::data_types::topic_data::DiscoveredWriterData;
use rustdds::discovery::data_types::topic_data::DiscoveredWriterDataKey;
use rustdds::discovery::data_types::topic_data::PublicationBuiltinTopicData;
use rustdds::discovery::data_types::topic_data::ReaderProxy;
use rustdds::discovery::data_types::topic_data::SubscriptionBuiltinTopicData;
use rustdds::discovery::data_types::topic_data::TopicBuiltinTopicData;
use rustdds::discovery::data_types::topic_data::WriterProxy;
use rustdds::messages::protocol_version::ProtocolVersion;
use rustdds::messages::submessages::submessage_elements::parameter_list::ParameterList;
use rustdds::messages::vendor_id::VendorId;
use rustdds::messages::wire::WireReader;
use rustdds::serialization::builtin_data_serializer::BuiltinDataSerializer;
use rustdds::serialization::builtin_data_serializer::BuiltinDataSerializerKey;
use rustdds::serialization::builtin_data_serializer::I32Data;
use rustdds::serialization::builtin_data_serializer::StringData;
use rustdds::serialization::builtin_data_serializer::U32Data;
use rustdds::serialization::byte_order::Endianness;
use rustdds::structure::builtin_endpoint::BuiltinEndpointQos;
use rustdds::structure::builtin_endpoint::BuiltinEndpointSet;
use rustdds::structure::duration::Duration;
use rustdds::structure::guid::EntityId;
use rustdds::structure::guid::GuidPrefix;
use rustdds::structure::guid::GUID;
use rustdds::structure::locator::Locator;
use rustdds::structure::parameter_id::ParameterId;
use rustdds::structure::time::Timestamp;

fn guid(n: u32) -> GUID {
    GUID {
        guid_prefix: GuidPrefix { host_id: 0x0102_0304, app_id: 0x0506_0708, instance_id: 0x090a_0b0c },
        entity_id: EntityId { value: n },
    }
}

fn participant() -> SpdpDiscoveredParticipantData {
    SpdpDiscoveredParticipantData {
        updated_time: Timestamp::zero(),
        protocol_version: ProtocolVersion::protocolversion_2_3(),
        vendor_id: VendorId::this_implementation(),
        expects_inline_qos: false,
        participant_guid: guid(0x1c1),
        metatraffic_unicast_locators: vec![Locator::udpv4(127, 0, 0, 1, 7410)],
        metatraffic_multicast_locators: vec![Locator::udpv4(239, 255, 0, 1, 7400)],
        default_unicast_locators: vec![Locator::udpv4(127, 0, 0, 1, 7411), Locator::udpv4(10, 0, 0, 1, 7411)],
        default_multicast_locators: vec![],
        available_builtin_endpoints: BuiltinEndpointSet { value: 0x3f },
        lease_duration: Some(Duration::from_secs(10)),
        manual_liveliness_count: 0,
        builtin_endpoint_qos: None,
        entity_name: Some("node".to_string()),
    }
}

#[test]
fn parameter_headers() {
    let s = StringData::new(ParameterId { value: 5 }, "Square".to_string());
    assert_eq!(s.parameter_length, 6 + 2 + 4);
    assert_eq!(StringData::new(ParameterId { value: 5 }, "abcd".to_string()).parameter_length, 12);
    assert_eq!(StringData::new(ParameterId { value: 5 }, "".to_string()).parameter_length, 8);
    assert_eq!(
        U32Data::new(ParameterId { value: 0x60 }, 7),
        U32Data { parameter_id: ParameterId { value: 0x60 }, parameter_length: 4, data: 7 }
    );
    assert_eq!(
        I32Data::new(ParameterId { value: 6 }, -7),
        I32Data { parameter_id: ParameterId { value: 6 }, parameter_length: 4, data: -7 }
    );
    let key = BuiltinDataSerializerKey::from_data(SpdpDiscoveredParticipantDataKey(guid(0x1c1)));
    assert_eq!(key.participant_guid, guid(0x1c1));
}

#[test]
fn the_fields_of_a_participant() {
    let p = participant();
    let s = BuiltinDataSerializer::from_participant_data(&p);
    assert_eq!(s.protocol_version, Some(ProtocolVersion { major: 2, minor: 3 }));
    assert_eq!(s.participant_guid, Some(guid(0x1c1)));
    assert_eq!(s.metatraffic_unicast_locators, Some(&p.metatraffic_unicast_locators));
    assert_eq!(s.lease_duration, Some(Duration::from_secs(10)));
    assert_eq!(s.builtin_endpoint_qos, None);
    assert_eq!(s.entity_name, Some(&"node".to_string()));
    assert_eq!(s.endpoint_guid, None);
    assert_eq!(s.topic_name, None);
    // four fields, one locator each in two lists, two in a third, and five more fields
    assert_eq!(s.fields_amount(), 4 + 1 + 1 + 2 + 0 + 4);
    assert_eq!(BuiltinDataSerializer::empty().fields_amount(), 0);
}

fn reader_data() -> DiscoveredReaderData {
    let qos = QosPolicies {
        reliability: Some(Reliability::Reliable { max_blocking_time: Duration::from_secs(1) }),
        history: Some(History::KeepAll),
        ..QosPolicies::qos_none()
    };
    DiscoveredReaderData {
        reader_proxy: ReaderProxy {
            remote_reader_guid: guid(0x107),
            expects_inline_qos: true,
            unicast_locator_list: vec![Locator::udpv4(127, 0, 0, 1, 7411)],
            multicast_locator_list: vec![],
        },
        subscription_topic_data: SubscriptionBuiltinTopicData::new(
            guid(0x107),
            "Square".to_string(),
            "ShapeType".to_string(),
            &qos,
        ),
        content_filter: None,
    }
}

#[test]
fn merge_prefers_the_other_side() {
    let d = reader_data();
    let proxy = BuiltinDataSerializer::from_reader_proxy(&d.reader_proxy);
    let topic = BuiltinDataSerializer::from_subscription_topic_data(&d.subscription_topic_data);
    assert_eq!(proxy.expects_inline_qos, Some(true));
    assert_eq!(proxy.topic_name, None);
    assert_eq!(topic.expects_inline_qos, None);
    assert_eq!(topic.history, None);
    let merged = proxy.merge(topic);
    assert_eq!(merged.expects_inline_qos, Some(true));
    assert_eq!(merged.endpoint_guid, Some(guid(0x107)));
    assert_eq!(merged.topic_name, Some(&"Square".to_string()));
    assert_eq!(merged.data_type_name, Some(&"ShapeType".to_string()));
    assert_eq!(
        merged.reliability,
        Some(Reliability::Reliable { max_blocking_time: Duration::from_secs(1) })
    );
    assert_eq!(merged.unicast_locator_list.map(|l| l.len()), Some(1));

    let other_guid = guid(0x999);
    let a = BuiltinDataSerializer::from_endpoint_guid(&other_guid);
    let b = BuiltinDataSerializer::from_reader_proxy(&d.reader_proxy);
    assert_eq!(a.merge(b).endpoint_guid, Some(guid(0x107)));
    let a = BuiltinDataSerializer::from_endpoint_guid(&other_guid);
    assert_eq!(a.merge(BuiltinDataSerializer::empty()).endpoint_guid, Some(other_guid));

    let from_record = BuiltinDataSerializer::from_discovered_reader_data(&d);
    assert_eq!(from_record.endpoint_guid, Some(guid(0x107)));
    assert_eq!(from_record.content_filter_property, None);
    assert_eq!(from_record.fields_amount(), 6);
}

#[test]
fn the_fields_of_writers_topics_and_keys() {
    let writer = DiscoveredWriterData {
        last_updated: Timestamp::zero(),
        writer_proxy: WriterProxy {
            remote_writer_guid: guid(0x102),
            unicast_locator_list: vec![],
            multicast_locator_list: vec![],
            data_max_size_serialized: Some(1024),
        },
        publication_topic_data: PublicationBuiltinTopicData::new(
            guid(0x102),
            guid(0x1c1),
            "Square".to_string(),
            "ShapeType".to_string(),
        ),
    };
    let s = BuiltinDataSerializer::from_discovered_writer_data(&writer);
    assert_eq!(s.data_max_size_serialized, Some(1024));
    assert_eq!(s.participant_guid, Some(guid(0x1c1)));
    assert_eq!(s.endpoint_guid, Some(guid(0x102)));
    assert_eq!(BuiltinDataSerializer::from_writer_proxy(&writer.writer_proxy).participant_guid, None);
    assert_eq!(
        BuiltinDataSerializer::from_publication_topic_data(&writer.publication_topic_data).topic_name,
        Some(&"Square".to_string())
    );

    let topic = TopicBuiltinTopicData {
        key: None,
        name: String::from("Square"),
        data_type_name: String::from("ShapeType"),
        durability: None,
        deadline: None,
        latency_budget: None,
        liveliness: None,
        reliability: None,
        lifespan: None,
        destination_order: None,
        presentation: None,
        history: Some(History::KeepLast { depth: 3 }),
        resource_limits: None,
        ownership: None,
    };
    let s = BuiltinDataSerializer::from_topic_data(&topic);
    assert_eq!(s.endpoint_guid, None);
    assert_eq!(s.history, Some(History::KeepLast { depth: 3 }));
    assert_eq!(s.fields_amount(), 3);

    let reader_key = DiscoveredReaderDataKey(guid(7));
    assert_eq!(
        BuiltinDataSerializer::from_discovered_reader_data_key(&reader_key).endpoint_guid,
        Some(guid(7))
    );
    let writer_key = DiscoveredWriterDataKey(guid(8));
    assert_eq!(
        BuiltinDataSerializer::from_discovered_writer_data_key(&writer_key).endpoint_guid,
        Some(guid(8))
    );
}

const GUID_BYTES: [u8; 12] = [1, 2, 3, 4, 5, 6, 7, 8, 9, 10, 11, 12];

#[test]
fn serialize_writes_the_parameters_in_order() {
    let g = guid(0x0000_0107);
    let name = "Square".to_string();
    let mut s = BuiltinDataSerializer::from_endpoint_guid(&g);
    s.topic_name = Some(&name);
    s.durability = Some(Durability::TransientLocal);
    let bytes = s.serialize(Endianness::LittleEndian, true).unwrap();
    let mut expected = vec![
        0x15, 0x00, 0x04, 0x00, 2, 3, 0, 0, // protocol version, written by default
        0x16, 0x00, 0x04, 0x00, 0, 0, 0, 0, // vendor, written by default
        0x5a, 0x00, 0x10, 0x00,
    ];
    expected.extend_from_slice(&GUID_BYTES);
    expected.extend_from_slice(&[0x00, 0x00, 0x01, 0x07]);
    expected.extend_from_slice(&[0x05, 0x00, 0x0c, 0x00, 7, 0, 0, 0]);
    expected.extend_from_slice(b"Square\0\0");
    expected.extend_from_slice(&[0x1d, 0x00, 0x04, 0x00, 1, 0, 0, 0]);
    expected.extend_from_slice(&[0x01, 0x00, 0x00, 0x00]);
    assert_eq!(bytes, expected);

    let big = s.serialize(Endianness::BigEndian, false).unwrap();
    assert_eq!(&big[..8], &[0x00, 0x15, 0x00, 0x04, 2, 3, 0, 0]);
    assert_eq!(&big[big.len() - 8..], &[0x00, 0x1d, 0x00, 0x04, 0, 0, 0, 1]);

    // what is written is a parameter list
    let mut reader = WireReader::new(&bytes, Endianness::LittleEndian);
    let list = ParameterList::read_from(&mut reader).unwrap();
    let pids: Vec<u16> = list.parameters.iter().map(|p| p.parameter_id.value).collect();
    assert_eq!(pids, vec![0x15, 0x16, 0x5a, 0x05, 0x1d]);
    assert_eq!(reader.remaining_len(), 0);
}

#[test]
fn serialize_key_writes_the_identifiers() {
    let p = participant();
    let s = BuiltinDataSerializer::from_participant_data(&p);
    let bytes = s.serialize_key(Endianness::LittleEndian, true);
    let mut expected = vec![0x50, 0x00, 0x10, 0x00];
    expected.extend_from_slice(&GUID_BYTES);
    expected.extend_from_slice(&[0x00, 0x00, 0x01, 0xc1, 0x01, 0x00, 0x00, 0x00]);
    assert_eq!(bytes, expected);
    let key = BuiltinDataSerializerKey::from_data(SpdpDiscoveredParticipantDataKey(guid(0x1c1)));
    assert_eq!(key.serialize(Endianness::LittleEndian, true), expected);
    assert_eq!(key.serialize(Endianness::LittleEndian, false), &expected[..20]);
}

#[test]
fn each_policy_has_its_bytes() {
    let filter = ContentFilterProperty {
        content_filtered_topic_name: "a".to_string(),
        related_topic_name: "bc".to_string(),
        filter_class_name: "".to_string(),
        filter_expression: "x>1".to_string(),
        expression_parameters: vec!["p".to_string()],
    };
    let mut s = BuiltinDataSerializer::empty();
    s.protocol_version = Some(ProtocolVersion { major: 2, minor: 1 });
    s.vendor_id = Some(VendorId { first: 1, second: 2 });
    s.expects_inline_qos = Some(true);
    s.available_builtin_endpoints = Some(BuiltinEndpointSet { value: 0x0c3f });
    s.lease_duration = Some(Duration { seconds: 10, fraction: 5 });
    s.manual_liveliness_count = Some(-2);
    s.builtin_endpoint_qos = Some(BuiltinEndpointQos { value: 1 });
    s.data_max_size_serialized = Some(0x0102_0304);
    s.deadline = Some(Deadline(Duration::infinite()));
    s.latency_budget = Some(LatencyBudget { duration: Duration::zero() });
    s.liveliness = Some(Liveliness::ManualByTopic { lease_duration: Duration::from_secs(3) });
    s.reliability = Some(Reliability::BestEffort);
    s.ownership = Some(Ownership::Exclusive { strength: 9 });
    s.destination_order = Some(DestinationOrder::BySourceTimeStamp);
    s.time_based_filter = Some(TimeBasedFilter { minimum_separation: Duration::from_secs(1) });
    s.presentation = Some(Presentation {
        access_scope: PresentationAccessScope::Group,
        coherent_access: true,
        ordered_access: false,
    });
    s.lifespan = Some(Lifespan { duration: Duration::from_secs(7) });
    s.history = Some(History::KeepAll);
    s.resource_limits = Some(ResourceLimits { max_samples: 1, max_instances: 2, max_samples_per_instance: 3 });
    s.content_filter_property = Some(&filter);
    let bytes = s.serialize(Endianness::LittleEndian, true).unwrap();
    let mut reader = WireReader::new(&bytes, Endianness::LittleEndian);
    let list = ParameterList::read_from(&mut reader).unwrap();
    let got: Vec<(u16, Vec<u8>)> =
        list.parameters.into_iter().map(|p| (p.parameter_id.value, p.value)).collect();
    let expected: Vec<(u16, Vec<u8>)> = vec![
        (0x15, vec![2, 1, 0, 0]),
        (0x16, vec![1, 2, 0, 0]),
        (0x43, vec![1, 0, 0, 0]),
        (0x58, vec![0x3f, 0x0c, 0, 0]),
        (0x02, vec![10, 0, 0, 0, 5, 0, 0, 0]),
        (0x34, vec![0xfe, 0xff, 0xff, 0xff]),
        (0x77, vec![1, 0, 0, 0]),
        (0x60, vec![4, 3, 2, 1]),
        (0x23, vec![0xff, 0xff, 0xff, 0x7f, 0xff, 0xff, 0xff, 0xff]),
        (0x27, vec![0; 8]),
        (0x1b, vec![2, 0, 0, 0, 3, 0, 0, 0, 0, 0, 0, 0]),
        (0x1a, vec![1, 0, 0, 0, 0, 0, 0, 0, 0, 0, 0, 0]),
        (0x1f, vec![1, 0, 0, 0]),
        (0x06, vec![9, 0, 0, 0]),
        (0x25, vec![1, 0, 0, 0]),
        (0x04, vec![1, 0, 0, 0, 0, 0, 0, 0]),
        (0x21, vec![2, 0, 0, 0, 1, 0, 0, 0]),
        (0x2b, vec![7, 0, 0, 0, 0, 0, 0, 0]),
        (0x40, vec![1, 0, 0, 0, 0, 0, 0, 0]),
        (0x41, vec![1, 0, 0, 0, 2, 0, 0, 0, 3, 0, 0, 0]),
        (
            0x35,
            [
                &[2u8, 0, 0, 0, b'a', 0, 0, 0][..],
                &[3, 0, 0, 0, b'b', b'c', 0, 0],
                &[1, 0, 0, 0, 0, 0, 0, 0],
                &[4, 0, 0, 0, b'x', b'>', b'1', 0],
                &[1, 0, 0, 0],
                &[2, 0, 0, 0, b'p', 0, 0, 0],
            ]
            .concat(),
        ),
    ];
    assert_eq!(got, expected);
}

#[test]
fn locators_are_written_one_parameter_each() {
    let p = participant();
    let mut s = BuiltinDataSerializer::empty();
    s.default_unicast_locators = Some(&p.default_unicast_locators);
    let bytes = s.serialize(Endianness::BigEndian, false).unwrap();
    let mut expected = vec![0x00, 0x15, 0x00, 0x04, 2, 3, 0, 0, 0x00, 0x16, 0x00, 0x04, 0, 0, 0, 0];
    for address in [[127u8, 0, 0, 1], [10, 0, 0, 1]] {
        expected.extend_from_slice(&[0x00, 0x31, 0x00, 0x18, 0, 0, 0, 1, 0, 0, 0x1c, 0xf3]);
        expected.extend_from_slice(&[0; 12]);
        expected.extend_from_slice(&address);
    }
    assert_eq!(bytes, expected);
}

#[test]
fn a_value_too_long_for_its_length_field_is_refused() {
    let long = "x".repeat(70_000);
    let mut s = BuiltinDataSerializer::empty();
    s.topic_name = Some(&long);
    assert_eq!(s.serialize(Endianness::LittleEndian, true), None);
    let fits = "x".repeat(65_000);
    s.topic_name = Some(&fits);
    assert_eq!(s.serialize(Endianness::LittleEndian, true).map(|b| b.len()), Some(16 + 4 + 4 + 65_004 + 4));
}
