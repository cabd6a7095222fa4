use rustdds::dds::reader::Reader as RtpsReader;
use rustdds::dds::readcondition::ReadCondition;
use rustdds::dds::sampleinfo::InstanceState;
use rustdds::dds::traits::key::Key;
use rustdds::dds::with_key::datareader::DataReader;
use rustdds::dds::writer::Writer as RtpsWriter;
use rustdds::messages::submessages::data::Data;
use rustdds::messages::submessages::submessage_elements::serialized_payload::SerializedPayload;
use rustdds::structure::cache_change::CacheChange;
use rustdds::structure::sequence_number::SequenceNumber;
use rustdds::dds::ddsdata::DDSData;
use rustdds::dds::no_key::wrappers::DAWrapper;
use rustdds::dds::no_key::wrappers::NoKeyWrapper;
use rustdds::dds::no_key::wrappers::SAWrapper;
use rustdds::dds::qos::policy::Liveliness;
use rustdds::dds::qos::policy::Reliability;
use rustdds::dds::qos::QosPolicies;
use rustdds::dds::qos::QosPolicyBuilder;
use rustdds::dds::topic::Topic;
use rustdds::dds::traits::key::Keyed;
use rustdds::dds::traits::serde_adapters::ByteSeq;
use rustdds::dds::traits::serde_adapters::DeserializerAdapter;
use rustdds::dds::traits::serde_adapters::EncodingSeq;
use rustdds::dds::traits::serde_adapters::KeyedDeserializerAdapter;
use rustdds::dds::traits::serde_adapters::KeyedSerializerAdapter;
use rustdds::dds::traits::serde_adapters::SerializerAdapter;
use rustdds::dds::values::result::Error;
use rustdds::dds::with_key::datawriter::DataWriter;
use rustdds::dds::with_key::datawriter::WaitDecision;
use rustdds::dds::with_key::datawriter::WriterCommand;
use rustdds::discovery::discovery::DiscoveryCommand;
use rustdds::messages::submessages::submessage_elements::serialized_payload::RepresentationIdentifier;
use rustdds::serialization::byte_order::Endianness;
use rustdds::serialization::cdr_deserializer::CdrDeserializer;
use rustdds::serialization::cdr_serializer::CdrSerializer;
use rustdds::serialization::error::Error as CodecError;
use rustdds::structure::cache_change::ChangeKind;
use rustdds::structure::dds_cache::DDSCache;
use rustdds::structure::dds_cache::TopicKind;
use rustdds::structure::duration::Duration;
use rustdds::structure::guid::EntityId;
use rustdds::structure::guid::GuidPrefix;
use rustdds::structure::guid::GUID;
use rustdds::structure::time::Timestamp;

#[derive(Debug, Clone, PartialEq)]
struct RandomData {
    a: i32,
    b: String,
}

impl Keyed for RandomData {
    type K = i32;

    fn spec_key(&self) -> i32 {
        self.a
    }

    fn get_key(&self) -> i32 {
        self.a
    }
}

struct RandomDataAdapter;

impl SerializerAdapter<RandomData> for RandomDataAdapter {
    fn spec_output_encoding() -> RepresentationIdentifier {
        unreachable!()
    }

    fn spec_to_bytes(_value: &RandomData) -> Result<ByteSeq, CodecError> {
        unreachable!()
    }

    fn output_encoding() -> RepresentationIdentifier {
        RepresentationIdentifier { value: 0x0001 }
    }

    fn to_bytes(value: &RandomData) -> Result<Vec<u8>, CodecError> {
        if value.b.len() > 100 {
            return Err(CodecError::BadString);
        }
        let mut s = CdrSerializer::new(Endianness::LittleEndian);
        s.serialize_i32(value.a);
        s.serialize_str(&value.b);
        Ok(s.into_bytes())
    }
}

impl KeyedSerializerAdapter<RandomData> for RandomDataAdapter {
    fn spec_key_to_bytes(_key: &i32) -> Result<ByteSeq, CodecError> {
        unreachable!()
    }

    fn key_to_bytes(key: &i32) -> Result<Vec<u8>, CodecError> {
        let mut s = CdrSerializer::new(Endianness::LittleEndian);
        s.serialize_i32(*key);
        Ok(s.into_bytes())
    }
}

impl DeserializerAdapter<RandomData> for RandomDataAdapter {
    fn spec_supported_encodings() -> EncodingSeq {
        unreachable!()
    }

    fn spec_from_bytes(_input: ByteSeq, _encoding: RepresentationIdentifier) -> Result<RandomData, CodecError> {
        unreachable!()
    }

    fn supported_encodings() -> Vec<RepresentationIdentifier> {
        vec![RepresentationIdentifier { value: 0x0001 }]
    }

    fn from_bytes(input_bytes: &[u8], _encoding: RepresentationIdentifier) -> Result<RandomData, CodecError> {
        let mut d = CdrDeserializer::new_little_endian(input_bytes);
        let a = d.deserialize_i32()?;
        let b = d.deserialize_str()?.to_string();
        Ok(RandomData { a, b })
    }
}

impl KeyedDeserializerAdapter<RandomData> for RandomDataAdapter {
    fn spec_key_from_bytes(_input: ByteSeq, _encoding: RepresentationIdentifier) -> Result<i32, CodecError> {
        unreachable!()
    }

    fn key_from_bytes(input_bytes: &[u8], _encoding: RepresentationIdentifier) -> Result<i32, CodecError> {
        CdrDeserializer::new_little_endian(input_bytes).deserialize_i32()
    }
}

type Writer = DataWriter<RandomData, RandomDataAdapter>;

fn at(seconds: u32) -> Timestamp {
    Timestamp { seconds, fraction: 0 }
}

fn reader_guid() -> GUID {
    GUID { guid_prefix: GuidPrefix { host_id: 1, app_id: 1, instance_id: 1 }, entity_id: EntityId { value: 0x107 } }
}

fn prefix() -> GuidPrefix {
    GuidPrefix { host_id: 7, app_id: 8, instance_id: 9 }
}

fn topic(qos: QosPolicies) -> Topic {
    Topic::new("dw_test".to_string(), "RandomData".to_string(), qos, TopicKind::WithKey)
}

fn data_writer(qos: QosPolicies) -> Writer {
    let mut cache = DDSCache::new();
    Writer::new(Some(prefix()), topic(qos), None, &mut cache).expect("Failed to create datawriter").0
}

#[test]
fn dw_write_test() {
    let qos = QosPolicies::qos_none();
    let data_writer = data_writer(qos);

    let mut data = RandomData { a: 4, b: "Fobar".to_string() };

    let request = data_writer.write(data.clone(), None).expect("Unable to write data");
    assert_eq!(request.timeout, None);
    match request.command {
        WriterCommand::DDSData { data: DDSData::Data { serialized_payload }, source_timestamp } => {
            assert_eq!(source_timestamp, None);
            assert_eq!(serialized_payload.representation_identifier.value, 1);
            assert_eq!(
                &serialized_payload.value[..],
                &[4, 0, 0, 0, 6, 0, 0, 0, b'F', b'o', b'b', b'a', b'r', 0]
            );
            assert_eq!(
                RandomDataAdapter::from_bytes(&serialized_payload.value, serialized_payload.representation_identifier),
                Ok(data.clone())
            );
        }
        _ => panic!("a write publishes a value"),
    }
    assert_eq!(data_writer.write_completed(true), (Ok(()), None));

    data.a = 5;
    let timestamp = Timestamp { seconds: 100, fraction: 0 };
    let request = data_writer.write(data, Some(timestamp)).expect("Unable to write data with timestamp");
    match request.command {
        WriterCommand::DDSData { source_timestamp, .. } => assert_eq!(source_timestamp, Some(timestamp)),
        _ => panic!("a write publishes a value"),
    }
}

#[test]
fn dw_dispose_test() {
    let qos = QosPolicies::qos_none();
    let data_writer = data_writer(qos);

    let data = RandomData { a: 4, b: "Fobar".to_string() };

    data_writer.write(data.clone(), None).expect("Unable to write data");

    let command = data_writer.dispose(data.get_key(), None).expect("Unable to dispose data");
    match command {
        WriterCommand::DDSData { data: DDSData::DisposeByKey { change_kind, key }, source_timestamp } => {
            assert_eq!(change_kind, ChangeKind::NotAliveDisposed);
            assert_eq!(source_timestamp, None);
            assert_eq!(&key.value[..], &[4, 0, 0, 0]);
            assert_eq!(RandomDataAdapter::key_from_bytes(&key.value, key.representation_identifier), Ok(4));
        }
        _ => panic!("a dispose publishes a key"),
    }
    assert_eq!(data_writer.dispose_completed(true), (Ok(()), None));
    assert_eq!(data_writer.dispose_completed(false), (Err(Error::Internal), None));
}

#[test]
fn dw_wait_for_ack_test() {
    let qos = QosPolicies::qos_none();
    let data_writer = data_writer(qos);

    let data = RandomData { a: 4, b: "Fobar".to_string() };

    data_writer.write(data, None).expect("Unable to write data");

    let res = data_writer.wait_for_acknowledgments();
    // nothing is waited for, because the writer is not reliable
    assert!(res == WaitDecision::Acknowledged)
}

#[test]
fn a_reliable_writer_waits_and_blocks() {
    let reliable = QosPolicyBuilder::new()
        .reliability(Reliability::Reliable { max_blocking_time: Duration::from_millis(100) })
        .build();
    let writer = data_writer(reliable);
    assert_eq!(writer.wait_for_acknowledgments(), WaitDecision::AskWriter);
    let request = writer.write(RandomData { a: 1, b: "x".to_string() }, None).unwrap();
    assert_eq!(request.timeout, Some(Duration::from_millis(100)));
    let best_effort = QosPolicyBuilder::new().reliability(Reliability::BestEffort).build();
    assert_eq!(data_writer(best_effort).wait_for_acknowledgments(), WaitDecision::Acknowledged);
    assert_eq!(writer.get_qos(), reliable);
}

#[test]
fn a_writer_needs_its_participant() {
    let mut cache = DDSCache::new();
    assert_eq!(
        Writer::new(None, topic(QosPolicies::qos_none()), None, &mut cache).err(),
        Some(Error::PreconditionNotMet)
    );
    assert!(cache.get_topic(&"dw_test".to_string()).is_none());
    let given = GUID { guid_prefix: GuidPrefix::unknown(), entity_id: EntityId { value: 0x102 } };
    let (writer, command) =
        Writer::new(Some(prefix()), topic(QosPolicies::qos_none()), Some(given), &mut cache).unwrap();
    let history = cache.get_topic(&"dw_test".to_string()).unwrap();
    assert_eq!(history.get_type(), "RandomData");
    assert_eq!(history.get_kind(), TopicKind::NoKey);
    assert_eq!(history.len(), 0);
    assert!(writer.get_topic() == &topic(QosPolicies::qos_none()));
    assert_eq!(writer.get_topic().get_name(), "dw_test");
    assert_eq!(writer.get_topic().kind(), TopicKind::WithKey);
    assert_eq!(writer.get_guid(), GUID { guid_prefix: prefix(), entity_id: EntityId { value: 0x102 } });
    assert_eq!(command, None);
    assert_eq!(data_writer(QosPolicies::qos_none()).get_guid().entity_id, EntityId::unknown());
    assert_eq!(
        writer.removal_command(),
        DiscoveryCommand::REMOVE_LOCAL_WRITER { guid: writer.get_guid() }
    );
}

#[test]
fn liveliness_commands_follow_the_policy() {
    let lease = Duration::from_secs(1);
    let by_participant =
        QosPolicyBuilder::new().liveliness(Liveliness::ManualByParticipant { lease_duration: lease }).build();
    let mut cache = DDSCache::new();
    let (writer, command) = Writer::new(Some(prefix()), topic(by_participant), None, &mut cache).unwrap();
    assert_eq!(command, Some(DiscoveryCommand::MANUAL_ASSERT_LIVELINESS));
    assert_eq!(writer.refresh_manual_liveliness(), Some(DiscoveryCommand::MANUAL_ASSERT_LIVELINESS));
    assert_eq!(writer.assert_liveliness(), vec![DiscoveryCommand::MANUAL_ASSERT_LIVELINESS]);
    assert_eq!(writer.write_completed(true), (Ok(()), Some(DiscoveryCommand::MANUAL_ASSERT_LIVELINESS)));
    assert_eq!(writer.write_completed(false), (Err(Error::OutOfResources), None));

    let by_topic = QosPolicyBuilder::new().liveliness(Liveliness::ManualByTopic { lease_duration: lease }).build();
    let writer = data_writer(by_topic);
    assert_eq!(writer.refresh_manual_liveliness(), None);
    assert_eq!(
        writer.assert_liveliness(),
        vec![DiscoveryCommand::ASSERT_TOPIC_LIVELINESS { writer_guid: writer.get_guid(), manual_assertion: true }]
    );

    let automatic = QosPolicyBuilder::new().liveliness(Liveliness::Automatic { lease_duration: lease }).build();
    let writer = data_writer(automatic);
    assert_eq!(writer.refresh_manual_liveliness(), None);
    assert!(writer.assert_liveliness().is_empty());
}

#[test]
fn a_value_that_cannot_be_serialized_is_not_written() {
    let writer = data_writer(QosPolicies::qos_none());
    let too_long = RandomData { a: 1, b: "x".repeat(101) };
    assert_eq!(writer.write(too_long, None).err(), Some(Error::Serialization));
}

#[test]
fn unkeyed_values_are_wrapped_with_the_unit_key() {
    let wrapped = NoKeyWrapper::from(RandomData { a: 1, b: "x".to_string() });
    assert_eq!(wrapped.get_key(), ());
    assert_eq!(wrapped.deref().a, 1);
    assert_eq!(
        <SAWrapper<RandomDataAdapter> as SerializerAdapter<NoKeyWrapper<RandomData>>>::to_bytes(&wrapped),
        RandomDataAdapter::to_bytes(&RandomData { a: 1, b: "x".to_string() })
    );
    assert_eq!(
        <SAWrapper<RandomDataAdapter> as SerializerAdapter<NoKeyWrapper<RandomData>>>::output_encoding(),
        RepresentationIdentifier { value: 1 }
    );
    assert_eq!(
        <SAWrapper<RandomDataAdapter> as KeyedSerializerAdapter<NoKeyWrapper<RandomData>>>::key_to_bytes(&()),
        Ok(vec![])
    );
    let bytes = [1u8, 0, 0, 0, 2, 0, 0, 0, b'x', 0];
    let id = RepresentationIdentifier { value: 1 };
    let read = <DAWrapper<RandomDataAdapter> as DeserializerAdapter<NoKeyWrapper<RandomData>>>::from_bytes(&bytes, id);
    assert_eq!(read.ok().map(|w| w.unwrap()), Some(RandomData { a: 1, b: "x".to_string() }));
    assert!(<DAWrapper<RandomDataAdapter> as DeserializerAdapter<NoKeyWrapper<RandomData>>>::from_bytes(&bytes[..3], id).is_err());
    assert_eq!(
        <DAWrapper<RandomDataAdapter> as KeyedDeserializerAdapter<NoKeyWrapper<RandomData>>>::key_from_bytes(&bytes, id),
        Ok(())
    );
    assert_eq!(
        <DAWrapper<RandomDataAdapter> as DeserializerAdapter<NoKeyWrapper<RandomData>>>::supported_encodings(),
        vec![id]
    );
}

#[test]
fn a_dispose_travels_from_the_writer_to_the_reader() {
    let mut cache = DDSCache::new();
    let (data_writer, _) = Writer::new(Some(prefix()), topic(QosPolicies::qos_none()), None, &mut cache).unwrap();
    let mut rtps_writer = RtpsWriter::new(data_writer.get_guid(), None, Duration::from_secs(1), at(0));
    let mut rtps_reader = RtpsReader::new(reader_guid(), false);
    let mut data_reader = DataReader::<RandomData>::new(
        QosPolicyBuilder::new().history(rustdds::dds::qos::policy::History::KeepAll).build(),
    );
    let name = "dw_test".to_string();

    let mut now = 1;
    let mut carry = |command: WriterCommand, data_reader: &mut DataReader<RandomData>| {
        let (data, source_timestamp) = match command {
            WriterCommand::DDSData { data, source_timestamp } => (data, source_timestamp),
            _ => panic!("a change is written"),
        };
        // the writer numbers the change and records it for the readers of its participant
        let sn = rtps_writer.publish(&mut cache, &name, at(now), data, source_timestamp).unwrap();
        let change = rtps_writer.change(sn).unwrap();
        // the change goes over the wire
        let (submessage, flags) = change.data_value.to_data(reader_guid().entity_id, change.writer_guid.entity_id, sn);
        let flags = flags | 0x01;
        let mut bytes = Vec::new();
        submessage.write_to(&mut bytes, Endianness::LittleEndian);
        let received = Data::deserialize_data(&bytes::Bytes::from(bytes), flags).unwrap();
        // and arrives at the reader
        let arrived = CacheChange::new(
            GUID { guid_prefix: prefix(), entity_id: received.writer_id },
            received.writer_sn,
            source_timestamp,
            DDSData::from_data(&received, flags).unwrap(),
        );
        assert!(arrived.same_as(change));
        assert!(rtps_reader.handle_data(arrived.writer_guid, arrived.sequence_number));
        now += 1;
        data_reader.receive_change::<RandomDataAdapter>(&arrived, at(100 + now))
    };

    let request = data_writer.write(RandomData { a: 4, b: "Fobar".to_string() }, Some(at(9))).unwrap();
    assert!(carry(request.command, &mut data_reader));
    let samples = data_reader.read(10, ReadCondition::any());
    assert_eq!(samples.len(), 1);
    assert_eq!(samples[0].value(), &Ok(&RandomData { a: 4, b: "Fobar".to_string() }));
    assert_eq!(samples[0].sample_info().instance_state, InstanceState::Alive);
    assert_eq!(samples[0].sample_info().source_timestamp, Some(at(9)));
    assert_eq!(samples[0].sample_info().publication_handle, data_writer.get_guid());

    let command = data_writer.dispose(4, None).unwrap();
    assert!(carry(command, &mut data_reader));
    let samples = data_reader.read(10, ReadCondition::not_read());
    assert_eq!(samples.len(), 1);
    assert_eq!(samples[0].sample_info().instance_state, InstanceState::NotAliveDisposed);
    assert_eq!(samples[0].value(), &Err(4));
}

#[test]
fn a_change_that_cannot_be_read_does_not_reach_the_cache() {
    let mut reader = DataReader::<RandomData>::new(QosPolicies::qos_none());
    let writer = GUID { guid_prefix: prefix(), entity_id: EntityId { value: 0x102 } };
    let cut_short = CacheChange::new(
        writer,
        SequenceNumber::from(1),
        None,
        DDSData::new(SerializedPayload::new_from_bytes(RepresentationIdentifier { value: 1 }, vec![4, 0, 0])),
    );
    assert!(!reader.receive_change::<RandomDataAdapter>(&cut_short, at(1)));
    let unknown = CacheChange::new(
        writer,
        SequenceNumber::from(2),
        None,
        DDSData::new_disposed_by_key_hash(ChangeKind::NotAliveDisposed, 4i32.into_hash_key()),
    );
    assert!(reader.sample_of::<RandomDataAdapter>(&unknown.data_value).is_none());
    assert!(!reader.receive_change::<RandomDataAdapter>(&unknown, at(2)));
    assert!(reader.receive_sample(Ok(RandomData { a: 4, b: "x".to_string() }), writer, at(3), None));
    assert!(reader.receive_change::<RandomDataAdapter>(&unknown, at(4)));
    assert!(!reader.receive_change::<RandomDataAdapter>(&unknown, at(4)));
    let samples = reader.read(10, ReadCondition::any());
    assert_eq!(samples.len(), 1);
    assert_eq!(samples[0].value(), &Err(4));
    assert_eq!(samples[0].sample_info().instance_state, InstanceState::NotAliveDisposed);
}
