use rustdds::dds::ddsdata::DDSData;
use rustdds::dds::qos::QosPolicies;
use rustdds::dds::reader::Reader;
use rustdds::dds::rtps_writer_proxy::RtpsWriterProxy;
use rustdds::dds::topic::Topic;
use rustdds::dds::writer::Writer;
use rustdds::messages::submessages::submessage_elements::serialized_payload::RepresentationIdentifier;
use rustdds::messages::submessages::submessage_elements::serialized_payload::SerializedPayload;
use rustdds::messages::submessages::submessage_elements::serialized_payload::CDR_LE;
use rustdds::structure::cache_change::CacheChange;
use rustdds::structure::cache_change::ChangeKind;
use rustdds::structure::dds_cache::DDSCache;
use rustdds::structure::dds_cache::TopicCache;
use rustdds::structure::dds_cache::TopicKind;
use rustdds::structure::duration::Duration;
use rustdds::structure::guid::EntityId;
use rustdds::structure::guid::GuidPrefix;
use rustdds::structure::guid::GUID;
use rustdds::structure::sequence_number::SequenceNumber;
use rustdds::structure::time::Timestamp;
use rustdds::dds::traits::key::KeyHash;

fn at(seconds: u32) -> Timestamp {
    Timestamp { seconds, fraction: 0 }
}

fn writer_guid() -> GUID {
    GUID { guid_prefix: GuidPrefix { host_id: 1, app_id: 2, instance_id: 3 }, entity_id: EntityId { value: 0x102 } }
}

fn payload(byte: u8) -> DDSData {
    DDSData::new(SerializedPayload::new_from_bytes(RepresentationIdentifier { value: CDR_LE }, vec![byte; 4]))
}

fn change(sn: i64) -> CacheChange {
    CacheChange::new(writer_guid(), SequenceNumber { value: sn }, None, payload(sn as u8))
}

fn numbers(changes: &[(Timestamp, &CacheChange)]) -> Vec<(u32, i64)> {
    changes.iter().map(|(t, c)| (t.seconds, c.sequence_number.value)).collect()
}

fn square() -> String {
    "Square".to_string()
}

#[test]
fn a_topic_is_added_once() {
    let mut cache = DDSCache::new();
    assert!(cache.get_topic(&square()).is_none());
    assert!(cache.add_topic(square(), TopicKind::WithKey, "ShapeType".to_string()));
    assert!(cache.add_change(&square(), at(1), change(1)));
    assert!(!cache.add_topic(square(), TopicKind::NoKey, "Other".to_string()));
    let topic = cache.get_topic(&square()).unwrap();
    assert_eq!(topic.get_name(), "Square");
    assert_eq!(topic.get_kind(), TopicKind::WithKey);
    assert_eq!(topic.get_type(), "ShapeType");
    assert_eq!(topic.len(), 1);
    assert!(cache.add_topic("Circle".to_string(), TopicKind::NoKey, "ShapeType".to_string()));
    assert_eq!(cache.find_topic(&"Circle".to_string()), Some(1));
    assert_eq!(cache.find_topic(&"Triangle".to_string()), None);
}

#[test]
fn changes_are_kept_in_the_order_of_their_instants() {
    let mut cache = DDSCache::new();
    cache.add_topic(square(), TopicKind::WithKey, "ShapeType".to_string());
    cache.add_topic("Circle".to_string(), TopicKind::WithKey, "ShapeType".to_string());
    for (t, sn) in [(5, 1), (2, 2), (9, 3), (7, 4)] {
        assert!(cache.add_change(&square(), at(t), change(sn)));
    }
    assert!(!cache.add_change(&"Triangle".to_string(), at(1), change(9)));
    assert_eq!(numbers(&cache.get_changes_since(&square(), at(0))), vec![(2, 2), (5, 1), (7, 4), (9, 3)]);
    assert_eq!(numbers(&cache.get_changes_since(&square(), at(5))), vec![(5, 1), (7, 4), (9, 3)]);
    assert_eq!(numbers(&cache.get_changes_since(&square(), at(6))), vec![(7, 4), (9, 3)]);
    assert_eq!(
        numbers(&cache.get_changes_since(&square(), Timestamp { seconds: 9, fraction: 1 })),
        vec![]
    );
    assert!(cache.get_changes_since(&"Circle".to_string(), at(0)).is_empty());
    assert!(cache.get_changes_since(&"Triangle".to_string(), at(0)).is_empty());
    // a change at an instant that is taken stands in place of the other
    assert!(cache.add_change(&square(), at(7), change(8)));
    assert_eq!(numbers(&cache.get_changes_since(&square(), at(0))), vec![(2, 2), (5, 1), (7, 8), (9, 3)]);
    let topic = cache.get_topic(&square()).unwrap();
    assert_eq!(topic.get_change(at(7)).map(|c| c.sequence_number.value), Some(8));
    assert!(topic.get_change(at(8)).is_none());
}

#[test]
fn the_changes_before_an_instant_are_forgotten() {
    let mut cache = DDSCache::new();
    cache.add_topic(square(), TopicKind::WithKey, "ShapeType".to_string());
    cache.add_topic("Circle".to_string(), TopicKind::WithKey, "ShapeType".to_string());
    for t in 1..=6 {
        cache.add_change(&square(), at(t), change(t as i64));
        cache.add_change(&"Circle".to_string(), at(t), change(10 + t as i64));
    }
    cache.remove_changes_before(&square(), at(4));
    assert_eq!(numbers(&cache.get_changes_since(&square(), at(0))), vec![(4, 4), (5, 5), (6, 6)]);
    assert_eq!(cache.get_changes_since(&"Circle".to_string(), at(0)).len(), 6);
    cache.remove_changes_before(&square(), at(4));
    assert_eq!(cache.get_topic(&square()).unwrap().len(), 3);
    cache.remove_changes_before(&"Triangle".to_string(), at(4));
    cache.remove_changes_before(&square(), at(100));
    assert_eq!(cache.get_topic(&square()).unwrap().len(), 0);
    let mut topic = TopicCache::new(square(), TopicKind::NoKey, "ShapeType".to_string());
    topic.add_change(at(3), change(1));
    topic.remove_changes_before(at(3));
    assert_eq!(numbers(&topic.get_changes_since(at(3))), vec![(3, 1)]);
}

#[test]
fn a_written_change_is_recorded_for_the_readers_of_the_participant() {
    let mut cache = DDSCache::new();
    cache.add_topic(square(), TopicKind::WithKey, "ShapeType".to_string());
    let mut writer = Writer::new(writer_guid(), Some(2), Duration::from_secs(1), at(0));
    assert_eq!(writer.publish(&mut cache, &square(), at(1), payload(1), Some(at(0))).unwrap().value, 1);
    assert_eq!(writer.publish(&mut cache, &square(), at(2), payload(2), None).unwrap().value, 2);
    assert_eq!(writer.publish(&mut cache, &"Circle".to_string(), at(3), payload(3), None).unwrap().value, 3);
    assert_eq!(writer.get_first_sn().value, 2);
    let recorded = cache.get_changes_since(&square(), at(0));
    assert_eq!(numbers(&recorded), vec![(1, 1), (2, 2)]);
    assert_eq!(recorded[0].1.writer_guid, writer_guid());
    assert_eq!(recorded[0].1.source_timestamp, Some(at(0)));
    match &recorded[1].1.data_value {
        DDSData::Data { serialized_payload } => {
            assert_eq!(serialized_payload.value.as_ref(), &[2u8, 2, 2, 2][..]);
            assert_eq!(serialized_payload.representation_identifier.value, CDR_LE);
        }
        _ => panic!("a sample was written"),
    }
    assert!(cache.get_topic(&"Circle".to_string()).is_none());
}

#[test]
fn a_received_change_is_recorded_once() {
    let mut cache = DDSCache::new();
    cache.add_topic(square(), TopicKind::WithKey, "ShapeType".to_string());
    let mut reader = Reader::new(
        GUID { guid_prefix: GuidPrefix { host_id: 9, app_id: 9, instance_id: 9 }, entity_id: EntityId { value: 0x107 } },
        true,
    );
    // a change of a writer that is not matched is not taken in
    assert!(!reader.receive_change(&mut cache, &square(), at(1), change(1)));
    reader.matched_writer_add(RtpsWriterProxy::new(writer_guid(), vec![], vec![]));
    assert!(reader.receive_change(&mut cache, &square(), at(2), change(1)));
    assert!(!reader.receive_change(&mut cache, &square(), at(3), change(1)));
    assert!(reader.receive_change(&mut cache, &square(), at(4), change(3)));
    assert!(reader.receive_change(&mut cache, &"Circle".to_string(), at(5), change(2)));
    assert_eq!(numbers(&cache.get_changes_since(&square(), at(0))), vec![(2, 1), (4, 3)]);
    let disposed = CacheChange::new(
        writer_guid(),
        SequenceNumber { value: 4 },
        None,
        DDSData::new_disposed_by_key_hash(ChangeKind::NotAliveDisposed, KeyHash { value: 7 }),
    );
    assert_eq!(disposed.duplicate().change_kind(), ChangeKind::NotAliveDisposed);
    assert!(reader.receive_change(&mut cache, &square(), at(6), disposed));
    assert_eq!(cache.get_topic(&square()).unwrap().get_change(at(6)).unwrap().change_kind(), ChangeKind::NotAliveDisposed);
    let topic = Topic::new(square(), "ShapeType".to_string(), QosPolicies::qos_none(), TopicKind::WithKey);
    assert!(topic.same_as(&topic.clone()));
    assert_eq!(topic.get_type(), "ShapeType");
    assert_eq!(topic.get_qos(), QosPolicies::qos_none());
}

#[test]
fn changes_are_compared_by_what_they_carry() {
    let a = change(1);
    assert!(a.same_as(&a.duplicate()));
    assert!(!a.same_as(&change(2)));
    let other_writer = CacheChange::new(GUID::unknown(), SequenceNumber { value: 1 }, None, payload(1));
    assert!(!a.same_as(&other_writer));
    let stamped = CacheChange::new(writer_guid(), SequenceNumber { value: 1 }, Some(at(1)), payload(1));
    assert!(!a.same_as(&stamped));
    let by_key = DDSData::new_disposed_by_key(
        ChangeKind::NotAliveDisposed,
        SerializedPayload::new_from_bytes(RepresentationIdentifier { value: CDR_LE }, vec![1; 4]),
    );
    assert!(by_key.same_as(&by_key.duplicate()));
    assert!(!by_key.same_as(&payload(1)));
    assert!(!by_key.same_as(&DDSData::new_disposed_by_key(
        ChangeKind::NotAliveUnregistered,
        SerializedPayload::new_from_bytes(RepresentationIdentifier { value: CDR_LE }, vec![1; 4]),
    )));
    let by_hash = DDSData::new_disposed_by_key_hash(ChangeKind::NotAliveDisposed, KeyHash { value: 7 });
    assert!(by_hash.same_as(&by_hash.duplicate()));
    assert!(!by_hash.same_as(&DDSData::new_disposed_by_key_hash(ChangeKind::NotAliveDisposed, KeyHash { value: 8 })));
    assert!(payload(3).same_as(&payload(3)));
    assert!(!payload(3).same_as(&payload(4)));
}
