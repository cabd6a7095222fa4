use rustdds::structure::duration::nanos_of_fraction;
use rustdds::dds::ddsdata::DDSData;
use rustdds::dds::traits::key::KeyHash;
use rustdds::messages::submessages::submessage_elements::serialized_payload::RepresentationIdentifier;
use rustdds::messages::submessages::submessage_elements::serialized_payload::SerializedPayload;
use rustdds::network::constant::get_spdp_well_known_multicast_port;
use rustdds::network::constant::get_spdp_well_known_unicast_port;
use rustdds::network::constant::get_user_traffic_multicast_port;
use rustdds::network::constant::get_user_traffic_unicast_port;
use rustdds::structure::cache_change::CacheChange;
use rustdds::structure::cache_change::ChangeKind;
use rustdds::structure::duration::fraction_of_nanos;
use rustdds::structure::duration::Duration;
use rustdds::structure::guid::EntityId;
use rustdds::structure::guid::GuidPrefix;
use rustdds::structure::guid::GUID;
use rustdds::structure::guid_map::GuidMap;
use rustdds::structure::locator::copy_locators;
use rustdds::structure::locator::Locator;
use rustdds::structure::sequence_number::SequenceNumber;
use rustdds::structure::sequence_number::SequenceNumberSet;
use rustdds::structure::time::Timestamp;

#[test]
fn ports_follow_the_formula() {
    assert_eq!(get_spdp_well_known_multicast_port(0), Some(7400));
    assert_eq!(get_spdp_well_known_unicast_port(0, 0), Some(7410));
    assert_eq!(get_user_traffic_multicast_port(0), Some(7401));
    assert_eq!(get_user_traffic_unicast_port(0, 0), Some(7411));
    assert_eq!(get_spdp_well_known_multicast_port(14), Some(7400 + 250 * 14));
    assert_eq!(get_spdp_well_known_unicast_port(15, 3), Some(7400 + 250 * 15 + 10 + 6));
    assert_eq!(get_user_traffic_unicast_port(1, 1), Some(7400 + 250 + 11 + 2));
    assert_eq!(get_spdp_well_known_multicast_port(232), Some(65400));
    assert_eq!(get_spdp_well_known_multicast_port(233), None);
    assert_eq!(get_spdp_well_known_unicast_port(232, 62), Some(65534));
    assert_eq!(get_spdp_well_known_unicast_port(232, 63), None);
}

#[test]
fn builtin_entity_identifiers() {
    assert_eq!(EntityId::spdp_builtin_participant_reader().value, 0x0001C1);
    assert_eq!(EntityId::spdp_builtin_participant_writer().value, 0x0001C2);
    assert_eq!(EntityId::sedp_builtin_subscriptions_reader().value, 0x0004C7);
    assert_eq!(EntityId::sedp_builtin_subscriptions_writer().value, 0x0003C2);
    assert_eq!(EntityId::sedp_builtin_publications_reader().value, 0x0003C7);
    assert_eq!(EntityId::sedp_builtin_publications_writer().value, 0x0004C2);
    assert_eq!(EntityId::unknown().value, 0);
    assert!(EntityId::sedp_builtin_publications_reader().is_builtin());
    assert!(EntityId::p2p_builtin_participant_message_writer().is_builtin());
    assert!(EntityId::sedp_builtin_topic_reader().is_builtin());
    assert!(!EntityId { value: 0x0000_0102 }.is_builtin());
    assert_eq!(EntityId { value: 0x1234_56c7 }.entity_kind(), 0xc7);
    let guid = GUID::new_with_prefix_and_id(GuidPrefix::unknown(), EntityId::unknown());
    assert_eq!(guid, GUID::unknown());
}

#[test]
fn timestamps_and_durations() {
    let a = Timestamp { seconds: 1, fraction: 0x8000_0000 };
    let b = Timestamp { seconds: 2, fraction: 0 };
    assert!(a.lt(&b));
    assert!(a.le(&b));
    assert!(a.le(&a));
    assert!(!b.lt(&a));
    assert_eq!(b.duration_since(a), Duration { seconds: 0, fraction: 0x8000_0000 });
    assert_eq!(a.duration_since(b), Duration { seconds: -1, fraction: 0x8000_0000 });
    assert_eq!(a.checked_add(Duration { seconds: 0, fraction: 0x8000_0000 }), Some(b));
    assert_eq!(a.checked_add(Duration { seconds: -2, fraction: 0 }), None);
    assert_eq!(Timestamp { seconds: u32::MAX, fraction: 0 }.checked_add(Duration::from_secs(1)), None);
    assert_eq!(Timestamp::zero().duration_since(Timestamp::invalid()).seconds, -0x8000_0000);
    assert_eq!(Timestamp::from_unix(0x1_0000_0005, 500_000_000), Timestamp { seconds: 5, fraction: 0x8000_0000 });
    assert_eq!(fraction_of_nanos(0), 0);
    assert_eq!(fraction_of_nanos(999_999_999), 4294967291);
    assert_eq!(fraction_of_nanos(250_000_000), 0x4000_0000);
    assert_eq!(Duration::from_millis(1500), Duration { seconds: 1, fraction: 0x8000_0000 });
    assert_eq!(Duration::from_millis(100), Duration { seconds: 0, fraction: 429496729 });
    assert_eq!(Duration::from_millis(u64::MAX), Duration::infinite());
    assert_eq!(Duration::from_secs(2).times(5), Duration::from_secs(10));
    assert_eq!(Duration::infinite().times(2), Duration::infinite());
    assert_eq!(Duration::from_secs(-3).times(2), Duration::from_secs(-6));
    assert_eq!(Duration { seconds: -1, fraction: 1 }.to_ticks(), -0xffff_ffff);
    assert_eq!(Duration::from_wide_ticks(-1), Duration { seconds: -1, fraction: 0xffff_ffff });
    assert_eq!(Duration::from_wide_ticks(i128::MIN), Duration { seconds: i32::MIN, fraction: 0 });
    assert!(Duration::zero().lt(&Duration::infinite()));
    assert!(Duration::zero().le(&Duration::zero()));
    assert!(!Duration::infinite().le(&Duration::zero()));
}

#[test]
fn sequence_numbers() {
    assert_eq!(SequenceNumber::unknown().value, -(1i64 << 32));
    assert_eq!(SequenceNumber::from(1).checked_next(), Some(SequenceNumber::from(2)));
    assert_eq!(SequenceNumber::from(i64::MAX).checked_next(), None);
    assert!(SequenceNumber::from(1).lt(&SequenceNumber::from(2)));
    let set = SequenceNumberSet { base: SequenceNumber::from(3), bits: vec![true, false, false, false, true] };
    assert!(set.contains(3));
    assert!(!set.contains(4));
    assert!(set.contains(7));
    assert!(!set.contains(8));
    assert!(!set.contains(2));
    assert!(!set.is_empty());
    assert!(set.can_grow());
    assert!(SequenceNumberSet::new(SequenceNumber::from(1)).is_empty());
    assert!(SequenceNumberSet { base: SequenceNumber::from(1), bits: vec![false; 10] }.is_empty());
    assert!(!SequenceNumberSet { base: SequenceNumber::from(1), bits: vec![false; 256] }.can_grow());
}

#[test]
fn cache_change_reports_the_kind_of_its_payload() {
    let payload = SerializedPayload::new_from_bytes(RepresentationIdentifier { value: 1 }, vec![1, 2]);
    let alive = CacheChange::new(GUID::unknown(), SequenceNumber::from(1), None, DDSData::new(payload.clone()));
    assert_eq!(alive.change_kind(), ChangeKind::Alive);
    assert_eq!(alive.sequence_number, SequenceNumber::from(1));
    let disposed = CacheChange::new(
        GUID::unknown(),
        SequenceNumber::from(2),
        Some(Timestamp::zero()),
        DDSData::new_disposed_by_key(ChangeKind::NotAliveDisposed, payload),
    );
    assert_eq!(disposed.change_kind(), ChangeKind::NotAliveDisposed);
    let unregistered = CacheChange::new(
        GUID::unknown(),
        SequenceNumber::from(3),
        None,
        DDSData::new_disposed_by_key_hash(ChangeKind::NotAliveUnregistered, KeyHash { value: 5 }),
    );
    assert_eq!(unregistered.change_kind(), ChangeKind::NotAliveUnregistered);
    assert_eq!(unregistered.source_timestamp, None);
}

#[test]
fn guid_map_keeps_one_record_for_each_identifier() {
    let g = |n: u32| GUID { guid_prefix: GuidPrefix::unknown(), entity_id: EntityId { value: n } };
    let mut map: GuidMap<&str> = GuidMap::new();
    assert_eq!(map.insert(g(1), "one"), None);
    assert_eq!(map.insert(g(2), "two"), None);
    assert_eq!(map.insert(g(1), "uno"), Some("one"));
    assert_eq!(map.len(), 2);
    assert_eq!(map.get(g(1)), Some(&"uno"));
    assert_eq!(map.get(g(3)), None);
    assert_eq!(map.remove(g(3)), None);
    assert_eq!(map.remove(g(2)), Some("two"));
    assert_eq!(map.find(g(2)), None);
    assert_eq!(map.len(), 1);
    assert_eq!(map.key_at(0), g(1));
    assert_eq!(*map.value_at(0), "uno");
}

#[test]
fn locators() {
    let list = vec![Locator::udpv4(239, 255, 0, 1, 7400), Locator::invalid()];
    assert_eq!(list[0].address, 0xefff_0001);
    assert_eq!(copy_locators(&list), list);
    assert_eq!(Locator::invalid().kind, -1);
}

#[test]
fn a_fraction_of_a_second_in_nanoseconds() {
    assert_eq!(nanos_of_fraction(0), 0);
    assert_eq!(nanos_of_fraction(0x8000_0000), 500_000_000);
    assert_eq!(nanos_of_fraction(0x4000_0000), 250_000_000);
    assert_eq!(nanos_of_fraction(u32::MAX), 999_999_999);
    assert_eq!(nanos_of_fraction(1), 0);
    assert_eq!(nanos_of_fraction(5), 1);
    for nanos in [0u32, 1, 999, 123_456_789, 999_999_999] {
        let back = nanos_of_fraction(Timestamp::from_unix(0, nanos).fraction);
        assert!(back == nanos || back + 1 == nanos);
    }
}
