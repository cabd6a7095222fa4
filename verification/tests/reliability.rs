use rustdds::dds::ddsdata::DDSData;
use rustdds::dds::reader::Reader;
use rustdds::dds::rtps_reader_proxy::RtpsReaderProxy;
use rustdds::dds::rtps_writer_proxy::HeartbeatResponse;
use rustdds::dds::rtps_writer_proxy::RtpsWriterProxy;
use rustdds::dds::writer::Writer;
use rustdds::messages::submessages::submessage_elements::serialized_payload::RepresentationIdentifier;
use rustdds::messages::submessages::submessage_elements::serialized_payload::SerializedPayload;
use rustdds::structure::duration::Duration;
use rustdds::structure::guid::EntityId;
use rustdds::structure::guid::GuidPrefix;
use rustdds::structure::guid::GUID;
use rustdds::structure::sequence_number::SequenceNumber;
use rustdds::structure::sequence_number::SequenceNumberSet;
use rustdds::structure::time::Timestamp;

fn guid(host: u32, entity: u32) -> GUID {
    GUID {
        guid_prefix: GuidPrefix { host_id: host, app_id: 0, instance_id: 0 },
        entity_id: EntityId { value: entity },
    }
}

fn payload(n: u8) -> DDSData {
    DDSData::new(SerializedPayload::new_from_bytes(RepresentationIdentifier { value: 1 }, vec![n]))
}

fn sn(n: i64) -> SequenceNumber {
    SequenceNumber::from(n)
}

fn at(seconds: u32) -> Timestamp {
    Timestamp { seconds, fraction: 0 }
}

fn writer_with_reader(depth: Option<usize>) -> Writer {
    let mut writer = Writer::new(guid(1, 0x102), depth, Duration::from_secs(1), at(100));
    writer.matched_reader_add(RtpsReaderProxy::new(guid(2, 0x107), true));
    writer
}

fn members(set: &SequenceNumberSet) -> Vec<i64> {
    (0..set.bits.len()).filter(|i| set.bits[*i]).map(|i| set.base.value + i as i64).collect()
}

#[test]
fn each_write_gets_the_next_sequence_number() {
    let mut writer = writer_with_reader(None);
    assert_eq!(writer.get_first_sn(), sn(1));
    assert_eq!(writer.get_last_sn(), sn(0));
    let mut previous = 0;
    for i in 1..=20u8 {
        let got = writer.write(payload(i), None).unwrap();
        assert!(got.value > previous);
        assert_eq!(got.value, previous + 1);
        previous = got.value;
        assert_eq!(writer.get_last_sn(), got);
    }
    assert_eq!(writer.get_first_sn(), sn(1));
    let change = writer.change(sn(7)).unwrap();
    assert_eq!(change.sequence_number, sn(7));
    assert_eq!(change.writer_guid, guid(1, 0x102));
    assert!(writer.change(sn(21)).is_none());
    assert!(writer.change(sn(0)).is_none());
}

#[test]
fn the_history_keeps_the_last_changes() {
    let mut writer = writer_with_reader(Some(3));
    for i in 1..=5u8 {
        writer.write(payload(i), Some(at(i as u32))).unwrap();
    }
    assert_eq!(writer.get_first_sn(), sn(3));
    assert_eq!(writer.get_last_sn(), sn(5));
    assert!(writer.change(sn(2)).is_none());
    assert_eq!(writer.change(sn(3)).unwrap().source_timestamp, Some(at(3)));
    let mut at_least_one = Writer::new(guid(1, 0x102), Some(0), Duration::from_secs(1), at(0));
    at_least_one.write(payload(1), None).unwrap();
    at_least_one.write(payload(2), None).unwrap();
    assert_eq!(at_least_one.get_first_sn(), sn(2));
    assert_eq!(at_least_one.get_last_sn(), sn(2));
}

#[test]
fn acknack_acknowledges_and_asks_for_what_is_missing() {
    let mut writer = writer_with_reader(None);
    for i in 1..=10u8 {
        writer.write(payload(i), None).unwrap();
    }
    assert!(!writer.all_acked());
    let mut bits = vec![false; 8];
    bits[0] = true;
    bits[4] = true;
    let set = SequenceNumberSet { base: sn(3), bits };
    let response = writer.handle_acknack(guid(2, 0x107), &set, 1);
    assert!(response.accepted);
    assert_eq!(response.retransmit, vec![3, 7]);
    assert!(response.gaps.is_empty());
    assert_eq!(writer.reader_at(0).highest_acked, 2);
    assert_eq!(writer.reader_at(0).last_acknack_count, Some(1));
    assert!(!writer.all_acked());
    let done = SequenceNumberSet::new(sn(11));
    let response = writer.handle_acknack(guid(2, 0x107), &done, 2);
    assert!(response.accepted);
    assert!(response.retransmit.is_empty());
    assert_eq!(writer.reader_at(0).highest_acked, 10);
    assert!(writer.all_acked());
}

#[test]
fn an_acknack_with_a_count_seen_before_is_dropped() {
    let mut writer = writer_with_reader(None);
    for i in 1..=4u8 {
        writer.write(payload(i), None).unwrap();
    }
    let set = SequenceNumberSet { base: sn(2), bits: vec![true, true] };
    let first = writer.handle_acknack(guid(2, 0x107), &set, 5);
    assert!(first.accepted);
    assert_eq!(first.retransmit, vec![2, 3]);
    let second = writer.handle_acknack(guid(2, 0x107), &set, 5);
    assert!(!second.accepted);
    assert!(second.retransmit.is_empty());
    assert!(second.gaps.is_empty());
    let older = writer.handle_acknack(guid(2, 0x107), &SequenceNumberSet::new(sn(5)), 4);
    assert!(!older.accepted);
    assert_eq!(writer.reader_at(0).highest_acked, 1);
    assert_eq!(writer.reader_at(0).last_acknack_count, Some(5));
    let newer = writer.handle_acknack(guid(2, 0x107), &SequenceNumberSet::new(sn(5)), 6);
    assert!(newer.accepted);
    assert_eq!(writer.reader_at(0).highest_acked, 4);
}

#[test]
fn acknacks_of_strangers_and_of_best_effort_readers_are_dropped() {
    let mut writer = writer_with_reader(None);
    writer.matched_reader_add(RtpsReaderProxy::new(guid(3, 0x107), false));
    writer.write(payload(1), None).unwrap();
    let set = SequenceNumberSet { base: sn(1), bits: vec![true] };
    assert!(!writer.handle_acknack(guid(9, 0x107), &set, 1).accepted);
    assert!(!writer.handle_acknack(guid(3, 0x107), &set, 1).accepted);
    assert_eq!(writer.reader_at(1).last_acknack_count, None);
    // a best-effort reader does not keep the writer waiting
    writer.handle_acknack(guid(2, 0x107), &SequenceNumberSet::new(sn(2)), 1);
    assert!(writer.all_acked());
}

#[test]
fn what_the_writer_has_no_more_is_reported_as_gone() {
    let mut writer = writer_with_reader(Some(2));
    for i in 1..=5u8 {
        writer.write(payload(i), None).unwrap();
    }
    let set = SequenceNumberSet { base: sn(1), bits: vec![true, false, true, true, true, true, true] };
    let response = writer.handle_acknack(guid(2, 0x107), &set, 1);
    assert_eq!(response.gaps, vec![1, 3]);
    assert_eq!(response.retransmit, vec![4, 5]);
    assert_eq!(writer.reader_at(0).highest_acked, 0);
    let beyond = SequenceNumberSet::new(sn(100));
    writer.handle_acknack(guid(2, 0x107), &beyond, 2);
    assert_eq!(writer.reader_at(0).highest_acked, 5);
}

#[test]
fn heartbeats_go_to_reliable_readers_when_due() {
    let mut writer = writer_with_reader(None);
    writer.matched_reader_add(RtpsReaderProxy::new(guid(3, 0x207), false));
    writer.matched_reader_add(RtpsReaderProxy::new(guid(4, 0x307), true));
    for i in 1..=3u8 {
        writer.write(payload(i), None).unwrap();
    }
    assert!(writer.handle_heartbeat_timer(at(100)).is_empty());
    let heartbeats = writer.handle_heartbeat_timer(at(101));
    assert_eq!(heartbeats.len(), 2);
    assert_eq!(heartbeats[0].0, guid(2, 0x107));
    assert_eq!(heartbeats[0].1.reader_id, EntityId { value: 0x107 });
    assert_eq!(heartbeats[0].1.writer_id, EntityId { value: 0x102 });
    assert_eq!(heartbeats[0].1.first_sn, sn(1));
    assert_eq!(heartbeats[0].1.last_sn, sn(3));
    assert_eq!(heartbeats[0].1.count, 1);
    assert_eq!(heartbeats[1].0, guid(4, 0x307));
    assert_eq!(heartbeats[1].1.count, 2);
    assert!(writer.handle_heartbeat_timer(at(101)).is_empty());
    let later = writer.handle_heartbeat_timer(at(105));
    assert_eq!(later[0].1.count, 3);
    assert_eq!(later[1].1.count, 4);
}

#[test]
fn readers_are_matched_and_forgotten() {
    let mut writer = writer_with_reader(None);
    writer.write(payload(1), None).unwrap();
    let mut ahead = RtpsReaderProxy::new(guid(5, 0x107), true);
    ahead.highest_acked = 50;
    writer.matched_reader_add(ahead);
    assert_eq!(writer.reader_count(), 2);
    assert_eq!(writer.reader_at(1).highest_acked, 1);
    assert_eq!(writer.find_reader(guid(5, 0x107)), Some(1));
    writer.matched_reader_add(RtpsReaderProxy::new(guid(5, 0x107), false));
    assert_eq!(writer.reader_count(), 2);
    assert!(!writer.reader_at(1).is_reliable);
    writer.matched_reader_remove(guid(2, 0x107));
    assert_eq!(writer.reader_count(), 1);
    assert_eq!(writer.find_reader(guid(2, 0x107)), None);
    writer.matched_reader_remove(guid(2, 0x107));
    assert_eq!(writer.reader_count(), 1);
}

fn proxy() -> RtpsWriterProxy {
    RtpsWriterProxy::new(guid(1, 0x102), vec![], vec![])
}

#[test]
fn a_change_is_delivered_once() {
    let mut p = proxy();
    assert!(p.received_changes_add(sn(1)));
    assert!(!p.received_changes_add(sn(1)));
    assert!(p.received_changes_add(sn(3)));
    assert!(!p.received_changes_add(sn(3)));
    assert!(!p.received_changes_add(sn(0)));
    assert!(!p.received_changes_add(sn(-5)));
    assert_eq!(p.get_highest_continuous_sn(), sn(1));
    assert_eq!(p.get_highest_received_sn(), sn(3));
    assert!(p.has_missing());
    assert!(p.received_changes_add(sn(2)));
    assert_eq!(p.get_highest_continuous_sn(), sn(3));
    assert!(!p.has_missing());
}

#[test]
fn lost_changes_are_recovered_in_one_round_trip() {
    // The writer writes 1..=10; the transport drops 3 and 7.
    let mut writer = writer_with_reader(None);
    let mut reader = Reader::new(guid(2, 0x107), true);
    assert!(reader.matched_writer_add(proxy()));
    for i in 1..=10u8 {
        let number = writer.write(payload(i), None).unwrap();
        if number.value != 3 && number.value != 7 {
            assert!(reader.handle_data(guid(1, 0x102), number));
        }
    }
    assert_eq!(reader.matched_writer(guid(1, 0x102)).unwrap().get_highest_continuous_sn(), sn(2));
    // The heartbeat tells what the writer has; the reader asks for what it misses.
    let heartbeats = writer.handle_heartbeat_timer(at(101));
    let hb = heartbeats[0].1;
    assert_eq!((hb.first_sn, hb.last_sn), (sn(1), sn(10)));
    let (set, count) =
        reader.handle_heartbeat(guid(1, 0x102), hb.first_sn, hb.last_sn, hb.count, false).unwrap();
    assert_eq!(set.base, sn(3));
    assert_eq!(members(&set), vec![3, 7]);
    assert_eq!(set.bits.len(), 8);
    assert_eq!(count, 1);
    // The writer sends them again.
    let response = writer.handle_acknack(guid(2, 0x107), &set, count);
    assert_eq!(response.retransmit, vec![3, 7]);
    for number in response.retransmit {
        assert!(writer.change(sn(number)).is_some());
        assert!(reader.handle_data(guid(1, 0x102), sn(number)));
    }
    assert_eq!(reader.matched_writer(guid(1, 0x102)).unwrap().get_highest_continuous_sn(), sn(10));
    // Nothing is delivered twice.
    for number in 1..=10 {
        assert!(!reader.handle_data(guid(1, 0x102), sn(number)));
    }
    // The next acknowledgement acknowledges all.
    let heartbeats = writer.handle_heartbeat_timer(at(102));
    let hb = heartbeats[0].1;
    let (set, count) =
        reader.handle_heartbeat(guid(1, 0x102), hb.first_sn, hb.last_sn, hb.count, false).unwrap();
    assert_eq!(set.base, sn(11));
    assert!(set.is_empty());
    writer.handle_acknack(guid(2, 0x107), &set, count);
    assert!(writer.all_acked());
}

#[test]
fn heartbeats_with_a_count_seen_before_are_dropped() {
    let mut p = proxy();
    assert_eq!(
        p.handle_heartbeat(sn(1), sn(5), 3, true),
        HeartbeatResponse { accepted: true, acknack_needed: true }
    );
    assert_eq!(p.get_highest_received_sn(), sn(5));
    assert_eq!(
        p.handle_heartbeat(sn(1), sn(9), 3, false),
        HeartbeatResponse { accepted: false, acknack_needed: false }
    );
    assert_eq!(
        p.handle_heartbeat(sn(1), sn(9), 2, false),
        HeartbeatResponse { accepted: false, acknack_needed: false }
    );
    assert_eq!(p.get_highest_received_sn(), sn(5));
    assert_eq!(
        p.handle_heartbeat(sn(1), sn(9), 4, false),
        HeartbeatResponse { accepted: true, acknack_needed: true }
    );
    assert_eq!(p.get_highest_received_sn(), sn(9));
}

#[test]
fn a_final_heartbeat_needs_no_answer_where_nothing_is_missing() {
    let mut p = proxy();
    p.received_changes_add(sn(1));
    p.received_changes_add(sn(2));
    assert_eq!(
        p.handle_heartbeat(sn(1), sn(2), 1, true),
        HeartbeatResponse { accepted: true, acknack_needed: false }
    );
    assert_eq!(
        p.handle_heartbeat(sn(1), sn(2), 2, false),
        HeartbeatResponse { accepted: true, acknack_needed: true }
    );
    assert_eq!(
        p.handle_heartbeat(sn(1), sn(3), 3, true),
        HeartbeatResponse { accepted: true, acknack_needed: true }
    );
}

#[test]
fn a_heartbeat_flushes_what_the_writer_has_no_more() {
    let mut p = proxy();
    p.received_changes_add(sn(1));
    p.received_changes_add(sn(5));
    p.received_changes_add(sn(6));
    p.received_changes_add(sn(9));
    p.handle_heartbeat(sn(5), sn(10), 1, false);
    assert_eq!(p.get_highest_continuous_sn(), sn(6));
    let (set, _) = p.make_acknack();
    assert_eq!(set.base, sn(7));
    assert_eq!(members(&set), vec![7, 8, 10]);
    p.handle_heartbeat(sn(20), sn(19), 2, false);
    assert_eq!(p.get_highest_continuous_sn(), sn(19));
    assert!(!p.has_missing());
}

#[test]
fn a_gap_settles_the_numbers_that_it_lists() {
    let mut p = proxy();
    p.received_changes_add(sn(1));
    p.received_changes_add(sn(4));
    p.irrelevant_changes_set(&SequenceNumberSet { base: sn(2), bits: vec![true, true, false, true] });
    assert_eq!(p.get_highest_continuous_sn(), sn(5));
    assert!(!p.received_changes_add(sn(2)));
    assert!(!p.received_changes_add(sn(5)));
    assert!(p.received_changes_add(sn(6)));
    p.irrelevant_changes_set(&SequenceNumberSet { base: sn(-1), bits: vec![true, true, true] });
    assert_eq!(p.get_highest_continuous_sn(), sn(6));
}

#[test]
fn an_acknack_names_at_most_256_numbers_and_counts_up() {
    let mut p = proxy();
    p.handle_heartbeat(sn(1), sn(1000), 1, false);
    let (set, count) = p.make_acknack();
    assert_eq!(set.base, sn(1));
    assert_eq!(set.bits.len(), 256);
    assert!(set.bits.iter().all(|b| *b));
    assert_eq!(count, 1);
    let (_, count) = p.make_acknack();
    assert_eq!(count, 2);
}

#[test]
fn a_best_effort_reader_delivers_at_once_and_never_acknowledges() {
    let mut reader = Reader::new(guid(2, 0x107), false);
    assert!(!reader.is_reliable());
    assert!(reader.handle_data(guid(1, 0x102), sn(5)));
    assert!(reader.handle_data(guid(1, 0x102), sn(5)));
    assert!(reader.handle_data(guid(9, 0x102), sn(1)));
    assert_eq!(reader.handle_heartbeat(guid(1, 0x102), sn(1), sn(10), 1, false), None);
    reader.handle_gap(guid(1, 0x102), &SequenceNumberSet::new(sn(1)));
}

#[test]
fn a_reliable_reader_knows_its_writers() {
    let mut reader = Reader::new(guid(2, 0x107), true);
    assert!(!reader.handle_data(guid(1, 0x102), sn(1)));
    assert_eq!(reader.handle_heartbeat(guid(1, 0x102), sn(1), sn(10), 1, false), None);
    assert!(reader.matched_writer_add(proxy()));
    assert!(!reader.matched_writer_add(proxy()));
    assert!(reader.handle_data(guid(1, 0x102), sn(1)));
    reader.handle_gap(guid(1, 0x102), &SequenceNumberSet { base: sn(2), bits: vec![true] });
    assert_eq!(reader.matched_writer(guid(1, 0x102)).unwrap().get_highest_continuous_sn(), sn(2));
    assert_eq!(reader.handle_heartbeat(guid(1, 0x102), sn(1), sn(2), 1, true), None);
    assert!(reader.handle_heartbeat(guid(1, 0x102), sn(1), sn(2), 1, false).is_none());
    assert!(reader.handle_heartbeat(guid(1, 0x102), sn(1), sn(2), 2, false).is_some());
    assert!(reader.matched_writer_remove(guid(1, 0x102)));
    assert!(!reader.matched_writer_remove(guid(1, 0x102)));
    assert!(reader.matched_writer(guid(1, 0x102)).is_none());
}

#[test]
fn the_readers_of_a_lost_participant_are_forgotten() {
    let mut writer = Writer::new(guid(9, 0x102), None, Duration::from_secs(1), at(0));
    let near = GUID { guid_prefix: GuidPrefix { host_id: 1, app_id: 1, instance_id: 1 }, entity_id: EntityId { value: 0x107 } };
    let near_too = GUID { guid_prefix: near.guid_prefix, entity_id: EntityId { value: 0x207 } };
    let far = GUID { guid_prefix: GuidPrefix { host_id: 2, app_id: 2, instance_id: 2 }, entity_id: EntityId { value: 0x107 } };
    for guid in [near, far, near_too] {
        writer.matched_reader_add(RtpsReaderProxy::new(guid, true));
    }
    writer.write(payload(1), None).unwrap();
    assert!(!writer.all_acked());
    let mut state = SequenceNumberSet::new(SequenceNumber::from(2));
    assert!(writer.handle_acknack(far, &state, 1).accepted);
    state.base = SequenceNumber::from(1);
    assert!(!writer.all_acked());
    writer.participant_lost(near.guid_prefix);
    assert_eq!(writer.reader_count(), 1);
    assert_eq!(writer.find_reader(far), Some(0));
    assert_eq!(writer.find_reader(near), None);
    assert_eq!(writer.find_reader(near_too), None);
    assert!(writer.all_acked());
    writer.participant_lost(far.guid_prefix);
    assert_eq!(writer.reader_count(), 0);
    assert_eq!(writer.get_last_sn().value, 1);
}
