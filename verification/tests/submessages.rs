use rustdds::dds::ddsdata::key_hash_of;
use rustdds::dds::ddsdata::status_flags;
use rustdds::dds::ddsdata::DDSData;
use rustdds::dds::traits::key::KeyHash;
use rustdds::messages::submessages::data::Data;
use rustdds::messages::submessages::submessage_elements::parameter::Parameter;
use rustdds::messages::submessages::submessage_elements::parameter_list::ParameterList;
use rustdds::messages::submessages::submessage_elements::serialized_payload::RepresentationIdentifier;
use rustdds::messages::submessages::submessage_elements::serialized_payload::SerializedPayload;
use rustdds::structure::cache_change::ChangeKind;
use rustdds::structure::parameter_id::ParameterId;
use rustdds::dds::writer::AckNackResponse;
use rustdds::messages::header::Header;
use rustdds::messages::message::read_submessage;
use rustdds::messages::message::split_submessages;
use rustdds::messages::message::Message;
use rustdds::messages::protocol_version::ProtocolVersion;
use rustdds::messages::submessages::ack_nack::AckNack;
use rustdds::messages::submessages::gap::Gap;
use rustdds::messages::submessages::heartbeat::Heartbeat;
use rustdds::messages::submessages::info_destination::InfoDestination;
use rustdds::messages::submessages::info_reply::read_locators;
use rustdds::messages::submessages::info_reply::write_locators;
use rustdds::messages::submessages::info_reply::InfoReply;
use rustdds::messages::submessages::info_source::InfoSource;
use rustdds::messages::submessages::info_timestamp::InfoTimestamp;
use rustdds::messages::submessages::submessage::EntitySubmessage;
use rustdds::messages::submessages::submessage::InterpreterSubmessage;
use rustdds::messages::submessages::submessage::SubMessage;
use rustdds::messages::submessages::submessage::SubmessageBody;
use rustdds::messages::submessages::submessage::SubmessageHeader;
use rustdds::messages::submessages::submessage::SubmessageKind;
use rustdds::messages::vendor_id::VendorId;
use rustdds::messages::wire::MessageError;
use rustdds::messages::wire::WireReader;
use rustdds::serialization::byte_order::Endianness;
use rustdds::structure::guid::EntityId;
use rustdds::structure::guid::GuidPrefix;
use rustdds::structure::locator::Locator;
use rustdds::structure::sequence_number::SequenceNumber;
use rustdds::structure::sequence_number::SequenceNumberSet;
use rustdds::structure::time::Timestamp;

fn set(base: i64, bits: &[bool]) -> SequenceNumberSet {
    SequenceNumberSet { base: SequenceNumber::from(base), bits: bits.to_vec() }
}

fn acknack() -> AckNack {
    AckNack {
        reader_id: EntityId { value: 0x107 },
        writer_id: EntityId { value: 0x102 },
        reader_sn_state: set(5, &[true, false, true]),
        count: 2,
    }
}

fn acknack_bytes_le() -> Vec<u8> {
    vec![
        0x00, 0x00, 0x01, 0x07, // reader
        0x00, 0x00, 0x01, 0x02, // writer
        0x00, 0x00, 0x00, 0x00, 0x05, 0x00, 0x00, 0x00, // base 5
        0x03, 0x00, 0x00, 0x00, // three bits
        0x00, 0x00, 0x00, 0xa0, // the first bit is the most significant
        0x02, 0x00, 0x00, 0x00, // count
    ]
}

#[test]
fn acknack_bytes_in_both_byte_orders() {
    let mut out = Vec::new();
    acknack().write_to(&mut out, Endianness::LittleEndian);
    assert_eq!(out, acknack_bytes_le());
    assert_eq!(AckNack::read_from(&out, Endianness::LittleEndian), Ok(acknack()));
    let mut out = Vec::new();
    acknack().write_to(&mut out, Endianness::BigEndian);
    assert_eq!(
        out,
        vec![
            0x00, 0x00, 0x01, 0x07, 0x00, 0x00, 0x01, 0x02, 0x00, 0x00, 0x00, 0x00, 0x00, 0x00, 0x00, 0x05, 0x00,
            0x00, 0x00, 0x03, 0xa0, 0x00, 0x00, 0x00, 0x00, 0x00, 0x00, 0x02,
        ]
    );
    assert_eq!(AckNack::read_from(&out, Endianness::BigEndian), Ok(acknack()));
}

#[test]
fn sets_of_every_length_come_back() {
    for length in [0usize, 1, 31, 32, 33, 64, 255, 256] {
        for e in [Endianness::LittleEndian, Endianness::BigEndian] {
            let bits: Vec<bool> = (0..length).map(|i| i % 3 == 0 || i % 7 == 5).collect();
            let written = set(i64::MAX - 255, &bits);
            assert!(written.is_well_formed());
            let mut out = Vec::new();
            written.write_to(&mut out, e);
            assert_eq!(out.len(), 12 + 4 * ((length + 31) / 32));
            out.push(0x77);
            let mut reader = WireReader::new(&out, e);
            assert_eq!(SequenceNumberSet::read_from(&mut reader), Ok(written));
            assert_eq!(reader.rest(), &[0x77]);
        }
    }
}

#[test]
fn a_set_that_is_too_long_or_cut_short_is_refused() {
    let read = |bytes: &[u8]| {
        let mut reader = WireReader::new(bytes, Endianness::LittleEndian);
        SequenceNumberSet::read_from(&mut reader)
    };
    let mut bytes = vec![0, 0, 0, 0, 1, 0, 0, 0];
    assert_eq!(read(&bytes), Err(MessageError::Truncated));
    bytes.extend_from_slice(&[0x01, 0x01, 0, 0]);
    // 257 bits
    assert_eq!(read(&bytes), Err(MessageError::MalformedSubmessage));
    bytes[8] = 0x21;
    bytes[9] = 0;
    // 33 bits need two words
    bytes.extend_from_slice(&[0, 0, 0, 0x80]);
    assert_eq!(read(&bytes), Err(MessageError::Truncated));
    bytes.extend_from_slice(&[0, 0, 0, 0x80]);
    let read_back = read(&bytes).unwrap();
    assert_eq!(read_back.bits.len(), 33);
    assert!(read_back.contains(1));
    assert!(read_back.contains(33));
    assert!(!read_back.contains(2));
    // a window that reaches beyond the last sequence number
    let mut beyond = vec![0xff, 0xff, 0xff, 0x7f, 0xff, 0xff, 0xff, 0xff, 2, 0, 0, 0, 0, 0, 0, 0];
    assert_eq!(read(&beyond), Err(MessageError::MalformedSubmessage));
    beyond[8] = 1;
    assert_eq!(read(&beyond).unwrap().base, SequenceNumber::from(i64::MAX));
    assert!(!set(i64::MAX, &[true, true]).is_well_formed());
    assert!(!set(1, &[false; 257]).is_well_formed());
}

#[test]
fn acknack_errors() {
    let bytes = acknack_bytes_le();
    for cut in [0, 7, 8, 19, 20, 23, 24, 27] {
        assert_eq!(AckNack::read_from(&bytes[..cut], Endianness::LittleEndian), Err(MessageError::Truncated));
    }
    let mut long = bytes.clone();
    long[16] = 0xff;
    long[17] = 0xff;
    assert_eq!(AckNack::read_from(&long, Endianness::LittleEndian), Err(MessageError::MalformedSubmessage));
}

#[test]
fn gap_bytes_and_what_a_gap_covers() {
    let gap = Gap {
        reader_id: EntityId { value: 0x107 },
        writer_id: EntityId { value: 0x102 },
        gap_start: SequenceNumber::from(3),
        gap_list: set(6, &[false, true]),
    };
    let mut out = Vec::new();
    gap.write_to(&mut out, Endianness::BigEndian);
    assert_eq!(
        out,
        vec![
            0x00, 0x00, 0x01, 0x07, 0x00, 0x00, 0x01, 0x02, // reader, writer
            0, 0, 0, 0, 0, 0, 0, 3, // first number
            0, 0, 0, 0, 0, 0, 0, 6, // base
            0, 0, 0, 2, // two bits
            0x40, 0, 0, 0,
        ]
    );
    assert_eq!(Gap::read_from(&out, Endianness::BigEndian), Ok(gap.clone()));
    assert_eq!(Gap::read_from(&out[..15], Endianness::BigEndian), Err(MessageError::Truncated));
    assert_eq!(Gap::read_from(&out[..31], Endianness::BigEndian), Err(MessageError::Truncated));
    let covered: Vec<i64> = (0..10).filter(|sn| gap.covers(*sn)).collect();
    assert_eq!(covered, vec![3, 4, 5, 7]);
}

#[test]
fn the_numbers_that_are_gone_make_a_gap() {
    let none = AckNackResponse { accepted: true, retransmit: vec![4], gaps: vec![] };
    assert!(none.gap(EntityId { value: 0x107 }, EntityId { value: 0x102 }).is_none());
    let response = AckNackResponse { accepted: true, retransmit: vec![], gaps: vec![2, 3, 7, 300] };
    let gap = response.gap(EntityId { value: 0x107 }, EntityId { value: 0x102 }).unwrap();
    assert_eq!(gap.reader_id, EntityId { value: 0x107 });
    assert_eq!(gap.writer_id, EntityId { value: 0x102 });
    assert_eq!(gap.gap_start, SequenceNumber::from(2));
    assert_eq!(gap.gap_list, set(2, &[true, true, false, false, false, true]));
    let covered: Vec<i64> = (-5..400).filter(|sn| gap.covers(*sn)).collect();
    assert_eq!(covered, vec![2, 3, 7]);
    let last = AckNackResponse { accepted: true, retransmit: vec![], gaps: vec![i64::MAX] };
    let gap = last.gap(EntityId::unknown(), EntityId::unknown()).unwrap();
    assert!(gap.gap_list.is_well_formed());
    assert!(gap.covers(i64::MAX));
    assert!(!gap.covers(i64::MAX - 1));
}

fn locators() -> Vec<Locator> {
    vec![Locator::udpv4(127, 0, 0, 1, 7410), Locator { kind: 2, port: 9, address: u128::MAX - 1 }]
}

#[test]
fn locator_lists_on_the_wire() {
    let mut out = Vec::new();
    assert!(write_locators(&mut out, &locators(), Endianness::LittleEndian));
    let mut expected = vec![2, 0, 0, 0];
    expected.extend_from_slice(&[1, 0, 0, 0, 0xf2, 0x1c, 0, 0]);
    expected.extend_from_slice(&[0, 0, 0, 0, 0, 0, 0, 0, 0, 0, 0, 0, 127, 0, 0, 1]);
    expected.extend_from_slice(&[2, 0, 0, 0, 9, 0, 0, 0]);
    expected.extend_from_slice(&[0xff; 15]);
    expected.push(0xfe);
    assert_eq!(out, expected);
    let mut reader = WireReader::new(&out, Endianness::LittleEndian);
    assert_eq!(read_locators(&mut reader), Ok(locators()));
    assert_eq!(reader.remaining_len(), 0);
    let mut reader = WireReader::new(&out[..out.len() - 1], Endianness::LittleEndian);
    assert_eq!(read_locators(&mut reader), Err(MessageError::Truncated));
    let mut reader = WireReader::new(&out[..3], Endianness::LittleEndian);
    assert_eq!(read_locators(&mut reader), Err(MessageError::Truncated));
    let mut reader = WireReader::new(&[0, 0, 0, 0, 5], Endianness::BigEndian);
    assert_eq!(read_locators(&mut reader), Ok(vec![]));
    assert_eq!(reader.rest(), &[5]);
}

#[test]
fn info_reply_reads_the_multicast_list_where_the_flag_is_set() {
    let both = InfoReply {
        unicast_locator_list: locators(),
        multicast_locator_list: Some(vec![Locator::udpv4(239, 255, 0, 1, 7400)]),
    };
    assert!(both.has_multicast());
    let mut out = Vec::new();
    assert!(both.write_to(&mut out, Endianness::BigEndian));
    assert_eq!(out.len(), 4 + 48 + 4 + 24);
    assert_eq!(InfoReply::read_from(&out, 0x02, Endianness::BigEndian), Ok(both.clone()));
    let unicast_only = InfoReply { unicast_locator_list: locators(), multicast_locator_list: None };
    assert_eq!(InfoReply::read_from(&out, 0x00, Endianness::BigEndian), Ok(unicast_only.clone()));
    assert!(!unicast_only.has_multicast());
    let mut out = Vec::new();
    assert!(unicast_only.write_to(&mut out, Endianness::LittleEndian));
    assert_eq!(out.len(), 52);
    assert_eq!(InfoReply::read_from(&out, 0x01, Endianness::LittleEndian), Ok(unicast_only));
    assert_eq!(InfoReply::read_from(&out, 0x03, Endianness::LittleEndian), Err(MessageError::Truncated));
}

#[test]
fn the_other_info_submessages() {
    let prefix = GuidPrefix { host_id: 0x0102_0304, app_id: 0x0506_0708, instance_id: 0x090a_0b0c };
    let destination = InfoDestination { guid_prefix: prefix };
    let mut out = Vec::new();
    destination.write_to(&mut out);
    assert_eq!(out, vec![1, 2, 3, 4, 5, 6, 7, 8, 9, 10, 11, 12]);
    assert_eq!(InfoDestination::read_from(&out), Ok(destination));
    assert_eq!(InfoDestination::read_from(&out[..11]), Err(MessageError::Truncated));

    let source = InfoSource {
        protocol_version: ProtocolVersion { major: 2, minor: 3 },
        vendor_id: VendorId { first: 1, second: 0x12 },
        guid_prefix: prefix,
    };
    let mut out = Vec::new();
    source.write_to(&mut out);
    assert_eq!(out, vec![0, 0, 0, 0, 2, 3, 1, 0x12, 1, 2, 3, 4, 5, 6, 7, 8, 9, 10, 11, 12]);
    assert_eq!(InfoSource::read_from(&out), Ok(source));
    assert_eq!(InfoSource::read_from(&out[..19]), Err(MessageError::Truncated));

    let stamp = InfoTimestamp { timestamp: Some(Timestamp { seconds: 0x0102_0304, fraction: 0x8000_0000 }) };
    let mut out = Vec::new();
    stamp.write_to(&mut out, Endianness::LittleEndian);
    assert_eq!(out, vec![4, 3, 2, 1, 0, 0, 0, 0x80]);
    assert_eq!(InfoTimestamp::read_from(&out, 0x01, Endianness::LittleEndian), Ok(stamp));
    assert_eq!(InfoTimestamp::read_from(&out[..7], 0x01, Endianness::LittleEndian), Err(MessageError::Truncated));
    let none = InfoTimestamp { timestamp: None };
    assert_eq!(InfoTimestamp::read_from(&out, 0x03, Endianness::LittleEndian), Ok(none));
    assert_eq!(InfoTimestamp::read_from(&[], 0x02, Endianness::BigEndian), Ok(none));
    let mut out = Vec::new();
    none.write_to(&mut out, Endianness::LittleEndian);
    assert!(out.is_empty());
}

fn header() -> Header {
    Header {
        protocol_version: ProtocolVersion::protocolversion_2_3(),
        vendor_id: VendorId::this_implementation(),
        guid_prefix: GuidPrefix { host_id: 1, app_id: 2, instance_id: 3 },
    }
}

fn heartbeat() -> Heartbeat {
    Heartbeat {
        reader_id: EntityId { value: 0x107 },
        writer_id: EntityId { value: 0x102 },
        first_sn: SequenceNumber::from(1),
        last_sn: SequenceNumber::from(9),
        count: 4,
    }
}

fn message() -> Message {
    let bodies = vec![
        SubmessageBody::Interpreter(InterpreterSubmessage::InfoTimestamp(
            InfoTimestamp { timestamp: Some(Timestamp { seconds: 10, fraction: 0 }) },
            0x01,
        )),
        SubmessageBody::Entity(EntitySubmessage::Heartbeat(heartbeat(), 0x00)),
        SubmessageBody::Entity(EntitySubmessage::AckNack(acknack(), 0x01)),
    ];
    Message {
        header: header(),
        submessages: bodies.into_iter().map(|b| SubMessage::from_body(b).unwrap()).collect(),
    }
}

#[test]
fn a_message_is_its_header_and_its_submessages() {
    let message = message();
    let lengths: Vec<(u8, u8, u16)> =
        message.submessages.iter().map(|m| (m.header.kind.value, m.header.flags, m.header.content_length)).collect();
    assert_eq!(lengths, vec![(0x09, 0x01, 8), (0x07, 0x00, 28), (0x06, 0x01, 28)]);
    let mut out = vec![0xee];
    assert!(message.write_to(&mut out));
    assert_eq!(out.len(), 1 + 20 + (4 + 8) + (4 + 28) + (4 + 28));
    assert_eq!(&out[1..5], b"RTPS");
    // each submessage states its own byte order
    assert_eq!(&out[21..25], &[0x09, 0x01, 8, 0]);
    assert_eq!(&out[33..37], &[0x07, 0x00, 0, 28]);
    assert_eq!(&out[65..69], &[0x06, 0x01, 28, 0]);
    assert_eq!(&out[69..], &acknack_bytes_le()[..]);

    let (read, errors) = Message::read_from(&bytes::Bytes::from(out[1..].to_vec())).unwrap();
    assert!(errors.is_empty());
    assert_eq!(read.header, header());
    assert_eq!(read.submessages.len(), 3);
    match &read.submessages[0].body {
        SubmessageBody::Interpreter(InterpreterSubmessage::InfoTimestamp(stamp, flags)) => {
            assert_eq!(stamp.timestamp, Some(Timestamp { seconds: 10, fraction: 0 }));
            assert_eq!(*flags, 0x01);
        }
        _ => panic!("the first submessage states the time"),
    }
    match &read.submessages[1].body {
        SubmessageBody::Entity(EntitySubmessage::Heartbeat(h, flags)) => {
            assert_eq!(*h, heartbeat());
            assert_eq!(*flags, 0x00);
        }
        _ => panic!("the second submessage is the heartbeat"),
    }
    match &read.submessages[2].body {
        SubmessageBody::Entity(EntitySubmessage::AckNack(a, _)) => assert_eq!(*a, acknack()),
        _ => panic!("the third submessage is the acknowledgement"),
    }
    assert_eq!(read.submessages[2].header, message.submessages[2].header);
}

#[test]
fn submessages_of_other_kinds_are_passed_over() {
    let mut out = Vec::new();
    header().write_to(&mut out);
    out.extend_from_slice(&[0x01, 0x00, 0, 3, 9, 9, 9]); // padding
    out.extend_from_slice(&[0x80, 0x01, 2, 0, 7, 7]); // of a vendor
    out.extend_from_slice(&[0x0e, 0x00, 0, 12, 1, 2, 3, 4, 5, 6, 7, 8, 9, 10, 11, 12]);
    let (frames, failure) = split_submessages(&out, 20);
    assert_eq!(failure, None);
    let kinds: Vec<(u8, u16, usize)> =
        frames.iter().map(|(h, start)| (h.kind.value, h.content_length, *start)).collect();
    assert_eq!(kinds, vec![(0x01, 3, 24), (0x80, 2, 31), (0x0e, 12, 37)]);
    let (read, errors) = Message::read_from(&bytes::Bytes::from(out.clone())).unwrap();
    assert!(errors.is_empty());
    assert_eq!(read.submessages.len(), 1);
    match &read.submessages[0].body {
        SubmessageBody::Interpreter(InterpreterSubmessage::InfoDestination(d, _)) => {
            assert_eq!(d.guid_prefix.host_id, 0x0102_0304)
        }
        _ => panic!("the destination is read"),
    }
    let unknown = SubmessageHeader { kind: SubmessageKind { value: 0x80 }, flags: 1, content_length: 2 };
    assert!(read_submessage(unknown, &bytes::Bytes::from(vec![7, 7])).unwrap().is_none());
    assert!(Message::read_from(&bytes::Bytes::from(out[..20].to_vec())).unwrap().0.submessages.is_empty());
}

fn kinds_and_errors(bytes: &[u8]) -> (Vec<u8>, Vec<MessageError>) {
    let (message, errors) = Message::read_from(&bytes::Bytes::from(bytes.to_vec())).unwrap();
    (message.submessages.iter().map(|m| m.header.kind.value).collect(), errors)
}

#[test]
fn a_message_without_its_header_is_refused() {
    let mut out = Vec::new();
    assert!(message().write_to(&mut out));
    let read = |bytes: &[u8]| Message::read_from(&bytes::Bytes::from(bytes.to_vec())).err();
    assert_eq!(read(&out[..19]), Some(MessageError::Truncated));
    let mut wrong = out.clone();
    wrong[0] = b'X';
    assert_eq!(read(&wrong), Some(MessageError::UnsupportedVersion));
    let mut later = out.clone();
    later[4] = 3;
    assert_eq!(read(&later), Some(MessageError::UnsupportedVersion));
}

#[test]
fn a_submessage_that_does_not_parse_is_left_out_and_the_others_stay() {
    let mut out = Vec::new();
    assert!(message().write_to(&mut out));
    assert_eq!(kinds_and_errors(&out), (vec![0x09, 0x07, 0x06], vec![]));
    // the message ends within a submessage: what stands before it is read
    assert_eq!(kinds_and_errors(&out[..22]), (vec![], vec![MessageError::Truncated]));
    assert_eq!(kinds_and_errors(&out[..out.len() - 1]), (vec![0x09, 0x07], vec![MessageError::Truncated]));
    let (frames, failure) = split_submessages(&out[..out.len() - 1], 20);
    assert_eq!(frames.len(), 2);
    assert_eq!(failure, Some(MessageError::Truncated));
    // an acknowledgement with too many bits
    let mut long = out.clone();
    long[68 + 16] = 0xff;
    long[68 + 17] = 0xff;
    assert_eq!(kinds_and_errors(&long), (vec![0x09, 0x07], vec![MessageError::MalformedSubmessage]));
    // a heartbeat whose header states too short a content, in the middle
    let mut middle = out[..32].to_vec();
    middle.extend_from_slice(&[0x07, 0x00, 0, 4, 0, 0, 0, 0]);
    middle.extend_from_slice(&out[64..]);
    assert_eq!(kinds_and_errors(&middle), (vec![0x09, 0x06], vec![MessageError::Truncated]));
    // the errors come in the order of the submessages
    let mut both = out[..20].to_vec();
    both.extend_from_slice(&long[64..]);
    both.extend_from_slice(&[0x07, 0x00, 0, 4, 0, 0, 0, 0]);
    both.extend_from_slice(&out[20..32]);
    both.extend_from_slice(&[0x15, 0x01, 9]);
    assert_eq!(
        kinds_and_errors(&both),
        (
            vec![0x09],
            vec![MessageError::MalformedSubmessage, MessageError::Truncated, MessageError::Truncated]
        )
    );
}

#[test]
fn what_cannot_be_written_is_not_written() {
    let bad_set = AckNack { reader_sn_state: set(1, &[false; 300]), ..acknack() };
    let body = SubmessageBody::Entity(EntitySubmessage::AckNack(bad_set, 0x01));
    let mut out = vec![1, 2, 3];
    assert!(!body.write_to(&mut out));
    assert_eq!(out, vec![1, 2, 3]);
    assert!(SubMessage::from_body(body).is_none());
    let long_reply = InfoReply {
        unicast_locator_list: vec![Locator::invalid(); 3000],
        multicast_locator_list: None,
    };
    let body = SubmessageBody::Interpreter(InterpreterSubmessage::InfoReply(long_reply, 0x00));
    assert_eq!(body.kind().value, 0x0f);
    assert_eq!(body.flags(), 0x00);
    // longer than the header of a submessage can state
    assert!(SubMessage::from_body(body).is_none());
    let mut broken = message();
    broken.submessages.push(SubMessage {
        header: SubmessageHeader { kind: SubmessageKind { value: 0x08 }, flags: 0, content_length: 0 },
        body: SubmessageBody::Entity(EntitySubmessage::Gap(
            Gap {
                reader_id: EntityId::unknown(),
                writer_id: EntityId::unknown(),
                gap_start: SequenceNumber::from(1),
                gap_list: set(i64::MAX, &[true, true]),
            },
            0,
        )),
    });
    let mut out = Vec::new();
    assert!(!broken.write_to(&mut out));
    assert!(out.is_empty());
}

fn over_the_wire(change: &DDSData) -> Option<DDSData> {
    let (data, flags) = change.to_data(EntityId { value: 0x107 }, EntityId { value: 0x102 }, SequenceNumber::from(7));
    assert!(data.fits());
    let flags = flags | 0x01;
    let mut out = Vec::new();
    data.write_to(&mut out, Endianness::LittleEndian);
    let read = Data::deserialize_data(&bytes::Bytes::from(out), flags).unwrap();
    assert_eq!(read.writer_sn, SequenceNumber::from(7));
    assert_eq!(read.reader_id, EntityId { value: 0x107 });
    assert_eq!(read.writer_id, EntityId { value: 0x102 });
    DDSData::from_data(&read, flags)
}

fn bytes_of(n: u8) -> SerializedPayload {
    SerializedPayload::new_from_bytes(RepresentationIdentifier { value: 0x0001 }, vec![n; 8])
}

#[test]
fn a_change_survives_the_wire() {
    let value = DDSData::new(bytes_of(1));
    let (data, flags) = value.to_data(EntityId::unknown(), EntityId { value: 0x102 }, SequenceNumber::from(1));
    assert_eq!(flags, 0x04);
    assert!(data.inline_qos.is_none());
    assert!(over_the_wire(&value).unwrap().same_as(&value));

    for kind in [ChangeKind::NotAliveDisposed, ChangeKind::NotAliveUnregistered] {
        let by_key = DDSData::new_disposed_by_key(kind, bytes_of(2));
        let (data, flags) = by_key.to_data(EntityId::unknown(), EntityId { value: 0x102 }, SequenceNumber::from(1));
        assert_eq!(flags, 0x0a);
        let expected = if kind == ChangeKind::NotAliveDisposed { 1 } else { 2 };
        assert_eq!(data.inline_qos.as_ref().unwrap().parameters[0].value, vec![0, 0, 0, expected]);
        assert_eq!(status_flags(&data.inline_qos.as_ref().unwrap().parameters), Some(expected));
        let read = over_the_wire(&by_key).unwrap();
        assert!(read.same_as(&by_key));
        assert_eq!(read.change_kind(), kind);

        let by_hash = DDSData::new_disposed_by_key_hash(kind, KeyHash { value: 0x0102_0304_0506_0708_090a_0b0c_0d0e_0f10 });
        let (data, flags) = by_hash.to_data(EntityId::unknown(), EntityId { value: 0x102 }, SequenceNumber::from(1));
        assert_eq!(flags, 0x02);
        assert!(data.serialized_payload.is_none());
        let parameters = &data.inline_qos.as_ref().unwrap().parameters;
        assert_eq!(parameters[0].parameter_id.value, 0x70);
        assert_eq!(parameters[0].value, (1..=16).collect::<Vec<u8>>());
        assert_eq!(key_hash_of(parameters), Some(KeyHash { value: 0x0102_0304_0506_0708_090a_0b0c_0d0e_0f10 }));
        assert!(over_the_wire(&by_hash).unwrap().same_as(&by_hash));
    }
}

#[test]
fn what_a_data_submessage_carries_goes_by_its_flags() {
    let data = Data {
        reader_id: EntityId::unknown(),
        writer_id: EntityId { value: 0x102 },
        writer_sn: SequenceNumber::from(1),
        inline_qos: None,
        serialized_payload: Some(bytes_of(3)),
    };
    assert!(DDSData::from_data(&data, 0x04).unwrap().same_as(&DDSData::new(bytes_of(3))));
    // a key without a status is the key of a disposed instance
    assert!(DDSData::from_data(&data, 0x08)
        .unwrap()
        .same_as(&DDSData::new_disposed_by_key(ChangeKind::NotAliveDisposed, bytes_of(3))));
    assert!(DDSData::from_data(&data, 0x00).is_none());
    let empty = Data { serialized_payload: None, ..data.clone() };
    assert!(DDSData::from_data(&empty, 0x04).is_none());
    let short_hash = Data {
        serialized_payload: None,
        inline_qos: Some(ParameterList {
            parameters: vec![
                Parameter { parameter_id: ParameterId { value: 0x70 }, value: vec![1; 15] },
                Parameter { parameter_id: ParameterId { value: 0x71 }, value: vec![0, 0, 0] },
                Parameter { parameter_id: ParameterId { value: 0x71 }, value: vec![0, 0, 0, 3] },
                Parameter { parameter_id: ParameterId { value: 0x71 }, value: vec![0, 0, 0, 2] },
                Parameter { parameter_id: ParameterId { value: 0x70 }, value: vec![0; 16] },
                Parameter { parameter_id: ParameterId { value: 0x70 }, value: vec![1; 16] },
            ],
        }),
        ..data.clone()
    };
    // the first parameter that is long enough counts; disposed goes before unregistered
    assert!(DDSData::from_data(&short_hash, 0x02)
        .unwrap()
        .same_as(&DDSData::new_disposed_by_key_hash(ChangeKind::NotAliveDisposed, KeyHash { value: 0 })));
}
