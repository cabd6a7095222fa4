use rustdds::messages::header::Header;
use rustdds::messages::protocol_id::ProtocolId;
use rustdds::messages::protocol_version::ProtocolVersion;
use rustdds::messages::submessages::data::Data;
use rustdds::messages::submessages::heartbeat::Heartbeat;
use rustdds::messages::submessages::info_reply::InfoReply;
use rustdds::messages::submessages::submessage::endianness_flag;
use rustdds::messages::submessages::submessage::flag_set;
use rustdds::messages::submessages::submessage::EntitySubmessage;
use rustdds::messages::submessages::submessage::SubmessageBody;
use rustdds::messages::submessages::submessage::SubmessageHeader;
use rustdds::messages::submessages::submessage::SubmessageKind;
use rustdds::messages::submessages::submessage_elements::parameter::Parameter;
use rustdds::messages::submessages::submessage_elements::parameter_list::ParameterList;
use rustdds::messages::submessages::submessage_elements::serialized_payload::RepresentationIdentifier;
use rustdds::messages::submessages::submessage_elements::serialized_payload::SerializedPayload;
use rustdds::messages::vendor_id::VendorId;
use rustdds::messages::vendor_id::VendorIdData;
use rustdds::messages::wire::MessageError;
use rustdds::messages::wire::WireReader;
use rustdds::serialization::byte_order::Endianness;
use rustdds::structure::guid::EntityId;
use rustdds::structure::guid::GuidPrefix;
use rustdds::structure::locator::Locator;
use rustdds::structure::parameter_id::ParameterId;
use rustdds::structure::sequence_number::SequenceNumber;

#[test]
fn vendor_id_minimum_bytes_needed() {
    assert_eq!(2, VendorId::minimum_bytes_needed());
}

#[test]
fn protocol_id_is_four_bytes_in_both_byte_orders() {
    for e in [Endianness::LittleEndian, Endianness::BigEndian] {
        let mut out = Vec::new();
        ProtocolId::protocol_rtps().write_to(&mut out);
        assert_eq!(out, vec![0x52, 0x54, 0x50, 0x53]);
        let mut reader = WireReader::new(&out, e);
        let read = ProtocolId::read_from(&mut reader).unwrap();
        assert_eq!(read, ProtocolId::protocol_rtps());
        assert!(read.valid());
        assert_eq!(reader.remaining_len(), 0);
    }
    assert_eq!(ProtocolId::default(), ProtocolId::protocol_rtps());
    let mut reader = WireReader::new(&[0x52, 0x54, 0x50], Endianness::LittleEndian);
    assert_eq!(ProtocolId::read_from(&mut reader), Err(MessageError::Truncated));
    assert_eq!(reader.remaining_len(), 3);
}

#[test]
fn vendor_unknown_is_two_zero_bytes() {
    let mut out = Vec::new();
    VendorId::vendor_unknown().write_to(&mut out);
    assert_eq!(out, vec![0x00, 0x00]);
    let mut reader = WireReader::new(&[0x01, 0x12, 0xff], Endianness::BigEndian);
    assert_eq!(VendorId::read_from(&mut reader), Ok(VendorId::this_implementation()));
    assert_eq!(reader.remaining_len(), 1);
    assert_eq!(VendorId::default(), VendorId::vendor_unknown());
    let data = VendorIdData::from(VendorId::this_implementation());
    assert_eq!(data.parameter_id, ParameterId { value: 0x16 });
    assert_eq!(data.parameter_length, 4);
    assert_eq!(data.vendor_id, VendorId { first: 0x01, second: 0x12 });
}

fn heartbeat() -> Heartbeat {
    Heartbeat {
        reader_id: EntityId { value: 0x0000_03c7 },
        writer_id: EntityId { value: 0x0000_03c2 },
        first_sn: SequenceNumber::from(42),
        last_sn: SequenceNumber::from(7),
        count: 9,
    }
}

#[test]
fn heartbeat_bytes_in_both_byte_orders() {
    let le = vec![
        0x00, 0x00, 0x03, 0xC7, 0x00, 0x00, 0x03, 0xC2, 0x00, 0x00, 0x00, 0x00, 0x2A, 0x00, 0x00,
        0x00, 0x00, 0x00, 0x00, 0x00, 0x07, 0x00, 0x00, 0x00, 0x09, 0x00, 0x00, 0x00,
    ];
    let be = vec![
        0x00, 0x00, 0x03, 0xC7, 0x00, 0x00, 0x03, 0xC2, 0x00, 0x00, 0x00, 0x00, 0x00, 0x00, 0x00,
        0x2A, 0x00, 0x00, 0x00, 0x00, 0x00, 0x00, 0x00, 0x07, 0x00, 0x00, 0x00, 0x09,
    ];
    let mut out = Vec::new();
    heartbeat().write_to(&mut out, Endianness::LittleEndian);
    assert_eq!(out, le);
    let mut out = Vec::new();
    heartbeat().write_to(&mut out, Endianness::BigEndian);
    assert_eq!(out, be);
    assert_eq!(Heartbeat::read_from(&le, Endianness::LittleEndian), Ok(heartbeat()));
    assert_eq!(Heartbeat::read_from(&be, Endianness::BigEndian), Ok(heartbeat()));
    assert_eq!(
        Heartbeat::read_from(&le[..27], Endianness::LittleEndian),
        Err(MessageError::Truncated)
    );
}

#[test]
fn heartbeat_round_trip_of_extreme_numbers() {
    for e in [Endianness::LittleEndian, Endianness::BigEndian] {
        for (first, last, count) in
            [(i64::MIN, i64::MAX, i32::MIN), (-1, 0, -1), (1, 0x1_0000_0000, i32::MAX)]
        {
            let h = Heartbeat {
                reader_id: EntityId::unknown(),
                writer_id: EntityId { value: 0xffff_ffff },
                first_sn: SequenceNumber::from(first),
                last_sn: SequenceNumber::from(last),
                count,
            };
            let mut out = Vec::new();
            h.write_to(&mut out, e);
            assert_eq!(out.len(), 28);
            assert_eq!(Heartbeat::read_from(&out, e), Ok(h));
        }
    }
}

#[test]
fn heartbeat_submessage_has_kind_flags_and_length() {
    let sub = heartbeat().create_submessage(0x03).unwrap();
    assert_eq!(
        sub.header,
        SubmessageHeader { kind: SubmessageKind { value: 0x07 }, flags: 0x03, content_length: 28 }
    );
    match sub.body {
        SubmessageBody::Entity(EntitySubmessage::Heartbeat(h, flags)) => {
            assert_eq!(h, heartbeat());
            assert_eq!(flags, 0x03);
        }
        _ => panic!("a heartbeat was put in"),
    }
}

#[test]
fn submessage_header_is_read_in_the_byte_order_of_its_flags() {
    assert_eq!(
        SubmessageHeader::read_from(&[0x15, 0x01, 0x34, 0x12]),
        Ok(SubmessageHeader {
            kind: SubmessageKind { value: 0x15 },
            flags: 0x01,
            content_length: 0x1234
        })
    );
    assert_eq!(
        SubmessageHeader::read_from(&[0x15, 0x00, 0x34, 0x12, 0xff]),
        Ok(SubmessageHeader {
            kind: SubmessageKind { value: 0x15 },
            flags: 0x00,
            content_length: 0x3412
        })
    );
    assert_eq!(SubmessageHeader::read_from(&[0x15, 0x00, 0x34]), Err(MessageError::Truncated));
    let mut out = Vec::new();
    SubmessageHeader { kind: SubmessageKind { value: 0x07 }, flags: 0x01, content_length: 28 }
        .write_to(&mut out);
    assert_eq!(out, vec![0x07, 0x01, 28, 0]);
    assert_eq!(endianness_flag(0x03), Endianness::LittleEndian);
    assert_eq!(endianness_flag(0x02), Endianness::BigEndian);
    assert!(flag_set(0x06, 0x02));
    assert!(flag_set(0x06, 0x04));
    assert!(!flag_set(0x06, 0x01));
    assert!(!flag_set(0x06, 0x08));
}

fn check_parameter(pid: u16, value: Vec<u8>, le: Vec<u8>, be: Vec<u8>) {
    let parameter = Parameter { parameter_id: ParameterId { value: pid }, value };
    let mut out = Vec::new();
    parameter.write_to(&mut out, Endianness::LittleEndian);
    assert_eq!(out, le);
    let mut out = Vec::new();
    parameter.write_to(&mut out, Endianness::BigEndian);
    assert_eq!(out, be);
    let mut reader = WireReader::new(&le, Endianness::LittleEndian);
    assert_eq!(Parameter::read_from(&mut reader), Ok(parameter.clone()));
    assert_eq!(reader.remaining_len(), 0);
    let mut reader = WireReader::new(&be, Endianness::BigEndian);
    assert_eq!(Parameter::read_from(&mut reader), Ok(parameter));
    assert_eq!(reader.remaining_len(), 0);
}

#[test]
fn parameter_bytes_in_both_byte_orders() {
    check_parameter(
        0x15,
        vec![0x02, 0x01, 0x00, 0x00],
        vec![0x15, 0x00, 0x04, 0x00, 0x02, 0x01, 0x00, 0x00],
        vec![0x00, 0x15, 0x00, 0x04, 0x02, 0x01, 0x00, 0x00],
    );
    check_parameter(
        0x16,
        vec![0x01, 0x02, 0x03, 0x04],
        vec![0x16, 0x00, 0x04, 0x00, 0x01, 0x02, 0x03, 0x04],
        vec![0x00, 0x16, 0x00, 0x04, 0x01, 0x02, 0x03, 0x04],
    );
    check_parameter(
        0x50,
        vec![
            0x01, 0x0F, 0xBB, 0x1D, 0xDF, 0x2B, 0x00, 0x00, 0x00, 0x00, 0x00, 0x00, 0x00, 0x00,
            0x01, 0xC1,
        ],
        vec![
            0x50, 0x00, 0x10, 0x00, 0x01, 0x0F, 0xBB, 0x1D, 0xDF, 0x2B, 0x00, 0x00, 0x00, 0x00,
            0x00, 0x00, 0x00, 0x00, 0x01, 0xC1,
        ],
        vec![
            0x00, 0x50, 0x00, 0x10, 0x01, 0x0F, 0xBB, 0x1D, 0xDF, 0x2B, 0x00, 0x00, 0x00, 0x00,
            0x00, 0x00, 0x00, 0x00, 0x01, 0xC1,
        ],
    );
    check_parameter(
        0x02,
        vec![0xFF, 0xFF, 0xFF, 0x7F, 0xFF, 0xFF, 0xFF, 0xFF],
        vec![0x02, 0x00, 0x08, 0x00, 0xFF, 0xFF, 0xFF, 0x7F, 0xFF, 0xFF, 0xFF, 0xFF],
        vec![0x00, 0x02, 0x00, 0x08, 0xFF, 0xFF, 0xFF, 0x7F, 0xFF, 0xFF, 0xFF, 0xFF],
    );
}

#[test]
fn a_parameter_value_is_padded_to_four_bytes() {
    let parameter = Parameter { parameter_id: ParameterId { value: 0x62 }, value: vec![1, 2, 3, 4, 5] };
    let mut out = Vec::new();
    parameter.write_to(&mut out, Endianness::LittleEndian);
    assert_eq!(out, vec![0x62, 0x00, 0x08, 0x00, 1, 2, 3, 4, 5, 0, 0, 0]);
    let mut reader = WireReader::new(&out, Endianness::LittleEndian);
    let read = Parameter::read_from(&mut reader).unwrap();
    assert_eq!(read.value, vec![1, 2, 3, 4, 5, 0, 0, 0]);
    let mut reader = WireReader::new(&out[..11], Endianness::LittleEndian);
    assert_eq!(Parameter::read_from(&mut reader), Err(MessageError::Truncated));
    assert_eq!(reader.remaining_len(), 11);
    assert_eq!(Parameter::minimum_bytes_needed(), 4);
}

#[test]
fn status_info_parameter_holds_the_three_flags() {
    for disposed in [false, true] {
        for unregistered in [false, true] {
            for filtered in [false, true] {
                let p = Parameter::create_pid_status_info_parameter(disposed, unregistered, filtered);
                assert_eq!(p.parameter_id, ParameterId { value: 0x71 });
                let last = (disposed as u8) | ((unregistered as u8) << 1) | ((filtered as u8) << 2);
                assert_eq!(p.value, vec![0, 0, 0, last]);
            }
        }
    }
    assert_eq!(Parameter::create_pid_status_info_parameter(true, false, false).value, vec![0, 0, 0, 1]);
    assert_eq!(Parameter::create_pid_status_info_parameter(false, true, false).value, vec![0, 0, 0, 2]);
    assert_eq!(Parameter::create_pid_status_info_parameter(false, false, true).value, vec![0, 0, 0, 4]);
}

#[test]
fn parameter_list_ends_at_the_sentinel() {
    let list = ParameterList {
        parameters: vec![
            Parameter { parameter_id: ParameterId { value: 0x71 }, value: vec![0, 0, 0, 1] },
            Parameter { parameter_id: ParameterId { value: 0x70 }, value: vec![7; 16] },
        ],
    };
    let mut out = Vec::new();
    list.write_to(&mut out, Endianness::LittleEndian);
    let mut expected = vec![0x71, 0, 4, 0, 0, 0, 0, 1, 0x70, 0, 16, 0];
    expected.extend_from_slice(&[7; 16]);
    expected.extend_from_slice(&[1, 0, 0, 0]);
    assert_eq!(out, expected);
    out.extend_from_slice(&[0xaa, 0xbb]);
    let mut reader = WireReader::new(&out, Endianness::LittleEndian);
    assert_eq!(ParameterList::read_from(&mut reader), Ok(list));
    assert_eq!(reader.rest(), &[0xaa, 0xbb]);
    let mut reader = WireReader::new(&[1, 0, 0, 0], Endianness::LittleEndian);
    assert_eq!(ParameterList::read_from(&mut reader), Ok(ParameterList::new()));
    let mut reader = WireReader::new(&[0x71, 0, 4, 0, 0, 0, 0, 1], Endianness::LittleEndian);
    assert_eq!(ParameterList::read_from(&mut reader), Err(MessageError::Truncated));
    let mut reader = WireReader::new(&[0x71, 0, 3, 0, 0, 0, 0, 1, 0, 0, 0], Endianness::LittleEndian);
    assert_eq!(ParameterList::read_from(&mut reader), Err(MessageError::MalformedSubmessage));
    let mut reader = WireReader::new(&[0x71, 0, 8, 0, 0, 0, 0, 1], Endianness::LittleEndian);
    assert_eq!(ParameterList::read_from(&mut reader), Err(MessageError::Truncated));
}

fn data_bytes() -> Vec<u8> {
    let mut bytes = vec![
        0x00, 0x00, 0x10, 0x00, // extra flags, octets to inline qos
        0x00, 0x00, 0x04, 0xc7, // reader
        0x00, 0x00, 0x04, 0xc2, // writer
        0x00, 0x00, 0x00, 0x00, 0x05, 0x00, 0x00, 0x00, // sequence number 5
    ];
    bytes.extend_from_slice(&[0x71, 0, 4, 0, 0, 0, 0, 1, 1, 0, 0, 0]);
    bytes.extend_from_slice(&[0x00, 0x01, 0x00, 0x00, 0xde, 0xad, 0xbe, 0xef]);
    bytes
}

#[test]
fn data_is_parsed_by_its_flags() {
    let buffer = bytes::Bytes::from(data_bytes());
    let data = Data::deserialize_data(&buffer, 0x01 | 0x02 | 0x04).unwrap();
    assert_eq!(data.reader_id, EntityId { value: 0x04c7 });
    assert_eq!(data.writer_id, EntityId { value: 0x04c2 });
    assert_eq!(data.writer_sn, SequenceNumber::from(5));
    let qos = data.inline_qos.as_ref().unwrap();
    assert_eq!(qos.parameters.len(), 1);
    assert_eq!(qos.parameters[0].value, vec![0, 0, 0, 1]);
    let payload = data.serialized_payload.as_ref().unwrap();
    assert_eq!(payload.representation_identifier, RepresentationIdentifier { value: 1 });
    assert_eq!(payload.representation_options, 0);
    assert_eq!(&payload.value[..], &[0xde, 0xad, 0xbe, 0xef]);

    let mut out = Vec::new();
    data.write_to(&mut out, Endianness::LittleEndian);
    assert_eq!(out, data_bytes());

    let without_payload = Data::deserialize_data(&buffer, 0x01 | 0x02).unwrap();
    assert!(without_payload.serialized_payload.is_none());
    assert!(without_payload.inline_qos.is_some());

    let key_only = bytes::Bytes::from(
        [&data_bytes()[..20], &[0x00u8, 0x01, 0x00, 0x00, 0x09][..]].concat(),
    );
    let keyed = Data::deserialize_data(&key_only, 0x01 | 0x08).unwrap();
    assert!(keyed.inline_qos.is_none());
    assert_eq!(&keyed.serialized_payload.unwrap().value[..], &[0x09]);
}

#[test]
fn data_skips_fields_of_later_versions() {
    let mut bytes = data_bytes()[..20].to_vec();
    bytes[2] = 0x14;
    bytes.extend_from_slice(&[0xff, 0xff, 0xff, 0xff]);
    bytes.extend_from_slice(&[0x00, 0x01, 0x00, 0x00, 0x2a]);
    let data = Data::deserialize_data(&bytes::Bytes::from(bytes), 0x01 | 0x04).unwrap();
    assert_eq!(&data.serialized_payload.unwrap().value[..], &[0x2a]);
}

#[test]
fn data_errors() {
    let short = bytes::Bytes::from(data_bytes()[..19].to_vec());
    assert_eq!(Data::deserialize_data(&short, 0x01).err(), Some(MessageError::Truncated));
    let mut bad = data_bytes();
    bad[2] = 0x0f;
    assert_eq!(
        Data::deserialize_data(&bytes::Bytes::from(bad), 0x01).err(),
        Some(MessageError::MalformedSubmessage)
    );
    let mut far = data_bytes()[..20].to_vec();
    far[2] = 0x20;
    assert_eq!(
        Data::deserialize_data(&bytes::Bytes::from(far), 0x01).err(),
        Some(MessageError::Truncated)
    );
    let no_payload = bytes::Bytes::from(data_bytes()[..22].to_vec());
    assert_eq!(Data::deserialize_data(&no_payload, 0x01 | 0x04).err(), Some(MessageError::Truncated));
    let big_endian_as_little = bytes::Bytes::from(data_bytes());
    assert_eq!(
        Data::deserialize_data(&big_endian_as_little, 0x00).err(),
        Some(MessageError::Truncated)
    );
}

#[test]
fn payload_shares_the_buffer_and_is_written_back() {
    let buffer = bytes::Bytes::from(vec![0x00, 0x03, 0x12, 0x34, 1, 2, 3]);
    let payload = SerializedPayload::from_bytes(&buffer).unwrap();
    assert_eq!(payload.representation_identifier, RepresentationIdentifier { value: 3 });
    assert_eq!(payload.representation_options, 0x1234);
    assert_eq!(&payload.value[..], &[1, 2, 3]);
    let mut out = Vec::new();
    payload.write_to(&mut out);
    assert_eq!(out, vec![0x00, 0x03, 0x12, 0x34, 1, 2, 3]);
    assert_eq!(
        SerializedPayload::from_bytes(&bytes::Bytes::from(vec![0, 1, 2])).err(),
        Some(MessageError::Truncated)
    );
    let built = SerializedPayload::new_from_bytes(RepresentationIdentifier { value: 1 }, vec![9, 8]);
    let mut out = Vec::new();
    built.write_to(&mut out);
    assert_eq!(out, vec![0, 1, 0, 0, 9, 8]);
}

#[test]
fn message_header() {
    let mut bytes = vec![0x52, 0x54, 0x50, 0x53, 2, 3, 0x01, 0x12];
    bytes.extend_from_slice(&[1, 2, 3, 4, 5, 6, 7, 8, 9, 10, 11, 12]);
    bytes.push(0x99);
    let mut reader = WireReader::new(&bytes, Endianness::LittleEndian);
    let header = Header::read_from(&mut reader).unwrap();
    assert_eq!(header.protocol_version, ProtocolVersion { major: 2, minor: 3 });
    assert_eq!(header.vendor_id, VendorId::this_implementation());
    assert_eq!(
        header.guid_prefix,
        GuidPrefix { host_id: 0x0102_0304, app_id: 0x0506_0708, instance_id: 0x090a_0b0c }
    );
    assert_eq!(reader.rest(), &[0x99]);
    let mut out = Vec::new();
    header.write_to(&mut out);
    assert_eq!(out, &bytes[..20]);

    let mut reader = WireReader::new(&bytes[..19], Endianness::LittleEndian);
    assert_eq!(Header::read_from(&mut reader), Err(MessageError::Truncated));
    let mut wrong_magic = bytes.clone();
    wrong_magic[3] = 0x58;
    let mut reader = WireReader::new(&wrong_magic, Endianness::LittleEndian);
    assert_eq!(Header::read_from(&mut reader), Err(MessageError::UnsupportedVersion));
    assert_eq!(reader.remaining_len(), 21);
    let mut wrong_version = bytes.clone();
    wrong_version[4] = 3;
    let mut reader = WireReader::new(&wrong_version, Endianness::LittleEndian);
    assert_eq!(Header::read_from(&mut reader), Err(MessageError::UnsupportedVersion));
    assert!(ProtocolVersion::protocolversion_2_3().supported());
    assert!(!ProtocolVersion { major: 1, minor: 9 }.supported());
}

#[test]
fn info_reply_holds_its_locators() {
    let reply = InfoReply {
        unicast_locator_list: vec![Locator::udpv4(127, 0, 0, 1, 7410)],
        multicast_locator_list: None,
    };
    assert_eq!(reply.unicast_locator_list[0].address, 0x7f00_0001);
    assert_eq!(reply.unicast_locator_list[0].port, 7410);
    assert_eq!(reply.unicast_locator_list[0].kind, 1);
    assert_eq!(reply.clone(), reply);
}
