use rustdds::messages::submessages::submessage_elements::serialized_payload::RepresentationIdentifier;
use rustdds::serialization::byte_order::Endianness;
use rustdds::serialization::cdr_deserializer::CDRDeserializerAdapter;
use rustdds::serialization::cdr_deserializer::CdrDeserializer;
use rustdds::serialization::cdr_serializer::CdrSerializer;
use rustdds::serialization::error::Error;

#[derive(Debug, PartialEq)]
struct OmaTyyppi {
    first_value: u8,
    second_value: i8,
    third_value: i32,
    fourth_value: u64,
    fifth: bool,
    sixth: f32,
    seventh: bool,
    eigth: Vec<i32>,
    ninth: Vec<u8>,
    tenth: Vec<i16>,
    eleventh: Vec<i64>,
    twelwe: [u16; 3],
    thirteen: String,
}

fn write_oma(v: &OmaTyyppi, e: Endianness) -> Vec<u8> {
    let mut s = CdrSerializer::new(e);
    s.serialize_u8(v.first_value);
    s.serialize_i8(v.second_value);
    s.serialize_i32(v.third_value);
    s.serialize_u64(v.fourth_value);
    s.serialize_bool(v.fifth);
    s.serialize_u32(v.sixth.to_bits());
    s.serialize_bool(v.seventh);
    s.serialize_seq_len(v.eigth.len() as u32);
    for x in &v.eigth {
        s.serialize_i32(*x);
    }
    s.serialize_seq_len(v.ninth.len() as u32);
    for x in &v.ninth {
        s.serialize_u8(*x);
    }
    s.serialize_seq_len(v.tenth.len() as u32);
    for x in &v.tenth {
        s.serialize_i16(*x);
    }
    s.serialize_seq_len(v.eleventh.len() as u32);
    for x in &v.eleventh {
        s.serialize_i64(*x);
    }
    for x in &v.twelwe {
        s.serialize_u16(*x);
    }
    s.serialize_str(&v.thirteen);
    s.into_bytes()
}

fn read_oma(bytes: &[u8], e: Endianness) -> Result<OmaTyyppi, Error> {
    let mut d = CdrDeserializer::new(bytes, e);
    let first_value = d.deserialize_u8()?;
    let second_value = d.deserialize_i8()?;
    let third_value = d.deserialize_i32()?;
    let fourth_value = d.deserialize_u64()?;
    let fifth = d.deserialize_bool()?;
    let sixth = f32::from_bits(d.deserialize_u32()?);
    let seventh = d.deserialize_bool()?;
    let mut eigth = Vec::new();
    for _ in 0..d.deserialize_seq_len()? {
        eigth.push(d.deserialize_i32()?);
    }
    let mut ninth = Vec::new();
    for _ in 0..d.deserialize_seq_len()? {
        ninth.push(d.deserialize_u8()?);
    }
    let mut tenth = Vec::new();
    for _ in 0..d.deserialize_seq_len()? {
        tenth.push(d.deserialize_i16()?);
    }
    let mut eleventh = Vec::new();
    for _ in 0..d.deserialize_seq_len()? {
        eleventh.push(d.deserialize_i64()?);
    }
    let twelwe = [d.deserialize_u16()?, d.deserialize_u16()?, d.deserialize_u16()?];
    let thirteen = d.deserialize_str()?.to_string();
    Ok(OmaTyyppi {
        first_value,
        second_value,
        third_value,
        fourth_value,
        fifth,
        sixth,
        seventh,
        eigth,
        ninth,
        tenth,
        eleventh,
        twelwe,
        thirteen,
    })
}

#[test]
#[allow(non_snake_case)]
fn CDR_Deserialization_struct() {
    let mikki_hiiri = OmaTyyppi {
        first_value: 1,
        second_value: -3,
        third_value: -5000,
        fourth_value: 1234u64,
        fifth: true,
        sixth: -6.6f32,
        seventh: true,
        eigth: vec![1, 2],
        ninth: vec![1],
        tenth: vec![5, -4, 3, -2, 1],
        eleventh: vec![],
        twelwe: [3, 2, 1],
        thirteen: "abc".to_string(),
    };

    let expected_serialized_result: Vec<u8> = vec![
        0x01, 0xfd, 0x00, 0x00, 0x78, 0xec, 0xff, 0xff, 0xd2, 0x04, 0x00, 0x00, 0x00, 0x00, 0x00,
        0x00, 0x01, 0x00, 0x00, 0x00, 0x33, 0x33, 0xd3, 0xc0, 0x01, 0x00, 0x00, 0x00, 0x02, 0x00,
        0x00, 0x00, 0x01, 0x00, 0x00, 0x00, 0x02, 0x00, 0x00, 0x00, 0x01, 0x00, 0x00, 0x00, 0x01,
        0x00, 0x00, 0x00, 0x05, 0x00, 0x00, 0x00, 0x05, 0x00, 0xfc, 0xff, 0x03, 0x00, 0xfe, 0xff,
        0x01, 0x00, 0x00, 0x00, 0x00, 0x00, 0x00, 0x00, 0x03, 0x00, 0x02, 0x00, 0x01, 0x00, 0x00,
        0x00, 0x04, 0x00, 0x00, 0x00, 0x61, 0x62, 0x63, 0x00,
    ];

    let sarjallistettu = write_oma(&mikki_hiiri, Endianness::LittleEndian);
    assert_eq!(sarjallistettu, expected_serialized_result);

    let rakennettu = read_oma(&expected_serialized_result, Endianness::LittleEndian).unwrap();
    assert_eq!(rakennettu, mikki_hiiri);
}

#[derive(Debug, PartialEq)]
struct ShapeType {
    color: String,
    x: i32,
    y: i32,
    size: i32,
}

fn write_shape(v: &ShapeType, e: Endianness) -> Vec<u8> {
    let mut s = CdrSerializer::new(e);
    s.serialize_str(&v.color);
    s.serialize_i32(v.x);
    s.serialize_i32(v.y);
    s.serialize_i32(v.size);
    s.into_bytes()
}

fn read_shape(bytes: &[u8], e: Endianness) -> Result<ShapeType, Error> {
    let mut d = CdrDeserializer::new(bytes, e);
    let color = d.deserialize_str()?.to_string();
    let x = d.deserialize_i32()?;
    let y = d.deserialize_i32()?;
    let size = d.deserialize_i32()?;
    Ok(ShapeType { color, x, y, size })
}

#[test]
#[allow(non_snake_case)]
fn CDR_Deserialization_user_defined_data() {
    let message = ShapeType { color: "BLUE".to_string(), x: 34, y: 100, size: 24 };

    let expected_serialized_result: Vec<u8> = vec![
        0x05, 0x00, 0x00, 0x00, 0x42, 0x4c, 0x55, 0x45, 0x00, 0x00, 0x00, 0x00, 0x22, 0x00, 0x00,
        0x00, 0x64, 0x00, 0x00, 0x00, 0x18, 0x00, 0x00, 0x00,
    ];

    let serialized = write_shape(&message, Endianness::LittleEndian);
    assert_eq!(serialized, expected_serialized_result);
    let deserialized_message = read_shape(&serialized, Endianness::LittleEndian).unwrap();
    assert_eq!(deserialized_message, message)
}

#[test]
#[allow(non_snake_case)]
fn CDR_Deserialization_serialization_topic_name() {
    let recieved_cdr_string: Vec<u8> =
        vec![0x07, 0x00, 0x00, 0x00, 0x053, 0x71, 0x75, 0x61, 0x72, 0x65, 0x00];

    let mut d = CdrDeserializer::new_little_endian(&recieved_cdr_string);
    let deserialized_message = d.deserialize_str().unwrap().to_string();
    assert_eq!("Square", deserialized_message);

    let recieved_cdr_string2: Vec<u8> =
        vec![0x0A, 0x00, 0x00, 0x00, 0x53, 0x68, 0x61, 0x70, 0x65, 0x54, 0x79, 0x70, 0x65, 0x00];

    let mut d = CdrDeserializer::new_little_endian(&recieved_cdr_string2);
    let deserialized_message2 = d.deserialize_str().unwrap().to_string();
    assert_eq!("ShapeType", deserialized_message2);
}

#[derive(Debug, PartialEq)]
struct Example {
    a: u32,
    b: [u8; 4],
}

fn write_example(v: &Example, e: Endianness) -> Vec<u8> {
    let mut s = CdrSerializer::new(e);
    s.serialize_u32(v.a);
    for x in &v.b {
        s.serialize_u8(*x);
    }
    s.into_bytes()
}

fn read_example(bytes: &[u8], e: Endianness) -> Result<Example, Error> {
    let mut d = CdrDeserializer::new(bytes, e);
    let a = d.deserialize_u32()?;
    let b = [d.deserialize_u8()?, d.deserialize_u8()?, d.deserialize_u8()?, d.deserialize_u8()?];
    Ok(Example { a, b })
}

#[test]
#[allow(non_snake_case)]
fn CDR_Deserialization_example_struct() {
    let o = Example { a: 1, b: [b'a', b'b', b'c', b'd'] };

    let serialized_le: Vec<u8> = vec![0x01, 0x00, 0x00, 0x00, 0x61, 0x62, 0x63, 0x64];
    let serialized_be: Vec<u8> = vec![0x00, 0x00, 0x00, 0x01, 0x61, 0x62, 0x63, 0x64];

    let deserialized_le = read_example(&serialized_le, Endianness::LittleEndian).unwrap();
    let deserialized_be = read_example(&serialized_be, Endianness::BigEndian).unwrap();
    let serialized_o_le = write_example(&o, Endianness::LittleEndian);
    let serialized_o_be = write_example(&o, Endianness::BigEndian);

    assert_eq!(serialized_o_le, vec![0x01, 0x00, 0x00, 0x00, 0x61, 0x62, 0x63, 0x64,]);
    assert_eq!(serialized_o_be, vec![0x00, 0x00, 0x00, 0x01, 0x61, 0x62, 0x63, 0x64,]);

    assert_eq!(deserialized_le, o);
    assert_eq!(deserialized_be, o);
}

#[test]
#[allow(non_snake_case)]
fn CDR_Deserialization_serialization_payload_shapes() {
    let recieved_message: Vec<u8> = vec![
        0x04, 0x00, 0x00, 0x00, 0x52, 0x45, 0x44, 0x00, 0x61, 0x00, 0x00, 0x00, 0x1b, 0x00, 0x00,
        0x00, 0x1e, 0x00, 0x00, 0x00,
    ];
    let recieved_message2: Vec<u8> = vec![
        0x04, 0x00, 0x00, 0x00, 0x52, 0x45, 0x44, 0x00, 0x61, 0x00, 0x00, 0x00, 0x1b, 0x00, 0x00,
        0x00, 0x1e, 0x00, 0x00, 0x00,
    ];

    let deserialized_message = read_shape(&recieved_message, Endianness::LittleEndian).unwrap();
    let serialized_message = write_shape(&deserialized_message, Endianness::LittleEndian);
    assert_eq!(serialized_message, recieved_message2);
}

#[test]
#[allow(non_snake_case)]
fn CDR_Deserialization_custom_data_message_from_ROS_and_wireshark() {
    let recieved_message_le: Vec<u8> = vec![
        0x00, 0x00, 0x00, 0x00, 0x00, 0x00, 0x00, 0x00, 0x00, 0x00, 0x00, 0x00, 0x00, 0x00, 0x00,
        0x00, 0x00, 0x00, 0x00, 0x00, 0x00, 0x00, 0x00, 0x40, 0x00, 0x00, 0x00, 0x00, 0x00, 0x00,
        0x00, 0x40, 0x00, 0x00, 0x00, 0x00, 0x00, 0x00, 0x00, 0x00, 0x1f, 0x85, 0xeb, 0x51, 0xb8,
        0x1e, 0xd5, 0x3f, 0x0a, 0x00, 0x00, 0x00, 0x54, 0x6f, 0x69, 0x6d, 0x69, 0x69, 0x6b, 0x6f,
        0x3f, 0x00,
    ];

    let mut d = CdrDeserializer::new_little_endian(&recieved_message_le);
    let x = f64::from_bits(d.deserialize_u64().unwrap());
    let y = f64::from_bits(d.deserialize_u64().unwrap());
    let heading = f64::from_bits(d.deserialize_u64().unwrap());
    let v_x = f64::from_bits(d.deserialize_u64().unwrap());
    let v_y = f64::from_bits(d.deserialize_u64().unwrap());
    let kappa = f64::from_bits(d.deserialize_u64().unwrap());
    let test = d.deserialize_str().unwrap().to_string();
    assert_eq!(test, "Toimiiko?");
    assert_eq!((x, y, heading, v_x, v_y), (0.0, 0.0, 2.0, 2.0, 0.0));
    assert_eq!(kappa, 0.33);
    assert!(!d.check_if_bytes_left());
}

#[test]
#[allow(non_snake_case)]
fn CDR_Deserialization_custom_type() {
    let data: Vec<u8> = vec![
        0x1b, 0x00, 0x00, 0x00, 0x54, 0x61, 0x73, 0x73, 0x61, 0x20, 0x6f, 0x6e, 0x20, 0x61, 0x69,
        0x6b, 0x61, 0x20, 0x70, 0x69, 0x74, 0x6b, 0x61, 0x20, 0x74, 0x65, 0x6b, 0x73, 0x74, 0x69,
        0x00, 0x00, 0x02, 0x00, 0x00, 0x00, 0xfd, 0xff, 0xff, 0xff, 0xfc, 0xff, 0xff, 0xff, 0x00,
        0x00, 0xb0, 0x40, 0x66, 0x66, 0x66, 0x66, 0x66, 0x66, 0x1a, 0xc0, 0x01, 0x00, 0x02, 0x00,
        0x03, 0x00, 0x01, 0x00, 0xfe, 0xff, 0xfd, 0xff, 0x04, 0x00, 0x00, 0x00, 0x03, 0x00, 0x00,
        0x00, 0x01, 0x00, 0x01, 0x00, 0x03, 0x00, 0x00, 0x00, 0x17, 0x00, 0x02,
    ];

    let mut s = CdrSerializer::new(Endianness::LittleEndian);
    s.serialize_str("Tassa on aika pitka teksti");
    s.serialize_i32(2);
    s.serialize_i32(-3);
    s.serialize_i32(-4);
    s.serialize_u32(5.5f32.to_bits());
    s.serialize_u64((-6.6f64).to_bits());
    for x in [1u16, 2, 3] {
        s.serialize_u16(x);
    }
    for x in [1i16, -2, -3, 4] {
        s.serialize_i16(x);
    }
    s.serialize_seq_len(3);
    for x in [true, false, true] {
        s.serialize_bool(x);
    }
    s.serialize_seq_len(3);
    for x in [23u8, 0, 2] {
        s.serialize_u8(x);
    }
    let serialization_result_le = s.into_bytes();
    assert_eq!(serialization_result_le, data);

    let mut d = CdrDeserializer::new_little_endian(&data);
    assert_eq!(d.deserialize_str().unwrap(), "Tassa on aika pitka teksti");
    assert_eq!(d.deserialize_i32().unwrap(), 2);
    assert_eq!(d.deserialize_i32().unwrap(), -3);
    assert_eq!(d.deserialize_i32().unwrap(), -4);
    assert_eq!(f32::from_bits(d.deserialize_u32().unwrap()), 5.5);
    assert_eq!(f64::from_bits(d.deserialize_u64().unwrap()), -6.6);
    assert_eq!(d.deserialize_u16().unwrap(), 1);
    assert_eq!(d.deserialize_u16().unwrap(), 2);
    assert_eq!(d.deserialize_u16().unwrap(), 3);
    assert_eq!(d.deserialize_i16().unwrap(), 1);
    assert_eq!(d.deserialize_i16().unwrap(), -2);
    assert_eq!(d.deserialize_i16().unwrap(), -3);
    assert_eq!(d.deserialize_i16().unwrap(), 4);
    assert_eq!(d.deserialize_seq_len().unwrap(), 3);
    assert_eq!(d.deserialize_bool().unwrap(), true);
    assert_eq!(d.deserialize_bool().unwrap(), false);
    assert_eq!(d.deserialize_bool().unwrap(), true);
    assert_eq!(d.deserialize_seq_len().unwrap(), 3);
    assert_eq!(d.deserialize_u8().unwrap(), 23);
    assert_eq!(d.deserialize_u8().unwrap(), 0);
    assert_eq!(d.deserialize_u8().unwrap(), 2);
    assert!(!d.check_if_bytes_left());
}

#[test]
fn round_trip_of_numbers_in_both_byte_orders() {
    for e in [Endianness::LittleEndian, Endianness::BigEndian] {
        let mut s = CdrSerializer::new(e);
        s.serialize_u8(35);
        s.serialize_u16(35);
        s.serialize_u32(352323);
        s.serialize_u64(352323232);
        s.serialize_i8(-3);
        s.serialize_i16(-3);
        s.serialize_i32(-323232);
        s.serialize_i64(-3232323434);
        s.serialize_bool(true);
        s.serialize_bool(false);
        s.serialize_u32(2.35f32.to_bits());
        s.serialize_u64(278.35f64.to_bits());
        s.serialize_char('a');
        s.serialize_char('ä');
        s.serialize_str("BLUE");
        s.serialize_str("Tässä on aika pitkä teksti");
        s.serialize_option_tag(true);
        s.serialize_option_tag(false);
        s.serialize_enum_tag(2);
        s.serialize_i64(i64::MIN);
        s.serialize_i32(i32::MIN);
        s.serialize_i16(i16::MIN);
        s.serialize_i8(i8::MIN);
        s.serialize_u64(u64::MAX);
        let bytes = s.into_bytes();
        let mut d = CdrDeserializer::new(&bytes, e);
        assert_eq!(d.deserialize_u8(), Ok(35));
        assert_eq!(d.deserialize_u16(), Ok(35));
        assert_eq!(d.deserialize_u32(), Ok(352323));
        assert_eq!(d.deserialize_u64(), Ok(352323232));
        assert_eq!(d.deserialize_i8(), Ok(-3));
        assert_eq!(d.deserialize_i16(), Ok(-3));
        assert_eq!(d.deserialize_i32(), Ok(-323232));
        assert_eq!(d.deserialize_i64(), Ok(-3232323434));
        assert_eq!(d.deserialize_bool(), Ok(true));
        assert_eq!(d.deserialize_bool(), Ok(false));
        assert_eq!(d.deserialize_u32().map(f32::from_bits), Ok(2.35f32));
        assert_eq!(d.deserialize_u64().map(f64::from_bits), Ok(278.35f64));
        assert_eq!(d.deserialize_char(), Ok('a'));
        assert_eq!(d.deserialize_char(), Ok('ä'));
        assert_eq!(d.deserialize_str(), Ok("BLUE"));
        assert_eq!(d.deserialize_str(), Ok("Tässä on aika pitkä teksti"));
        assert_eq!(d.deserialize_option_tag(), Ok(true));
        assert_eq!(d.deserialize_option_tag(), Ok(false));
        assert_eq!(d.deserialize_enum_tag(), Ok(2));
        assert_eq!(d.deserialize_i64(), Ok(i64::MIN));
        assert_eq!(d.deserialize_i32(), Ok(i32::MIN));
        assert_eq!(d.deserialize_i16(), Ok(i16::MIN));
        assert_eq!(d.deserialize_i8(), Ok(i8::MIN));
        assert_eq!(d.deserialize_u64(), Ok(u64::MAX));
        assert!(!d.check_if_bytes_left());
    }
}

#[test]
fn byte_order_decides_the_bytes_of_a_number() {
    let mut s = CdrSerializer::new(Endianness::BigEndian);
    s.serialize_u16(0x0102);
    s.serialize_u32(0x0304_0506);
    s.serialize_u64(0x0708_090a_0b0c_0d0e);
    assert_eq!(
        s.into_bytes(),
        vec![1, 2, 0, 0, 3, 4, 5, 6, 7, 8, 9, 10, 11, 12, 13, 14]
    );
    let mut s = CdrSerializer::new(Endianness::LittleEndian);
    s.serialize_u16(0x0102);
    s.serialize_u32(0x0304_0506);
    s.serialize_u64(0x0708_090a_0b0c_0d0e);
    assert_eq!(
        s.into_bytes(),
        vec![2, 1, 0, 0, 6, 5, 4, 3, 14, 13, 12, 11, 10, 9, 8, 7]
    );
    let mut d = CdrDeserializer::new_big_endian(&[0x12, 0x34]);
    assert_eq!(d.deserialize_u16(), Ok(0x1234));
    let mut d = CdrDeserializer::new_little_endian(&[0x12, 0x34]);
    assert_eq!(d.deserialize_u16(), Ok(0x3412));
}

#[test]
fn numbers_are_aligned_to_their_size() {
    let mut s = CdrSerializer::new(Endianness::LittleEndian);
    s.serialize_u8(1);
    s.serialize_u64(2);
    assert_eq!(s.into_bytes(), vec![1, 0, 0, 0, 0, 0, 0, 0, 2, 0, 0, 0, 0, 0, 0, 0]);
    let bytes = [1u8, 9, 9, 9, 7, 0, 0, 0];
    let mut d = CdrDeserializer::new_little_endian(&bytes);
    assert_eq!(d.deserialize_u8(), Ok(1));
    assert_eq!(d.calculate_padding_count_from_written_bytes_and_remove(4), Ok(()));
    assert_eq!(d.peek_byte(), Ok(7));
    assert_eq!(d.deserialize_u32(), Ok(7));
    assert_eq!(d.peek_byte(), Err(Error::Eof));
}

#[test]
fn each_error_has_an_input_that_gives_it() {
    let mut d = CdrDeserializer::new_little_endian(&[]);
    assert_eq!(d.deserialize_bool(), Err(Error::Eof));
    assert_eq!(d.deserialize_u8(), Err(Error::Eof));
    assert_eq!(d.next_bytes(1).err(), Some(Error::Eof));
    assert_eq!(d.remove_bytes_from_input(1), Err(Error::Eof));
    let mut d = CdrDeserializer::new_little_endian(&[1, 2, 3]);
    assert_eq!(d.deserialize_u32(), Err(Error::Eof));
    let mut d = CdrDeserializer::new_little_endian(&[2]);
    assert_eq!(d.deserialize_bool(), Err(Error::BadBoolean(2)));
    let mut d = CdrDeserializer::new_little_endian(&[0x00, 0xd8, 0x00, 0x00]);
    assert_eq!(d.deserialize_char(), Err(Error::BadChar(0xd800)));
    let mut d = CdrDeserializer::new_little_endian(&[0x00, 0x00, 0x11, 0x00]);
    assert_eq!(d.deserialize_char(), Err(Error::BadChar(0x11_0000)));
    let mut d = CdrDeserializer::new_little_endian(&[2, 0, 0, 0]);
    assert_eq!(d.deserialize_option_tag(), Err(Error::BadOption(2)));
    let mut d = CdrDeserializer::new_little_endian(&[0, 0, 0, 0]);
    assert_eq!(d.deserialize_str(), Err(Error::BadString));
    let mut d = CdrDeserializer::new_little_endian(&[3, 0, 0, 0, 0xff, 0xfe, 0]);
    assert_eq!(d.deserialize_str(), Err(Error::BadString));
    let mut d = CdrDeserializer::new_little_endian(&[9, 0, 0, 0, b'a', 0]);
    assert_eq!(d.deserialize_str(), Err(Error::Eof));
    let mut d = CdrDeserializer::new_little_endian(&[1, 0, 0, 0, 0]);
    assert_eq!(d.deserialize_str(), Ok(""));
}

#[test]
fn a_failed_read_of_bytes_reads_nothing() {
    let bytes = [1u8, 2, 3];
    let mut d = CdrDeserializer::new_little_endian(&bytes);
    assert_eq!(d.next_bytes(4).err(), Some(Error::Eof));
    assert_eq!(d.next_bytes(2).ok(), Some(&bytes[0..2]));
    assert_eq!(d.next_bytes(1).ok(), Some(&bytes[2..3]));
    assert!(!d.check_if_bytes_left());
}

#[test]
fn the_adapter_picks_the_byte_order_of_the_encoding() {
    let bytes = [0u8, 0, 0, 1];
    let le = RepresentationIdentifier { value: 0x0001 };
    let be = RepresentationIdentifier { value: 0x0000 };
    let pl_le = RepresentationIdentifier { value: 0x0003 };
    let pl_be = RepresentationIdentifier { value: 0x0002 };
    let mut d = CDRDeserializerAdapter::<u32>::deserializer_for(&bytes, le).unwrap();
    assert_eq!(d.deserialize_u32(), Ok(0x0100_0000));
    let mut d = CDRDeserializerAdapter::<u32>::deserializer_for(&bytes, be).unwrap();
    assert_eq!(d.deserialize_u32(), Ok(1));
    let mut d = CDRDeserializerAdapter::<u32>::deserializer_for(&bytes, pl_le).unwrap();
    assert_eq!(d.deserialize_u32(), Ok(0x0100_0000));
    assert_eq!(
        CDRDeserializerAdapter::<u32>::deserializer_for(&bytes, pl_be).err(),
        Some(Error::UnknownRepresentation(2))
    );
    assert_eq!(CDRDeserializerAdapter::<u32>::supported_encodings(), vec![be, le, pl_le]);
}
