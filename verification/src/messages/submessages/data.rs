use crate::messages::submessages::submessage::endianness_flag;
use crate::messages::submessages::submessage::flag_set;
use crate::messages::submessages::submessage::spec_endianness_flag;
use crate::messages::submessages::submessage::spec_flag_set;
use crate::messages::submessages::submessage::DATA_FLAG_DATA;
use crate::messages::submessages::submessage::DATA_FLAG_INLINE_QOS;
use crate::messages::submessages::submessage::DATA_FLAG_KEY;
use crate::messages::submessages::submessage_elements::parameter_list::spec_parameters_bytes;
use crate::messages::submessages::submessage_elements::parameter_list::spec_parse_parameter_list;
use crate::messages::submessages::submessage_elements::parameter_list::spec_sentinel_bytes;
use crate::messages::submessages::submessage_elements::parameter_list::ParameterList;
use crate::messages::submessages::submessage_elements::serialized_payload::bytes_as_slice;
use crate::messages::submessages::submessage_elements::serialized_payload::bytes_content;
use crate::messages::submessages::submessage_elements::serialized_payload::bytes_len;
use crate::messages::submessages::submessage_elements::serialized_payload::bytes_slice;
use crate::messages::submessages::submessage_elements::serialized_payload::spec_parse_payload;
use crate::messages::submessages::submessage_elements::serialized_payload::spec_payload_bytes;
use crate::messages::submessages::submessage_elements::serialized_payload::SerializedPayload;
use crate::messages::wire::spec_entity_id;
use crate::messages::wire::spec_entity_id_bytes;
use crate::messages::wire::spec_sequence_number;
use crate::messages::wire::spec_sequence_number_bytes;
use crate::messages::wire::write_entity_id;
use crate::messages::wire::write_sequence_number;
use crate::messages::wire::MessageError;
use crate::messages::wire::MessageResult;
use crate::messages::wire::WireReader;
use crate::serialization::byte_order::spec_bytes;
use crate::serialization::byte_order::spec_value;
use crate::serialization::byte_order::write_u16;
use crate::serialization::byte_order::Endianness;
use crate::structure::guid::EntityId;
use crate::structure::sequence_number::SequenceNumber;
use vstd::prelude::*;

verus! {

/// Number of bytes between the field that counts the octets to the inline
/// parameters and the inline parameters, in this version of the protocol.
pub const OCTETS_TO_INLINE_QOS: u16 = 16;

/// Sent by a writer to tell a reader of a change to a data object: a new
/// value, or a change in its lifecycle.
#[derive(Debug, Clone)]
pub struct Data {
    /// The reader that is told.
    pub reader_id: EntityId,
    /// The writer that made the change.
    pub writer_id: EntityId,
    /// The sequence number of the change.
    pub writer_sn: SequenceNumber,
    /// Parameters that apply to this change; present where the flag for
    /// inline parameters is set.
    pub inline_qos: Option<ParameterList>,
    /// The new value or the key of the data object; present where the flag
    /// for data or the flag for a key is set.
    pub serialized_payload: Option<SerializedPayload>,
}

/// A data submessage as plain values.
pub struct DataView {
    pub reader_id: EntityId,
    pub writer_id: EntityId,
    pub writer_sn: SequenceNumber,
    pub inline_qos: Option<Seq<(u16, Seq<u8>)>>,
    pub serialized_payload: Option<(u16, u16, Seq<u8>)>,
}

/// Whether the flags of a data submessage announce a payload.
pub open spec fn spec_expects_payload(flags: u8) -> bool {
    spec_flag_set(flags, DATA_FLAG_DATA) || spec_flag_set(flags, DATA_FLAG_KEY)
}

/// What parsing the part of a data submessage behind its fixed fields
/// gives: the inline parameters, where the flags announce them, and the
/// payload, where the flags announce one. The payload is all that is left
/// of the input.
pub open spec fn spec_parse_data_tail(
    tail: Seq<u8>,
    flags: u8,
    reader_id: EntityId,
    writer_id: EntityId,
    writer_sn: SequenceNumber,
) -> MessageResult<DataView> {
    let e = spec_endianness_flag(flags);
    let qos = if spec_flag_set(flags, DATA_FLAG_INLINE_QOS) {
        match spec_parse_parameter_list(tail, e) {
            Ok((params, n)) => Ok::<(Option<Seq<(u16, Seq<u8>)>>, nat), MessageError>(
                (Some(params), n),
            ),
            Err(err) => Err(err),
        }
    } else {
        Ok((None, 0nat))
    };
    match qos {
        Err(err) => Err(err),
        Ok((inline_qos, n)) => {
            if spec_expects_payload(flags) {
                match spec_parse_payload(tail.skip(n as int)) {
                    Ok(p) => Ok(
                        DataView {
                            reader_id,
                            writer_id,
                            writer_sn,
                            inline_qos,
                            serialized_payload: Some(p),
                        },
                    ),
                    Err(err) => Err(err),
                }
            } else {
                Ok(
                    DataView {
                        reader_id,
                        writer_id,
                        writer_sn,
                        inline_qos,
                        serialized_payload: None,
                    },
                )
            }
        },
    }
}

/// What parsing a data submessage gives. The input starts with twenty
/// bytes of fixed fields: extra flags, the number of octets from behind
/// that number to the inline parameters, reader, writer and sequence
/// number. Octets beyond the sixteen of this version are skipped.
pub open spec fn spec_parse_data(input: Seq<u8>, flags: u8) -> MessageResult<DataView> {
    let e = spec_endianness_flag(flags);
    if input.len() < 20 {
        Err(MessageError::Truncated)
    } else {
        let octets = spec_value(input.subrange(2, 4), e);
        if octets < 16 {
            Err(MessageError::MalformedSubmessage)
        } else if 4 + octets > input.len() {
            Err(MessageError::Truncated)
        } else {
            spec_parse_data_tail(
                input.skip(4 + octets as int),
                flags,
                spec_entity_id(input.subrange(4, 8)),
                spec_entity_id(input.subrange(8, 12)),
                spec_sequence_number(input.subrange(12, 20), e),
            )
        }
    }
}

/// The bytes of a data submessage on the wire.
pub open spec fn spec_data_bytes(d: DataView, e: Endianness) -> Seq<u8> {
    spec_bytes(0, 2, e) + spec_bytes(16, 2, e) + spec_entity_id_bytes(d.reader_id)
        + spec_entity_id_bytes(d.writer_id) + spec_sequence_number_bytes(d.writer_sn, e) + (
    match d.inline_qos {
        Some(params) => spec_parameters_bytes(params, e) + spec_sentinel_bytes(e),
        None => Seq::empty(),
    }) + (match d.serialized_payload {
        Some(p) => spec_payload_bytes(p),
        None => Seq::empty(),
    })
}

impl Data {
    /// The submessage as plain values.
    pub open spec fn spec_view(&self) -> DataView {
        DataView {
            reader_id: self.reader_id,
            writer_id: self.writer_id,
            writer_sn: self.writer_sn,
            inline_qos: match self.inline_qos {
                Some(l) => Some(l.spec_view()),
                None => None,
            },
            serialized_payload: match self.serialized_payload {
                Some(p) => Some(p.spec_view()),
                None => None,
            },
        }
    }

    /// Parses a data submessage from the content of the submessage and
    /// the flags of its header. The payload shares the buffer.
    pub fn deserialize_data(buffer: &bytes::Bytes, flags: u8) -> (r: MessageResult<Data>)
        ensures
            match r {
                Ok(d) => spec_parse_data(bytes_content(*buffer), flags) == Ok::<
                    DataView,
                    MessageError,
                >(d.spec_view()),
                Err(e) => spec_parse_data(bytes_content(*buffer), flags) == Err::<
                    DataView,
                    MessageError,
                >(e),
            },
    {
        let ghost input = bytes_content(*buffer);
        let all = bytes_as_slice(buffer);
        let total = bytes_len(buffer);
        if total < 20 {
            return Err(MessageError::Truncated);
        }
        let endianness = endianness_flag(flags);
        let mut reader = WireReader::new(all, endianness);
        let _extra_flags = reader.read_u16();
        let octets_to_inline_qos = reader.read_u16();
        let reader_id = reader.read_entity_id();
        let writer_id = reader.read_entity_id();
        let sequence_number = reader.read_sequence_number();
        proof {
            assert(input.skip(2).subrange(0, 2) =~= input.subrange(2, 4));
            assert(input.skip(2).skip(2).subrange(0, 4) =~= input.subrange(4, 8));
            assert(input.skip(2).skip(2).skip(4).subrange(0, 4) =~= input.subrange(8, 12));
            assert(input.skip(2).skip(2).skip(4).skip(4).subrange(0, 8) =~= input.subrange(
                12,
                20,
            ));
            assert(input.skip(2).skip(2).skip(4).skip(4).skip(8) =~= input.skip(20));
        }
        let (octets, reader_id, writer_id, writer_sn) = match (
            octets_to_inline_qos,
            reader_id,
            writer_id,
            sequence_number,
        ) {
            (Ok(o), Ok(r), Ok(w), Ok(s)) => (o, r, w, s),
            _ => {
                return Err(MessageError::Truncated);
            },
        };
        if octets < OCTETS_TO_INLINE_QOS {
            return Err(MessageError::MalformedSubmessage);
        }
        // Later versions may put more fields in front of the inline
        // parameters: skip what this version does not know.
        let extra_octets: usize = (octets - OCTETS_TO_INLINE_QOS) as usize;
        match reader.read_bytes(extra_octets) {
            Ok(_) => {},
            Err(err) => {
                return Err(err);
            },
        }
        let ghost tail = reader.remaining();
        proof {
            assert(input.skip(20).skip(extra_octets as int) =~= input.skip(4 + octets as int));
        }
        let expect_qos = flag_set(flags, DATA_FLAG_INLINE_QOS);
        let expect_data = flag_set(flags, DATA_FLAG_DATA) || flag_set(flags, DATA_FLAG_KEY);
        let inline_qos = if expect_qos {
            match ParameterList::read_from(&mut reader) {
                Ok(list) => Some(list),
                Err(err) => {
                    return Err(err);
                },
            }
        } else {
            proof {
                assert(tail.skip(0) =~= tail);
            }
            None
        };
        let serialized_payload = if expect_data {
            let left = reader.remaining_len();
            let payload_buffer = bytes_slice(buffer, total - left, total);
            proof {
                let n = tail.len() - left;
                assert(reader.remaining() == tail.skip(n));
                assert(input.subrange(total - left, total as int) =~= tail.skip(n));
            }
            match SerializedPayload::from_bytes(&payload_buffer) {
                Ok(p) => Some(p),
                Err(err) => {
                    return Err(err);
                },
            }
        } else {
            None
        };
        Ok(Data { reader_id, writer_id, writer_sn, inline_qos, serialized_payload })
    }

    /// Whether each padded inline parameter fits the 16-bit length field.
    pub open spec fn spec_fits(&self) -> bool {
        self.inline_qos matches Some(list) ==> forall|i: int|
            0 <= i < list.parameters@.len() ==> (#[trigger] list.parameters@[i]).value@.len() + 3
                <= u16::MAX
    }

    /// Whether each padded inline parameter fits the 16-bit length field.
    pub fn fits(&self) -> (b: bool)
        ensures
            b == self.spec_fits(),
    {
        match &self.inline_qos {
            Some(list) => {
                let mut i: usize = 0;
                while i < list.parameters.len()
                    invariant
                        i <= list.parameters@.len(),
                        self.inline_qos == Some(*list),
                        forall|k: int|
                            0 <= k < i ==> (#[trigger] list.parameters@[k]).value@.len() + 3
                                <= u16::MAX,
                    decreases list.parameters@.len() - i,
                {
                    if list.parameters[i].value.len() > (u16::MAX as usize) - 3 {
                        proof {
                            let inline = self.inline_qos->0;
                            assert(inline.parameters@[i as int].value@.len() + 3 > u16::MAX);
                            assert(!(forall|k: int|
                                0 <= k < inline.parameters@.len() ==> (
                                #[trigger] inline.parameters@[k]).value@.len() + 3 <= u16::MAX));
                        }
                        return false;
                    }
                    i += 1;
                }
                true
            },
            None => true,
        }
    }

    /// Appends the bytes of the submessage. Each padded inline parameter
    /// has to fit the 16-bit length field.
    pub fn write_to(&self, out: &mut Vec<u8>, e: Endianness)
        requires
            self.spec_fits(),
        ensures
            final(out)@ == old(out)@ + spec_data_bytes(self.spec_view(), e),
    {
        let ghost start = out@;
        // This version of the protocol sets no extra flag.
        write_u16(out, 0, e);
        write_u16(out, OCTETS_TO_INLINE_QOS, e);
        write_entity_id(out, self.reader_id);
        write_entity_id(out, self.writer_id);
        write_sequence_number(out, self.writer_sn, e);
        let ghost fixed = out@;
        let ghost qos: Seq<u8> = match &self.inline_qos {
            Some(list) => spec_parameters_bytes(list.spec_view(), e) + spec_sentinel_bytes(e),
            None => Seq::empty(),
        };
        let ghost payload_bytes: Seq<u8> = match &self.serialized_payload {
            Some(p) => spec_payload_bytes(p.spec_view()),
            None => Seq::empty(),
        };
        match &self.inline_qos {
            Some(list) => {
                list.write_to(out, e);
            },
            None => {},
        }
        assert(out@ =~= fixed + qos);
        match &self.serialized_payload {
            Some(payload) => {
                payload.write_to(out);
            },
            None => {},
        }
        assert(out@ =~= fixed + qos + payload_bytes);
        assert(out@ =~= start + spec_data_bytes(self.spec_view(), e));
    }
}

} // verus!
