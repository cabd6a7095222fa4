use crate::messages::submessages::submessage::EntitySubmessage;
use crate::messages::submessages::submessage::SubMessage;
use crate::messages::submessages::submessage::SubmessageBody;
use crate::messages::submessages::submessage::SubmessageHeader;
use crate::messages::submessages::submessage::SubmessageKind;
use crate::messages::submessages::submessage::KIND_HEARTBEAT;
use crate::messages::wire::spec_entity_id;
use crate::messages::wire::spec_entity_id_bytes;
use crate::messages::wire::spec_sequence_number;
use crate::messages::wire::spec_sequence_number_bytes;
use crate::messages::wire::write_entity_id;
use crate::messages::wire::write_sequence_number;
use crate::messages::wire::MessageError;
use crate::messages::wire::MessageResult;
use crate::messages::wire::WireReader;
use crate::serialization::byte_order::spec_bytes;
use crate::serialization::byte_order::spec_signed;
use crate::serialization::byte_order::spec_unsigned;
use crate::serialization::byte_order::spec_value;
use crate::serialization::byte_order::unsigned_32;
use crate::serialization::byte_order::write_u32;
use crate::serialization::byte_order::Endianness;
use crate::structure::guid::EntityId;
use crate::structure::sequence_number::SequenceNumber;
use vstd::prelude::*;

verus! {

/// Number of bytes of a heartbeat on the wire.
pub const HEARTBEAT_LENGTH: u16 = 28;

/// Sent by a writer to tell a reader which sequence numbers it has
/// available.
#[derive(Debug, PartialEq, Eq, Structural, Clone, Copy, Hash)]
pub struct Heartbeat {
    /// The reader that is told, or the unknown entity for all readers.
    pub reader_id: EntityId,
    /// The writer that tells.
    pub writer_id: EntityId,
    /// The lowest sequence number that the writer has available.
    pub first_sn: SequenceNumber,
    /// The highest sequence number that the writer has available.
    pub last_sn: SequenceNumber,
    /// Counts the heartbeats of the writer, so that a reader can tell a
    /// repeated heartbeat from a new one.
    pub count: i32,
}

/// What parsing a heartbeat gives, where the input holds its 28 bytes.
pub open spec fn spec_parse_heartbeat(input: Seq<u8>, e: Endianness) -> MessageResult<Heartbeat> {
    if input.len() < 28 {
        Err(MessageError::Truncated)
    } else {
        Ok(
            Heartbeat {
                reader_id: spec_entity_id(input.subrange(0, 4)),
                writer_id: spec_entity_id(input.subrange(4, 8)),
                first_sn: spec_sequence_number(input.subrange(8, 16), e),
                last_sn: spec_sequence_number(input.subrange(16, 24), e),
                count: spec_signed(spec_value(input.subrange(24, 28), e), 4) as i32,
            },
        )
    }
}

/// The 28 bytes of a heartbeat on the wire.
pub open spec fn spec_heartbeat_bytes(h: Heartbeat, e: Endianness) -> Seq<u8> {
    spec_entity_id_bytes(h.reader_id) + spec_entity_id_bytes(h.writer_id)
        + spec_sequence_number_bytes(h.first_sn, e) + spec_sequence_number_bytes(h.last_sn, e)
        + spec_bytes(spec_unsigned(h.count as int, 4), 4, e)
}

impl Heartbeat {
    /// Parses a heartbeat from the start of `input`.
    pub fn read_from(input: &[u8], e: Endianness) -> (r: MessageResult<Heartbeat>)
        ensures
            r == spec_parse_heartbeat(input@, e),
    {
        if input.len() < 28 {
            return Err(MessageError::Truncated);
        }
        let mut reader = WireReader::new(input, e);
        let reader_id = reader.read_entity_id();
        let writer_id = reader.read_entity_id();
        let first_sn = reader.read_sequence_number();
        let last_sn = reader.read_sequence_number();
        let count = reader.read_i32();
        proof {
            let s = input@;
            assert(s.skip(4).subrange(0, 4) =~= s.subrange(4, 8));
            assert(s.skip(4).skip(4).subrange(0, 8) =~= s.subrange(8, 16));
            assert(s.skip(4).skip(4).skip(8).subrange(0, 8) =~= s.subrange(16, 24));
            assert(s.skip(4).skip(4).skip(8).skip(8).subrange(0, 4) =~= s.subrange(24, 28));
        }
        match (reader_id, writer_id, first_sn, last_sn, count) {
            (Ok(reader_id), Ok(writer_id), Ok(first_sn), Ok(last_sn), Ok(count)) => Ok(
                Heartbeat { reader_id, writer_id, first_sn, last_sn, count },
            ),
            _ => Err(MessageError::Truncated),
        }
    }

    /// Appends the 28 bytes of the heartbeat.
    pub fn write_to(&self, out: &mut Vec<u8>, e: Endianness)
        ensures
            final(out)@ == old(out)@ + spec_heartbeat_bytes(*self, e),
    {
        let ghost start = out@;
        write_entity_id(out, self.reader_id);
        write_entity_id(out, self.writer_id);
        write_sequence_number(out, self.first_sn, e);
        write_sequence_number(out, self.last_sn, e);
        write_u32(out, unsigned_32(self.count), e);
        assert(out@ =~= start + spec_heartbeat_bytes(*self, e));
    }

    /// The submessage that carries this heartbeat under the given flags.
    pub fn create_submessage(self, flags: u8) -> (r: Option<SubMessage>)
        ensures
            r is Some,
            r->0.header == (SubmessageHeader {
                kind: SubmessageKind { value: KIND_HEARTBEAT },
                flags,
                content_length: HEARTBEAT_LENGTH,
            }),
            r->0.body matches SubmessageBody::Entity(EntitySubmessage::Heartbeat(h, f)) && h
                == self && f == flags,
    {
        Some(
            SubMessage {
                header: SubmessageHeader {
                    kind: SubmessageKind { value: KIND_HEARTBEAT },
                    flags,
                    content_length: HEARTBEAT_LENGTH,
                },
                body: SubmessageBody::Entity(EntitySubmessage::Heartbeat(self, flags)),
            },
        )
    }
}

} // verus!
