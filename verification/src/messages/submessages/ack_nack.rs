use crate::messages::submessages::submessage_elements::sequence_number_set::law_set_round_trip;
use crate::messages::submessages::submessage_elements::sequence_number_set::spec_parse_set;
use crate::messages::submessages::submessage_elements::sequence_number_set::spec_set_bytes;
use crate::messages::wire::spec_entity_id;
use crate::messages::wire::spec_entity_id_bytes;
use crate::messages::wire::write_entity_id;
use crate::messages::wire::MessageError;
use crate::messages::wire::MessageResult;
use crate::messages::wire::WireReader;
use crate::serialization::byte_order::lemma_pow256_values;
use crate::serialization::byte_order::lemma_signed_of_unsigned;
use crate::serialization::byte_order::lemma_value_of_bytes;
use crate::serialization::byte_order::spec_bytes;
use crate::serialization::byte_order::spec_signed;
use crate::serialization::byte_order::spec_unsigned;
use crate::serialization::byte_order::spec_value;
use crate::serialization::byte_order::unsigned_32;
use crate::serialization::byte_order::write_u32;
use crate::serialization::byte_order::Endianness;
use crate::structure::guid::EntityId;
use crate::structure::sequence_number::SequenceNumber;
use crate::structure::sequence_number::SequenceNumberSet;
use crate::structure::sequence_number::SEQUENCE_NUMBER_SET_MAX;
use vstd::prelude::*;

verus! {

/// Sent by a reader to tell a writer which sequence numbers it has
/// received and which it misses.
#[derive(Debug, PartialEq, Eq, Clone)]
pub struct AckNack {
    /// The reader that tells.
    pub reader_id: EntityId,
    /// The writer that is told.
    pub writer_id: EntityId,
    /// All numbers below the base of the set are acknowledged; the numbers
    /// in the set are missed.
    pub reader_sn_state: SequenceNumberSet,
    /// Counts the acknowledgements of the reader, so that a writer can
    /// tell a repeated one from a new one.
    pub count: i32,
}

/// An acknowledgement as plain values.
pub struct AckNackView {
    pub reader_id: EntityId,
    pub writer_id: EntityId,
    pub base: SequenceNumber,
    pub bits: Seq<bool>,
    pub count: i32,
}

/// What parsing an acknowledgement gives: reader, writer, the set, and
/// the count behind it.
pub open spec fn spec_parse_acknack(input: Seq<u8>, e: Endianness) -> MessageResult<AckNackView> {
    if input.len() < 8 {
        Err(MessageError::Truncated)
    } else {
        match spec_parse_set(input.skip(8), e) {
            Err(err) => Err(err),
            Ok((base, bits, used)) => {
                let tail = input.skip(8 + used);
                if tail.len() < 4 {
                    Err(MessageError::Truncated)
                } else {
                    Ok(
                        AckNackView {
                            reader_id: spec_entity_id(input.subrange(0, 4)),
                            writer_id: spec_entity_id(input.subrange(4, 8)),
                            base,
                            bits,
                            count: spec_signed(spec_value(tail.subrange(0, 4), e), 4) as i32,
                        },
                    )
                }
            },
        }
    }
}

/// The bytes of an acknowledgement on the wire.
pub open spec fn spec_acknack_bytes(a: AckNackView, e: Endianness) -> Seq<u8> {
    spec_entity_id_bytes(a.reader_id) + spec_entity_id_bytes(a.writer_id) + spec_set_bytes(
        a.base,
        a.bits,
        e,
    ) + spec_bytes(spec_unsigned(a.count as int, 4), 4, e)
}

impl AckNack {
    /// The acknowledgement as plain values.
    pub open spec fn spec_view(&self) -> AckNackView {
        AckNackView {
            reader_id: self.reader_id,
            writer_id: self.writer_id,
            base: self.reader_sn_state.base,
            bits: self.reader_sn_state.bits@,
            count: self.count,
        }
    }

    /// Parses an acknowledgement from the start of `input`.
    pub fn read_from(input: &[u8], e: Endianness) -> (r: MessageResult<AckNack>)
        ensures
            match spec_parse_acknack(input@, e) {
                Ok(view) => r matches Ok(a) && a.spec_view() == view && a.reader_sn_state.wf(),
                Err(err) => r == Err::<AckNack, MessageError>(err),
            },
    {
        if input.len() < 8 {
            return Err(MessageError::Truncated);
        }
        let mut reader = WireReader::new(input, e);
        let reader_id = match reader.read_entity_id() {
            Ok(id) => id,
            Err(err) => {
                return Err(err);
            },
        };
        let writer_id = match reader.read_entity_id() {
            Ok(id) => id,
            Err(err) => {
                return Err(err);
            },
        };
        proof {
            assert(input@.skip(4).subrange(0, 4) =~= input@.subrange(4, 8));
            assert(input@.skip(4).skip(4) =~= input@.skip(8));
        }
        let reader_sn_state = match SequenceNumberSet::read_from(&mut reader) {
            Ok(set) => set,
            Err(err) => {
                return Err(err);
            },
        };
        proof {
            let used = spec_parse_set(input@.skip(8), e)->Ok_0.2;
            assert(input@.skip(8).skip(used) =~= input@.skip(8 + used));
        }
        let count = match reader.read_i32() {
            Ok(count) => count,
            Err(err) => {
                return Err(err);
            },
        };
        Ok(AckNack { reader_id, writer_id, reader_sn_state, count })
    }

    /// Appends the bytes of the acknowledgement.
    pub fn write_to(&self, out: &mut Vec<u8>, e: Endianness)
        requires
            self.reader_sn_state.wf(),
        ensures
            final(out)@ == old(out)@ + spec_acknack_bytes(self.spec_view(), e),
    {
        let ghost start = out@;
        write_entity_id(out, self.reader_id);
        write_entity_id(out, self.writer_id);
        self.reader_sn_state.write_to(out, e);
        write_u32(out, unsigned_32(self.count), e);
        assert(out@ =~= start + spec_acknack_bytes(self.spec_view(), e));
    }
}

/// Parsing the bytes of an acknowledgement gives the acknowledgement
/// back.
pub proof fn law_acknack_round_trip(a: AckNackView, e: Endianness)
    requires
        a.bits.len() <= SEQUENCE_NUMBER_SET_MAX,
        a.base.value + a.bits.len() <= i64::MAX + 1,
    ensures
        spec_parse_acknack(spec_acknack_bytes(a, e), e) == Ok::<AckNackView, MessageError>(a),
{
    let input = spec_acknack_bytes(a, e);
    let set = spec_set_bytes(a.base, a.bits, e);
    let count = spec_bytes(spec_unsigned(a.count as int, 4), 4, e);
    lemma_pow256_values();
    lemma_value_of_bytes(a.reader_id.value as nat, 4, Endianness::BigEndian);
    lemma_value_of_bytes(a.writer_id.value as nat, 4, Endianness::BigEndian);
    lemma_signed_of_unsigned(a.count as int, 4);
    lemma_value_of_bytes(spec_unsigned(a.count as int, 4), 4, e);
    law_set_round_trip(a.base, a.bits, e, count);
    assert(input.subrange(0, 4) =~= spec_entity_id_bytes(a.reader_id));
    assert(input.subrange(4, 8) =~= spec_entity_id_bytes(a.writer_id));
    assert(input.skip(8) =~= set + count);
    assert(input.skip(8 + set.len() as int) =~= count);
    assert(count.subrange(0, 4) =~= count);
}

} // verus!
