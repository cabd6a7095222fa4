use crate::messages::submessages::submessage_elements::sequence_number_set::law_set_round_trip;
use crate::messages::submessages::submessage_elements::sequence_number_set::spec_parse_set;
use crate::messages::submessages::submessage_elements::sequence_number_set::spec_set_bytes;
use crate::messages::wire::law_sequence_number_round_trip;
use crate::messages::wire::spec_entity_id;
use crate::messages::wire::spec_entity_id_bytes;
use crate::messages::wire::spec_sequence_number;
use crate::messages::wire::spec_sequence_number_bytes;
use crate::messages::wire::write_entity_id;
use crate::messages::wire::write_sequence_number;
use crate::messages::wire::MessageError;
use crate::messages::wire::MessageResult;
use crate::messages::wire::WireReader;
use crate::serialization::byte_order::lemma_pow256_values;
use crate::serialization::byte_order::lemma_value_of_bytes;
use crate::serialization::byte_order::Endianness;
use crate::structure::guid::EntityId;
use crate::structure::sequence_number::SequenceNumber;
use crate::structure::sequence_number::SequenceNumberSet;
use crate::structure::sequence_number::SEQUENCE_NUMBER_SET_MAX;
use vstd::prelude::*;

verus! {

/// Sent by a writer to tell a reader that sequence numbers are no longer
/// to be had: the numbers from `gap_start` up to the base of `gap_list`,
/// and the numbers in `gap_list`.
#[derive(Debug, PartialEq, Eq, Clone)]
pub struct Gap {
    /// The reader that is told.
    pub reader_id: EntityId,
    /// The writer that tells.
    pub writer_id: EntityId,
    /// The first number that is gone.
    pub gap_start: SequenceNumber,
    /// Further numbers that are gone.
    pub gap_list: SequenceNumberSet,
}

/// A gap as plain values.
pub struct GapView {
    pub reader_id: EntityId,
    pub writer_id: EntityId,
    pub gap_start: SequenceNumber,
    pub base: SequenceNumber,
    pub bits: Seq<bool>,
}

/// What parsing a gap gives: reader, writer, the first number, and the
/// set.
pub open spec fn spec_parse_gap(input: Seq<u8>, e: Endianness) -> MessageResult<GapView> {
    if input.len() < 16 {
        Err(MessageError::Truncated)
    } else {
        match spec_parse_set(input.skip(16), e) {
            Err(err) => Err(err),
            Ok((base, bits, used)) => Ok(
                GapView {
                    reader_id: spec_entity_id(input.subrange(0, 4)),
                    writer_id: spec_entity_id(input.subrange(4, 8)),
                    gap_start: spec_sequence_number(input.subrange(8, 16), e),
                    base,
                    bits,
                },
            ),
        }
    }
}

/// The bytes of a gap on the wire.
pub open spec fn spec_gap_bytes(g: GapView, e: Endianness) -> Seq<u8> {
    spec_entity_id_bytes(g.reader_id) + spec_entity_id_bytes(g.writer_id)
        + spec_sequence_number_bytes(g.gap_start, e) + spec_set_bytes(g.base, g.bits, e)
}

impl Gap {
    /// The gap as plain values.
    pub open spec fn spec_view(&self) -> GapView {
        GapView {
            reader_id: self.reader_id,
            writer_id: self.writer_id,
            gap_start: self.gap_start,
            base: self.gap_list.base,
            bits: self.gap_list.bits@,
        }
    }

    /// Whether the gap names the number `sn` as gone.
    pub open spec fn spec_covers(&self, sn: int) -> bool {
        self.gap_start.value <= sn < self.gap_list.base.value || self.gap_list.spec_contains(sn)
    }

    /// Whether the gap names the number `sn` as gone.
    pub fn covers(&self, sn: i64) -> (b: bool)
        requires
            self.gap_list.wf(),
        ensures
            b == self.spec_covers(sn as int),
    {
        (self.gap_start.value <= sn && sn < self.gap_list.base.value) || self.gap_list.contains(sn)
    }

    /// Parses a gap from the start of `input`.
    pub fn read_from(input: &[u8], e: Endianness) -> (r: MessageResult<Gap>)
        ensures
            match spec_parse_gap(input@, e) {
                Ok(view) => r matches Ok(g) && g.spec_view() == view && g.gap_list.wf(),
                Err(err) => r == Err::<Gap, MessageError>(err),
            },
    {
        if input.len() < 16 {
            return Err(MessageError::Truncated);
        }
        let mut reader = WireReader::new(input, e);
        let reader_id = match reader.read_entity_id() {
            Ok(id) => id,
            Err(err) => {
                return Err(err);
            },
        };
        let writer_id = match reader.read_entity_id() {
            Ok(id) => id,
            Err(err) => {
                return Err(err);
            },
        };
        let gap_start = match reader.read_sequence_number() {
            Ok(sn) => sn,
            Err(err) => {
                return Err(err);
            },
        };
        proof {
            assert(input@.skip(4).subrange(0, 4) =~= input@.subrange(4, 8));
            assert(input@.skip(4).skip(4).subrange(0, 8) =~= input@.subrange(8, 16));
            assert(input@.skip(4).skip(4).skip(8) =~= input@.skip(16));
        }
        let gap_list = match SequenceNumberSet::read_from(&mut reader) {
            Ok(set) => set,
            Err(err) => {
                return Err(err);
            },
        };
        Ok(Gap { reader_id, writer_id, gap_start, gap_list })
    }

    /// Appends the bytes of the gap.
    pub fn write_to(&self, out: &mut Vec<u8>, e: Endianness)
        requires
            self.gap_list.wf(),
        ensures
            final(out)@ == old(out)@ + spec_gap_bytes(self.spec_view(), e),
    {
        let ghost start = out@;
        write_entity_id(out, self.reader_id);
        write_entity_id(out, self.writer_id);
        write_sequence_number(out, self.gap_start, e);
        self.gap_list.write_to(out, e);
        assert(out@ =~= start + spec_gap_bytes(self.spec_view(), e));
    }
}

/// Parsing the bytes of a gap gives the gap back.
pub proof fn law_gap_round_trip(g: GapView, e: Endianness)
    requires
        g.bits.len() <= SEQUENCE_NUMBER_SET_MAX,
        g.base.value + g.bits.len() <= i64::MAX + 1,
    ensures
        spec_parse_gap(spec_gap_bytes(g, e), e) == Ok::<GapView, MessageError>(g),
{
    let input = spec_gap_bytes(g, e);
    let set = spec_set_bytes(g.base, g.bits, e);
    lemma_pow256_values();
    lemma_value_of_bytes(g.reader_id.value as nat, 4, Endianness::BigEndian);
    lemma_value_of_bytes(g.writer_id.value as nat, 4, Endianness::BigEndian);
    law_sequence_number_round_trip(g.gap_start, e);
    law_set_round_trip(g.base, g.bits, e, Seq::empty());
    assert(input.subrange(0, 4) =~= spec_entity_id_bytes(g.reader_id));
    assert(input.subrange(4, 8) =~= spec_entity_id_bytes(g.writer_id));
    assert(input.subrange(8, 16) =~= spec_sequence_number_bytes(g.gap_start, e));
    assert(input.skip(16) =~= set + Seq::<u8>::empty());
}

} // verus!
