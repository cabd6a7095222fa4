use crate::serialization::byte_order::read_u16;
use crate::serialization::byte_order::read_u32;
use crate::serialization::byte_order::signed_32;
use crate::serialization::byte_order::spec_signed;
use crate::serialization::byte_order::spec_value;
use crate::serialization::byte_order::Endianness;
use crate::structure::guid::EntityId;
use crate::structure::guid::GuidPrefix;
use crate::structure::sequence_number::SequenceNumber;
use vstd::prelude::*;

verus! {

/// Why a message or one of its parts was not accepted.
#[derive(Clone, Copy, Debug, PartialEq, Eq, Structural, Hash)]
pub enum MessageError {
    /// The input ended before the part did.
    Truncated,
    /// A length, a flag or a tag has a value that the format excludes.
    MalformedSubmessage,
    /// The message does not start with the protocol's name, or speaks a
    /// version of the protocol that is not supported.
    UnsupportedVersion,
}

/// The result of parsing a message or one of its parts.
pub type MessageResult<T> = core::result::Result<T, MessageError>;

/// The entity identifier whose four bytes on the wire are `s`.
pub open spec fn spec_entity_id(s: Seq<u8>) -> EntityId {
    EntityId { value: spec_value(s, Endianness::BigEndian) as u32 }
}

/// The four bytes of an entity identifier on the wire.
pub open spec fn spec_entity_id_bytes(id: EntityId) -> Seq<u8> {
    crate::serialization::byte_order::spec_bytes(id.value as nat, 4, Endianness::BigEndian)
}

/// The prefix whose twelve bytes on the wire are `s`.
pub open spec fn spec_guid_prefix(s: Seq<u8>) -> GuidPrefix {
    GuidPrefix {
        host_id: spec_value(s.subrange(0, 4), Endianness::BigEndian) as u32,
        app_id: spec_value(s.subrange(4, 8), Endianness::BigEndian) as u32,
        instance_id: spec_value(s.subrange(8, 12), Endianness::BigEndian) as u32,
    }
}

/// The twelve bytes of a prefix on the wire.
pub open spec fn spec_guid_prefix_bytes(p: GuidPrefix) -> Seq<u8> {
    crate::serialization::byte_order::spec_bytes(p.host_id as nat, 4, Endianness::BigEndian)
        + crate::serialization::byte_order::spec_bytes(p.app_id as nat, 4, Endianness::BigEndian)
        + crate::serialization::byte_order::spec_bytes(
        p.instance_id as nat,
        4,
        Endianness::BigEndian,
    )
}

/// The sequence number whose eight bytes on the wire are `s`: a signed
/// high word, then an unsigned low word, each in the byte order `e`.
pub open spec fn spec_sequence_number(s: Seq<u8>, e: Endianness) -> SequenceNumber {
    SequenceNumber {
        value: (spec_signed(spec_value(s.subrange(0, 4), e), 4) * 0x1_0000_0000 + spec_value(
            s.subrange(4, 8),
            e,
        )) as i64,
    }
}

/// The high word of a sequence number.
pub open spec fn spec_sequence_high(sn: SequenceNumber) -> int {
    sn.value as int / 0x1_0000_0000
}

/// The low word of a sequence number.
pub open spec fn spec_sequence_low(sn: SequenceNumber) -> int {
    sn.value as int % 0x1_0000_0000
}

/// The eight bytes of a sequence number on the wire.
pub open spec fn spec_sequence_number_bytes(sn: SequenceNumber, e: Endianness) -> Seq<u8> {
    crate::serialization::byte_order::spec_bytes(
        crate::serialization::byte_order::spec_unsigned(spec_sequence_high(sn), 4),
        4,
        e,
    ) + crate::serialization::byte_order::spec_bytes(spec_sequence_low(sn) as nat, 4, e)
}

/// Reads the parts of a message one after the other from a byte slice.
/// Numbers stand in the byte order of the reader and are not aligned.
pub struct WireReader<'a> {
    endianness: Endianness,
    input: &'a [u8],
}

impl<'a> WireReader<'a> {
    /// The bytes not read yet.
    pub closed spec fn remaining(&self) -> Seq<u8> {
        self.input@
    }

    /// The byte order of the numbers.
    pub closed spec fn endianness(&self) -> Endianness {
        self.endianness
    }

    /// A reader at the start of `input`.
    pub fn new(input: &'a [u8], endianness: Endianness) -> (r: WireReader<'a>)
        ensures
            r.remaining() == input@,
            r.endianness() == endianness,
    {
        WireReader { endianness, input }
    }

    /// The byte order of the numbers.
    pub fn byte_order(&self) -> (e: Endianness)
        ensures
            e == self.endianness(),
    {
        self.endianness
    }

    /// Number of bytes not read yet.
    pub fn remaining_len(&self) -> (n: usize)
        ensures
            n == self.remaining().len(),
    {
        self.input.len()
    }

    /// The bytes not read yet.
    pub fn rest(&self) -> (r: &'a [u8])
        ensures
            r@ == self.remaining(),
    {
        self.input
    }

    /// Reads the next `count` bytes, or fails and reads nothing where the
    /// input is shorter.
    pub fn read_bytes(&mut self, count: usize) -> (r: MessageResult<&'a [u8]>)
        ensures
            final(self).endianness() == old(self).endianness(),
            match r {
                Ok(head) => {
                    &&& count <= old(self).remaining().len()
                    &&& head@ == old(self).remaining().subrange(0, count as int)
                    &&& final(self).remaining() == old(self).remaining().skip(count as int)
                },
                Err(e) => {
                    &&& e == MessageError::Truncated
                    &&& count > old(self).remaining().len()
                    &&& final(self).remaining() == old(self).remaining()
                },
            },
    {
        if count <= self.input.len() {
            let (head, tail) = self.input.split_at(count);
            self.input = tail;
            Ok(head)
        } else {
            Err(MessageError::Truncated)
        }
    }

    /// Reads an unsigned 16-bit number.
    pub fn read_u16(&mut self) -> (r: MessageResult<u16>)
        ensures
            final(self).endianness() == old(self).endianness(),
            match r {
                Ok(v) => {
                    &&& old(self).remaining().len() >= 2
                    &&& v as nat == spec_value(
                        old(self).remaining().subrange(0, 2),
                        old(self).endianness(),
                    )
                    &&& final(self).remaining() == old(self).remaining().skip(2)
                },
                Err(e) => {
                    &&& e == MessageError::Truncated
                    &&& old(self).remaining().len() < 2
                    &&& final(self).remaining() == old(self).remaining()
                },
            },
    {
        let e = self.endianness;
        match self.read_bytes(2) {
            Ok(head) => {
                assert(head@.subrange(0, 2) =~= head@);
                Ok(read_u16(head, e))
            },
            Err(err) => Err(err),
        }
    }

    /// Reads an unsigned 32-bit number.
    pub fn read_u32(&mut self) -> (r: MessageResult<u32>)
        ensures
            final(self).endianness() == old(self).endianness(),
            match r {
                Ok(v) => {
                    &&& old(self).remaining().len() >= 4
                    &&& v as nat == spec_value(
                        old(self).remaining().subrange(0, 4),
                        old(self).endianness(),
                    )
                    &&& final(self).remaining() == old(self).remaining().skip(4)
                },
                Err(e) => {
                    &&& e == MessageError::Truncated
                    &&& old(self).remaining().len() < 4
                    &&& final(self).remaining() == old(self).remaining()
                },
            },
    {
        let e = self.endianness;
        match self.read_bytes(4) {
            Ok(head) => {
                assert(head@.subrange(0, 4) =~= head@);
                Ok(read_u32(head, e))
            },
            Err(err) => Err(err),
        }
    }

    /// Reads a signed 32-bit number.
    pub fn read_i32(&mut self) -> (r: MessageResult<i32>)
        ensures
            final(self).endianness() == old(self).endianness(),
            match r {
                Ok(v) => {
                    &&& old(self).remaining().len() >= 4
                    &&& v as int == spec_signed(
                        spec_value(old(self).remaining().subrange(0, 4), old(self).endianness()),
                        4,
                    )
                    &&& final(self).remaining() == old(self).remaining().skip(4)
                },
                Err(e) => {
                    &&& e == MessageError::Truncated
                    &&& old(self).remaining().len() < 4
                    &&& final(self).remaining() == old(self).remaining()
                },
            },
    {
        match self.read_u32() {
            Ok(n) => Ok(signed_32(n)),
            Err(err) => Err(err),
        }
    }

    /// Reads an entity identifier: four bytes, the same in both byte
    /// orders.
    pub fn read_entity_id(&mut self) -> (r: MessageResult<EntityId>)
        ensures
            final(self).endianness() == old(self).endianness(),
            match r {
                Ok(id) => {
                    &&& old(self).remaining().len() >= 4
                    &&& id == spec_entity_id(old(self).remaining().subrange(0, 4))
                    &&& final(self).remaining() == old(self).remaining().skip(4)
                },
                Err(e) => {
                    &&& e == MessageError::Truncated
                    &&& old(self).remaining().len() < 4
                    &&& final(self).remaining() == old(self).remaining()
                },
            },
    {
        match self.read_bytes(4) {
            Ok(head) => {
                assert(head@.subrange(0, 4) =~= head@);
                Ok(EntityId { value: read_u32(head, Endianness::BigEndian) })
            },
            Err(err) => Err(err),
        }
    }

    /// Reads a participant prefix: twelve bytes, the same in both byte
    /// orders.
    pub fn read_guid_prefix(&mut self) -> (r: MessageResult<GuidPrefix>)
        ensures
            final(self).endianness() == old(self).endianness(),
            match r {
                Ok(p) => {
                    &&& old(self).remaining().len() >= 12
                    &&& p == spec_guid_prefix(old(self).remaining().subrange(0, 12))
                    &&& final(self).remaining() == old(self).remaining().skip(12)
                },
                Err(e) => {
                    &&& e == MessageError::Truncated
                    &&& old(self).remaining().len() < 12
                    &&& final(self).remaining() == old(self).remaining()
                },
            },
    {
        match self.read_bytes(12) {
            Ok(head) => {
                let a = vstd::slice::slice_subrange(head, 0, 4);
                let b = vstd::slice::slice_subrange(head, 4, 8);
                let c = vstd::slice::slice_subrange(head, 8, 12);
                assert(a@.subrange(0, 4) =~= a@);
                assert(b@.subrange(0, 4) =~= b@);
                assert(c@.subrange(0, 4) =~= c@);
                Ok(
                    GuidPrefix {
                        host_id: read_u32(a, Endianness::BigEndian),
                        app_id: read_u32(b, Endianness::BigEndian),
                        instance_id: read_u32(c, Endianness::BigEndian),
                    },
                )
            },
            Err(err) => Err(err),
        }
    }

    /// Reads a sequence number: a signed high word and an unsigned low
    /// word.
    pub fn read_sequence_number(&mut self) -> (r: MessageResult<SequenceNumber>)
        ensures
            final(self).endianness() == old(self).endianness(),
            match r {
                Ok(sn) => {
                    &&& old(self).remaining().len() >= 8
                    &&& sn == spec_sequence_number(
                        old(self).remaining().subrange(0, 8),
                        old(self).endianness(),
                    )
                    &&& final(self).remaining() == old(self).remaining().skip(8)
                },
                Err(e) => {
                    &&& e == MessageError::Truncated
                    &&& old(self).remaining().len() < 8
                    &&& final(self).remaining() == old(self).remaining()
                },
            },
    {
        let e = self.endianness;
        match self.read_bytes(8) {
            Ok(head) => {
                let a = vstd::slice::slice_subrange(head, 0, 4);
                let b = vstd::slice::slice_subrange(head, 4, 8);
                assert(a@.subrange(0, 4) =~= a@);
                assert(b@.subrange(0, 4) =~= b@);
                let high: i32 = signed_32(read_u32(a, e));
                let low: u32 = read_u32(b, e);
                Ok(SequenceNumber { value: (high as i64) * 0x1_0000_0000i64 + (low as i64) })
            },
            Err(err) => Err(err),
        }
    }
}

/// Appends the four bytes of an entity identifier.
pub fn write_entity_id(out: &mut Vec<u8>, id: EntityId)
    ensures
        final(out)@ == old(out)@ + spec_entity_id_bytes(id),
{
    crate::serialization::byte_order::write_u32(out, id.value, Endianness::BigEndian);
}

/// Appends the twelve bytes of a participant prefix.
pub fn write_guid_prefix(out: &mut Vec<u8>, p: GuidPrefix)
    ensures
        final(out)@ == old(out)@ + spec_guid_prefix_bytes(p),
{
    let ghost start = out@;
    crate::serialization::byte_order::write_u32(out, p.host_id, Endianness::BigEndian);
    crate::serialization::byte_order::write_u32(out, p.app_id, Endianness::BigEndian);
    crate::serialization::byte_order::write_u32(out, p.instance_id, Endianness::BigEndian);
    assert(out@ =~= start + spec_guid_prefix_bytes(p));
}

/// Appends the eight bytes of a sequence number.
pub fn write_sequence_number(out: &mut Vec<u8>, sn: SequenceNumber, e: Endianness)
    ensures
        final(out)@ == old(out)@ + spec_sequence_number_bytes(sn, e),
{
    let ghost start = out@;
    proof {
        crate::serialization::byte_order::lemma_pow256_values();
    }
    // Split into words with a non-negative low word.
    let shifted: i128 = sn.value as i128 + 0x8000_0000_0000_0000i128;
    let high_shifted: i128 = shifted / 0x1_0000_0000i128;
    let low: i128 = shifted % 0x1_0000_0000i128;
    let high: i128 = high_shifted - 0x8000_0000i128;
    assert(high == spec_sequence_high(sn) && low == spec_sequence_low(sn)) by {
        assert(sn.value as int == high * 0x1_0000_0000 + low);
    }
    let high_bits: u32 = crate::serialization::byte_order::unsigned_32(high as i32);
    crate::serialization::byte_order::write_u32(out, high_bits, e);
    crate::serialization::byte_order::write_u32(out, low as u32, e);
    assert(out@ =~= start + spec_sequence_number_bytes(sn, e));
}

/// Parsing the eight bytes of a sequence number gives the number back.
pub proof fn law_sequence_number_round_trip(sn: SequenceNumber, e: Endianness)
    ensures
        spec_sequence_number_bytes(sn, e).len() == 8,
        spec_sequence_number(spec_sequence_number_bytes(sn, e), e) == sn,
{
    crate::serialization::byte_order::lemma_pow256_values();
    let high = spec_sequence_high(sn);
    let low = spec_sequence_low(sn);
    assert(sn.value as int == high * 0x1_0000_0000 + low);
    crate::serialization::byte_order::lemma_signed_of_unsigned(high, 4);
    let first = crate::serialization::byte_order::spec_bytes(
        crate::serialization::byte_order::spec_unsigned(high, 4),
        4,
        e,
    );
    let second = crate::serialization::byte_order::spec_bytes(low as nat, 4, e);
    crate::serialization::byte_order::lemma_value_of_bytes(
        crate::serialization::byte_order::spec_unsigned(high, 4),
        4,
        e,
    );
    crate::serialization::byte_order::lemma_value_of_bytes(low as nat, 4, e);
    let all = spec_sequence_number_bytes(sn, e);
    assert(all.subrange(0, 4) =~= first);
    assert(all.subrange(4, 8) =~= second);
}

} // verus!
