use crate::messages::wire::MessageError;
use crate::messages::wire::MessageResult;
use crate::messages::wire::WireReader;
use crate::serialization::byte_order::spec_bytes;
use crate::serialization::byte_order::spec_value;
use crate::serialization::byte_order::spec_zeros;
use crate::serialization::byte_order::write_bytes;
use crate::serialization::byte_order::write_u16;
use crate::serialization::byte_order::write_zeros;
use crate::serialization::byte_order::Endianness;
use crate::serialization::cdr_deserializer::spec_padding;
use crate::structure::parameter_id::ParameterId;
use crate::structure::parameter_id::PID_STATUS_INFO;
use vstd::prelude::*;

verus! {

/// The bit vector of the crate `bit_vec`, with blocks of 32 bits.
#[verifier::external_type_specification]
#[verifier::external_body]
#[verifier::reject_recursive_types(B)]
pub struct ExBitVec<B>(bit_vec::BitVec<B>);

/// The bits that a bit vector holds, the first bit first.
pub uninterp spec fn bit_vec_bits(v: bit_vec::BitVec<u32>) -> Seq<bool>;

/// Weight of the bit at place `b` of a byte, where place 0 is the most
/// significant.
pub open spec fn spec_bit_weight(b: int) -> int {
    if b == 0 {
        128
    } else if b == 1 {
        64
    } else if b == 2 {
        32
    } else if b == 3 {
        16
    } else if b == 4 {
        8
    } else if b == 5 {
        4
    } else if b == 6 {
        2
    } else {
        1
    }
}

/// The bits of bytes, the most significant bit of each byte first.
pub open spec fn spec_bits_of_bytes(bytes: Seq<u8>) -> Seq<bool> {
    Seq::new(8 * bytes.len(), |i: int| (bytes[i / 8] as int / spec_bit_weight(i % 8)) % 2 == 1)
}

/// The worth of the bit at place `i` of `bits` within its byte; a place
/// beyond the bits counts as a bit that is not set.
pub open spec fn spec_bit_worth(bits: Seq<bool>, i: int) -> int {
    if i < bits.len() && bits[i] {
        spec_bit_weight(i % 8)
    } else {
        0
    }
}

/// The bytes of bits, the first bit as the most significant bit of the
/// first byte; the last byte is filled up with bits that are not set.
pub open spec fn spec_bytes_of_bits(bits: Seq<bool>) -> Seq<u8> {
    Seq::new(
        ((bits.len() + 7) / 8) as nat,
        |i: int|
            (spec_bit_worth(bits, 8 * i) + spec_bit_worth(bits, 8 * i + 1) + spec_bit_worth(
                bits,
                8 * i + 2,
            ) + spec_bit_worth(bits, 8 * i + 3) + spec_bit_worth(bits, 8 * i + 4)
                + spec_bit_worth(bits, 8 * i + 5) + spec_bit_worth(bits, 8 * i + 6)
                + spec_bit_worth(bits, 8 * i + 7)) as u8,
    )
}

/// Calls `bit_vec::BitVec::from_bytes`, which makes of each byte eight
/// bits, the most significant bit first. It panics where the number of
/// bits overflows.
#[verifier::external_body]
fn bit_vec_from_bytes(bytes: &[u8]) -> (v: bit_vec::BitVec<u32>)
    requires
        8 * bytes@.len() <= usize::MAX,
    ensures
        bit_vec_bits(v) == spec_bits_of_bytes(bytes@),
{
    bit_vec::BitVec::from_bytes(bytes)
}

/// Calls `bit_vec::BitVec::set`, which gives the bit at place `i` the value
/// `x`. It panics where the place is beyond the bits.
#[verifier::external_body]
fn bit_vec_set(v: &mut bit_vec::BitVec<u32>, i: usize, x: bool)
    requires
        i < bit_vec_bits(*old(v)).len(),
    ensures
        bit_vec_bits(*final(v)) == bit_vec_bits(*old(v)).update(i as int, x),
{
    v.set(i, x)
}

/// Calls `bit_vec::BitVec::to_bytes`, which makes of each eight bits a
/// byte, the first bit as the most significant, and fills the last byte up
/// with bits that are not set.
#[verifier::external_body]
fn bit_vec_to_bytes(v: &bit_vec::BitVec<u32>) -> (bytes: Vec<u8>)
    ensures
        bytes@ == spec_bytes_of_bits(bit_vec_bits(*v)),
{
    v.to_bytes()
}

/// One parameter of a parameter list: a tag and the bytes of a value.
#[derive(Debug, PartialEq, Eq, Clone)]
pub struct Parameter {
    /// Tells the type of the parameter.
    pub parameter_id: ParameterId,
    /// The encoded value.
    pub value: Vec<u8>,
}

/// The flags of a status-info parameter as one number: 1 for disposed, 2
/// for unregistered, 4 for filtered.
pub open spec fn spec_status_info_byte(
    is_disposed: bool,
    is_unregistered: bool,
    is_filtered: bool,
) -> u8 {
    ((if is_disposed {
        1int
    } else {
        0int
    }) + (if is_unregistered {
        2int
    } else {
        0int
    }) + (if is_filtered {
        4int
    } else {
        0int
    })) as u8
}

/// The bytes of a parameter on the wire: tag, length of the padded value,
/// the value, and zeros that fill it up to a multiple of four bytes.
pub open spec fn spec_parameter_bytes(pid: u16, value: Seq<u8>, e: Endianness) -> Seq<u8> {
    spec_bytes(pid as nat, 2, e) + spec_bytes(
        (value.len() + spec_padding(value.len(), 4)) as nat,
        2,
        e,
    ) + value + spec_zeros(spec_padding(value.len(), 4))
}

/// What parsing one parameter gives: the tag, the bytes of the value with
/// their padding, and the number of bytes read.
pub open spec fn spec_parse_parameter(input: Seq<u8>, e: Endianness) -> MessageResult<
    (u16, Seq<u8>, nat),
> {
    if input.len() < 4 {
        Err(MessageError::Truncated)
    } else {
        let pid = spec_value(input.subrange(0, 2), e) as u16;
        let length = spec_value(input.subrange(2, 4), e);
        if 4 + length > input.len() {
            Err(MessageError::Truncated)
        } else {
            Ok((pid, input.subrange(4, 4 + length as int), 4 + length))
        }
    }
}

impl Parameter {
    /// The status-info parameter of a change: four bytes of which the last
    /// holds the flag for a disposed instance as bit 0, for an
    /// unregistered instance as bit 1, and for a filtered sample as bit 2.
    pub fn create_pid_status_info_parameter(
        is_disposed: bool,
        is_unregistered: bool,
        is_filtered: bool,
    ) -> (p: Parameter)
        ensures
            p.parameter_id.value == PID_STATUS_INFO,
            p.value@ == seq![
                0u8,
                0u8,
                0u8,
                spec_status_info_byte(is_disposed, is_unregistered, is_filtered),
            ],
    {
        let zero: [u8; 1] = [0u8];
        let mut bit_vec = bit_vec_from_bytes(vstd::array::array_as_slice(&zero));
        let ghost initial = bit_vec_bits(bit_vec);
        assert(initial.len() == 8);
        assert forall|i: int| 0 <= i < 8 implies !initial[i] by {
            assert(zero@[i / 8] == 0u8);
        }
        bit_vec_set(&mut bit_vec, 7, is_disposed);
        bit_vec_set(&mut bit_vec, 6, is_unregistered);
        bit_vec_set(&mut bit_vec, 5, is_filtered);
        let ghost bits = bit_vec_bits(bit_vec);
        let bytes = bit_vec_to_bytes(&bit_vec);
        proof {
            assert(bits.len() == 8);
            assert(bits[7] == is_disposed);
            assert(bits[6] == is_unregistered);
            assert(bits[5] == is_filtered);
            assert(!bits[0] && !bits[1] && !bits[2] && !bits[3] && !bits[4]);
            assert(bytes@.len() == 1);
            assert(bytes@[0] == spec_status_info_byte(is_disposed, is_unregistered, is_filtered));
        }
        let last_byte = bytes[0];
        let mut value: Vec<u8> = Vec::new();
        value.push(0);
        value.push(0);
        value.push(0);
        value.push(last_byte);
        assert(value@ =~= seq![
            0u8,
            0u8,
            0u8,
            spec_status_info_byte(is_disposed, is_unregistered, is_filtered),
        ]);
        Parameter { parameter_id: ParameterId { value: PID_STATUS_INFO }, value }
    }

    /// Least number of bytes that hold a parameter.
    pub fn minimum_bytes_needed() -> (n: usize)
        ensures
            n == 4,
    {
        4
    }

    /// Parses one parameter. On success the reader stands behind it; on
    /// failure it has read nothing.
    pub fn read_from(reader: &mut WireReader) -> (r: MessageResult<Parameter>)
        ensures
            final(reader).endianness() == old(reader).endianness(),
            match r {
                Ok(p) => spec_parse_parameter(old(reader).remaining(), old(reader).endianness())
                    matches Ok((pid, value, n)) && p.parameter_id.value == pid && p.value@ == value
                    && final(reader).remaining() == old(reader).remaining().skip(n as int),
                Err(e) => spec_parse_parameter(old(reader).remaining(), old(reader).endianness())
                    == Err::<(u16, Seq<u8>, nat), MessageError>(e) && final(reader).remaining()
                    == old(reader).remaining(),
            },
    {
        let all = reader.rest();
        let e = reader.byte_order();
        let ghost input = reader.remaining();
        if all.len() < 4 {
            return Err(MessageError::Truncated);
        }
        let mut head = WireReader::new(all, e);
        let pid = head.read_u16();
        let length = head.read_u16();
        proof {
            assert(input.skip(2).subrange(0, 2) =~= input.subrange(2, 4));
        }
        match (pid, length) {
            (Ok(pid), Ok(length)) => {
                let length: usize = length as usize;
                if length > all.len() - 4 {
                    return Err(MessageError::Truncated);
                }
                let bytes = vstd::slice::slice_subrange(all, 4, 4 + length);
                let value = vstd::slice::slice_to_vec(bytes);
                let _skipped = reader.read_bytes(4 + length);
                Ok(Parameter { parameter_id: ParameterId { value: pid }, value })
            },
            _ => Err(MessageError::Truncated),
        }
    }

    /// Appends the bytes of the parameter. The padded value has to fit the
    /// 16-bit length field.
    pub fn write_to(&self, out: &mut Vec<u8>, e: Endianness)
        requires
            self.value@.len() + 3 <= u16::MAX,
        ensures
            final(out)@ == old(out)@ + spec_parameter_bytes(
                self.parameter_id.value,
                self.value@,
                e,
            ),
    {
        let ghost start = out@;
        let length = self.value.len();
        let modulo = length % 4;
        let padding: usize = if modulo == 0 {
            0
        } else {
            4 - modulo
        };
        write_u16(out, self.parameter_id.value, e);
        write_u16(out, (length + padding) as u16, e);
        write_bytes(out, self.value.as_slice());
        write_zeros(out, padding);
        assert(out@ =~= start + spec_parameter_bytes(self.parameter_id.value, self.value@, e));
    }
}

} // verus!
