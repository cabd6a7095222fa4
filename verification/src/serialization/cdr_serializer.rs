use crate::serialization::byte_order::spec_bytes;
use crate::serialization::byte_order::spec_unsigned;
use crate::serialization::byte_order::spec_zeros;
use crate::serialization::byte_order::unsigned_16;
use crate::serialization::byte_order::unsigned_32;
use crate::serialization::byte_order::unsigned_64;
use crate::serialization::byte_order::write_bytes;
use crate::serialization::byte_order::write_u16;
use crate::serialization::byte_order::write_u32;
use crate::serialization::byte_order::write_u64;
use crate::serialization::byte_order::write_zeros;
use crate::serialization::byte_order::Endianness;
use crate::serialization::cdr_deserializer::spec_padding;
use vstd::prelude::*;
use vstd::string::StringSliceAdditionalSpecFns;

verus! {

/// The buffer `buf` after the value with bytes `bytes` was written aligned
/// to its own size: zero bytes fill the gap up to the alignment.
pub open spec fn spec_write_aligned(buf: Seq<u8>, bytes: Seq<u8>) -> Seq<u8> {
    buf + spec_zeros(spec_padding(buf.len(), bytes.len())) + bytes
}

/// The buffer `buf` after a string with UTF-8 text `text` was written: the
/// length of text and terminator as an aligned 32-bit number, the text,
/// and the terminator.
pub open spec fn spec_write_string(buf: Seq<u8>, text: Seq<u8>, e: Endianness) -> Seq<u8> {
    spec_write_aligned(buf, spec_bytes((text.len() + 1) as nat, 4, e)) + text + seq![0u8]
}

/// Writes values in the compact encoding of user data into a buffer.
///
/// Each number is aligned to its own size, counted from the start of the
/// buffer, and stands in the byte order of the serializer.
pub struct CdrSerializer {
    endianness: Endianness,
    buffer: Vec<u8>,
}

impl CdrSerializer {
    /// The bytes written so far.
    pub closed spec fn written(&self) -> Seq<u8> {
        self.buffer@
    }

    /// The byte order of the numbers.
    pub closed spec fn endianness(&self) -> Endianness {
        self.endianness
    }

    /// A serializer with an empty buffer.
    pub fn new(endianness: Endianness) -> (s: CdrSerializer)
        ensures
            s.written() == Seq::<u8>::empty(),
            s.endianness() == endianness,
    {
        CdrSerializer { endianness, buffer: Vec::new() }
    }

    /// Gives up the serializer for the bytes written.
    pub fn into_bytes(self) -> (bytes: Vec<u8>)
        ensures
            bytes@ == self.written(),
    {
        self.buffer
    }

    /// Fills the gap up to the next multiple of `alignment` with zeros.
    fn pad_to(&mut self, alignment: usize)
        requires
            0 < alignment <= 8,
        ensures
            final(self).endianness() == old(self).endianness(),
            final(self).written() == old(self).written() + spec_zeros(
                spec_padding(old(self).written().len(), alignment as nat),
            ),
    {
        let modulo = self.buffer.len() % alignment;
        if modulo != 0 {
            write_zeros(&mut self.buffer, alignment - modulo);
        } else {
            assert(self.buffer@ =~= self.buffer@ + spec_zeros(0));
        }
    }

    /// Writes a boolean as one byte: 0 for false, 1 for true.
    pub fn serialize_bool(&mut self, v: bool)
        ensures
            final(self).endianness() == old(self).endianness(),
            final(self).written() == old(self).written().push(
                if v {
                    1u8
                } else {
                    0u8
                },
            ),
    {
        self.buffer.push(if v {
            1u8
        } else {
            0u8
        });
    }

    /// Writes an unsigned byte.
    pub fn serialize_u8(&mut self, v: u8)
        ensures
            final(self).endianness() == old(self).endianness(),
            final(self).written() == old(self).written().push(v),
    {
        self.buffer.push(v);
    }

    /// Writes a signed byte.
    pub fn serialize_i8(&mut self, v: i8)
        ensures
            final(self).endianness() == old(self).endianness(),
            final(self).written() == old(self).written().push(spec_unsigned(v as int, 1) as u8),
    {
        proof {
            crate::serialization::byte_order::lemma_pow256_values();
        }
        let b: u8 = if v >= 0 {
            v as u8
        } else {
            (v as i16 + 0x100i16) as u8
        };
        self.buffer.push(b);
    }

    /// Writes an unsigned 16-bit number, aligned to two bytes.
    pub fn serialize_u16(&mut self, v: u16)
        ensures
            final(self).endianness() == old(self).endianness(),
            final(self).written() == spec_write_aligned(
                old(self).written(),
                spec_bytes(v as nat, 2, old(self).endianness()),
            ),
    {
        proof {
            crate::serialization::byte_order::lemma_le_bytes_len(v as nat, 2);
        }
        self.pad_to(2);
        write_u16(&mut self.buffer, v, self.endianness);
    }

    /// Writes an unsigned 32-bit number, aligned to four bytes.
    pub fn serialize_u32(&mut self, v: u32)
        ensures
            final(self).endianness() == old(self).endianness(),
            final(self).written() == spec_write_aligned(
                old(self).written(),
                spec_bytes(v as nat, 4, old(self).endianness()),
            ),
    {
        proof {
            crate::serialization::byte_order::lemma_le_bytes_len(v as nat, 4);
        }
        self.pad_to(4);
        write_u32(&mut self.buffer, v, self.endianness);
    }

    /// Writes an unsigned 64-bit number, aligned to eight bytes.
    pub fn serialize_u64(&mut self, v: u64)
        ensures
            final(self).endianness() == old(self).endianness(),
            final(self).written() == spec_write_aligned(
                old(self).written(),
                spec_bytes(v as nat, 8, old(self).endianness()),
            ),
    {
        proof {
            crate::serialization::byte_order::lemma_le_bytes_len(v as nat, 8);
        }
        self.pad_to(8);
        write_u64(&mut self.buffer, v, self.endianness);
    }

    /// Writes a signed 16-bit number, aligned to two bytes.
    pub fn serialize_i16(&mut self, v: i16)
        ensures
            final(self).endianness() == old(self).endianness(),
            final(self).written() == spec_write_aligned(
                old(self).written(),
                spec_bytes(spec_unsigned(v as int, 2), 2, old(self).endianness()),
            ),
    {
        self.serialize_u16(unsigned_16(v));
    }

    /// Writes a signed 32-bit number, aligned to four bytes.
    pub fn serialize_i32(&mut self, v: i32)
        ensures
            final(self).endianness() == old(self).endianness(),
            final(self).written() == spec_write_aligned(
                old(self).written(),
                spec_bytes(spec_unsigned(v as int, 4), 4, old(self).endianness()),
            ),
    {
        self.serialize_u32(unsigned_32(v));
    }

    /// Writes a signed 64-bit number, aligned to eight bytes.
    pub fn serialize_i64(&mut self, v: i64)
        ensures
            final(self).endianness() == old(self).endianness(),
            final(self).written() == spec_write_aligned(
                old(self).written(),
                spec_bytes(spec_unsigned(v as int, 8), 8, old(self).endianness()),
            ),
    {
        self.serialize_u64(unsigned_64(v));
    }

    /// Writes a character as its scalar value, a 32-bit number aligned to
    /// four bytes.
    pub fn serialize_char(&mut self, v: char)
        ensures
            final(self).endianness() == old(self).endianness(),
            final(self).written() == spec_write_aligned(
                old(self).written(),
                spec_bytes(v as nat, 4, old(self).endianness()),
            ),
    {
        self.serialize_u32(v as u32);
    }

    /// Writes the tag of an optional value: 1 where the value follows, 0
    /// where it is absent.
    pub fn serialize_option_tag(&mut self, present: bool)
        ensures
            final(self).endianness() == old(self).endianness(),
            final(self).written() == spec_write_aligned(
                old(self).written(),
                spec_bytes(
                    if present {
                        1nat
                    } else {
                        0nat
                    },
                    4,
                    old(self).endianness(),
                ),
            ),
    {
        self.serialize_u32(if present {
            1u32
        } else {
            0u32
        });
    }

    /// Writes the number of elements of a sequence or of a map.
    pub fn serialize_seq_len(&mut self, len: u32)
        ensures
            final(self).endianness() == old(self).endianness(),
            final(self).written() == spec_write_aligned(
                old(self).written(),
                spec_bytes(len as nat, 4, old(self).endianness()),
            ),
    {
        self.serialize_u32(len);
    }

    /// Writes the tag of an enumeration: the position of the variant in the
    /// declaration.
    pub fn serialize_enum_tag(&mut self, tag: u32)
        ensures
            final(self).endianness() == old(self).endianness(),
            final(self).written() == spec_write_aligned(
                old(self).written(),
                spec_bytes(tag as nat, 4, old(self).endianness()),
            ),
    {
        self.serialize_u32(tag);
    }

    /// Writes a string: the length of text and terminator, the UTF-8 text,
    /// and the terminator. The length has to fit in 32 bits.
    pub fn serialize_str(&mut self, v: &str)
        requires
            v.spec_bytes().len() < u32::MAX,
        ensures
            final(self).endianness() == old(self).endianness(),
            final(self).written() == spec_write_string(
                old(self).written(),
                v.spec_bytes(),
                old(self).endianness(),
            ),
    {
        let text = v.as_bytes();
        let length: u32 = (text.len() + 1) as u32;
        self.serialize_u32(length);
        write_bytes(&mut self.buffer, text);
        self.buffer.push(0u8);
    }
}

} // verus!
