use crate::serialization::byte_order::read_u16;
use crate::serialization::byte_order::read_u32;
use crate::serialization::byte_order::read_u64;
use crate::serialization::byte_order::signed_16;
use crate::serialization::byte_order::signed_32;
use crate::serialization::byte_order::signed_64;
use crate::serialization::byte_order::spec_signed;
use crate::serialization::byte_order::spec_value;
use crate::serialization::byte_order::Endianness;
use crate::serialization::error::Error;
use crate::serialization::error::Result;
use crate::messages::submessages::submessage_elements::serialized_payload::RepresentationIdentifier;
use crate::messages::submessages::submessage_elements::serialized_payload::CDR_BE;
use crate::messages::submessages::submessage_elements::serialized_payload::CDR_LE;
use crate::messages::submessages::submessage_elements::serialized_payload::PL_CDR_LE;
use core::marker::PhantomData;
use vstd::prelude::*;
use vstd::string::StringSliceAdditionalSpecFns;

verus! {

/// Number of bytes that separate `count` from the next multiple of
/// `alignment`.
pub open spec fn spec_padding(count: nat, alignment: nat) -> nat {
    if count % alignment == 0 {
        0
    } else {
        (alignment - count % alignment) as nat
    }
}

/// What is left of the input `rem` at position `pos`, and the position,
/// after the padding before a value aligned to `alignment` was skipped.
/// Where the input is shorter than the padding, nothing is skipped.
pub open spec fn spec_after_padding(rem: Seq<u8>, pos: nat, alignment: nat) -> (Seq<u8>, nat) {
    let pad = spec_padding(pos, alignment);
    if pad <= rem.len() {
        (rem.skip(pad as int), pos + pad)
    } else {
        (rem, pos)
    }
}

/// Whether the input holds the padding before a value aligned to
/// `alignment`.
pub open spec fn spec_has_padding(rem: Seq<u8>, pos: nat, alignment: nat) -> bool {
    spec_padding(pos, alignment) <= rem.len()
}

/// The bytes of a value of `size` bytes aligned to its size, where the
/// input holds them.
pub open spec fn spec_aligned_bytes(rem: Seq<u8>, pos: nat, size: nat) -> Option<Seq<u8>> {
    let after = spec_after_padding(rem, pos, size);
    if spec_has_padding(rem, pos, size) && size <= after.0.len() {
        Some(after.0.subrange(0, size as int))
    } else {
        None
    }
}

/// What is left of the input, and the position, after a value of `size`
/// bytes aligned to its size was read or found missing. Padding that the
/// input holds is consumed also where the value is missing.
pub open spec fn spec_after_aligned(rem: Seq<u8>, pos: nat, size: nat) -> (Seq<u8>, nat) {
    let after = spec_after_padding(rem, pos, size);
    if spec_has_padding(rem, pos, size) && size <= after.0.len() {
        (after.0.skip(size as int), after.1 + size)
    } else {
        after
    }
}

/// Whether `n` is a Unicode scalar value.
pub open spec fn spec_is_scalar(n: u32) -> bool {
    n <= 0xd7ff || 0xe000 <= n <= 0x10_ffff
}

/// Calls `std::str::from_utf8`, which accepts exactly the byte slices that
/// are UTF-8 and gives the string made of those bytes.
#[verifier::external_body]
fn str_from_utf8<'a>(bytes: &'a [u8]) -> (r: Option<&'a str>)
    ensures
        r is Some <==> vstd::utf8::valid_utf8(bytes@),
        r matches Some(s) ==> s.spec_bytes() == bytes@,
{
    core::str::from_utf8(bytes).ok()
}

/// Calls `char::from_u32`, which accepts exactly the Unicode scalar
/// values and gives the character with that number.
#[verifier::external_body]
fn char_from_u32(n: u32) -> (r: Option<char>)
    ensures
        r is Some <==> spec_is_scalar(n),
        r matches Some(c) ==> c as u32 == n,
{
    char::from_u32(n)
}

/// The byte order of a payload with the representation identifier
/// `encoding`: little-endian for the little-endian compact encoding and
/// the little-endian parameter list, big-endian for the big-endian compact
/// encoding. Other identifiers are not supported.
pub open spec fn spec_encoding_endianness(encoding: RepresentationIdentifier) -> Result<
    Endianness,
> {
    if encoding.value == CDR_LE || encoding.value == PL_CDR_LE {
        Ok(Endianness::LittleEndian)
    } else if encoding.value == CDR_BE {
        Ok(Endianness::BigEndian)
    } else {
        Err(Error::UnknownRepresentation(encoding.value))
    }
}

/// Reads payloads in the compact encoding of either byte order.
pub struct CDRDeserializerAdapter<D> {
    pub phantom: PhantomData<D>,
}

impl<D> CDRDeserializerAdapter<D> {
    /// The encodings that the adapter reads.
    pub fn supported_encodings() -> (ids: Vec<RepresentationIdentifier>)
        ensures
            ids@ == seq![
                RepresentationIdentifier { value: CDR_BE },
                RepresentationIdentifier { value: CDR_LE },
                RepresentationIdentifier { value: PL_CDR_LE },
            ],
    {
        let mut ids: Vec<RepresentationIdentifier> = Vec::new();
        ids.push(RepresentationIdentifier { value: CDR_BE });
        ids.push(RepresentationIdentifier { value: CDR_LE });
        ids.push(RepresentationIdentifier { value: PL_CDR_LE });
        assert(ids@ =~= seq![
            RepresentationIdentifier { value: CDR_BE },
            RepresentationIdentifier { value: CDR_LE },
            RepresentationIdentifier { value: PL_CDR_LE },
        ]);
        ids
    }

    /// A deserializer of the payload `input_bytes` in the byte order of its
    /// encoding, or `UnknownRepresentation` for an encoding that is not
    /// supported.
    pub fn deserializer_for<'de>(input_bytes: &'de [u8], encoding: RepresentationIdentifier) -> (r:
        Result<CdrDeserializer<'de>>)
        ensures
            match r {
                Ok(d) => spec_encoding_endianness(encoding) == Ok::<Endianness, Error>(
                    d.endianness(),
                ) && d.wf() && d.remaining() == input_bytes@ && d.position() == 0,
                Err(e) => spec_encoding_endianness(encoding) == Err::<Endianness, Error>(e),
            },
    {
        if encoding.value == CDR_LE || encoding.value == PL_CDR_LE {
            Ok(CdrDeserializer::new_little_endian(input_bytes))
        } else if encoding.value == CDR_BE {
            Ok(CdrDeserializer::new_big_endian(input_bytes))
        } else {
            Err(Error::UnknownRepresentation(encoding.value))
        }
    }
}

/// Reads values of the compact encoding of user data from a byte slice.
///
/// Each number is aligned to its own size, counted from the start of the
/// input, and stands in the byte order of the deserializer.
pub struct CdrDeserializer<'de> {
    endianness: Endianness,
    input: &'de [u8],
    serialized_data_count: usize,
}

impl<'de> CdrDeserializer<'de> {
    /// The bytes not read yet.
    pub closed spec fn remaining(&self) -> Seq<u8> {
        self.input@
    }

    /// The number of bytes read so far.
    pub closed spec fn position(&self) -> nat {
        self.serialized_data_count as nat
    }

    /// The byte order of the numbers.
    pub closed spec fn endianness(&self) -> Endianness {
        self.endianness
    }

    /// The invariant of the deserializer: the length of the whole input
    /// fits the counter of bytes read.
    pub closed spec fn wf(&self) -> bool {
        self.serialized_data_count + self.input@.len() <= usize::MAX
    }

    /// A deserializer of little-endian input.
    pub fn new_little_endian(input: &'de [u8]) -> (d: CdrDeserializer<'de>)
        ensures
            d.wf(),
            d.remaining() == input@,
            d.position() == 0,
            d.endianness() == Endianness::LittleEndian,
    {
        CdrDeserializer::new(input, Endianness::LittleEndian)
    }

    /// A deserializer of big-endian input.
    pub fn new_big_endian(input: &'de [u8]) -> (d: CdrDeserializer<'de>)
        ensures
            d.wf(),
            d.remaining() == input@,
            d.position() == 0,
            d.endianness() == Endianness::BigEndian,
    {
        CdrDeserializer::new(input, Endianness::BigEndian)
    }

    /// A deserializer of input in the given byte order.
    pub fn new(input: &'de [u8], endianness: Endianness) -> (d: CdrDeserializer<'de>)
        ensures
            d.wf(),
            d.remaining() == input@,
            d.position() == 0,
            d.endianness() == endianness,
    {
        let length = input.len();
        assert(length == input@.len());
        CdrDeserializer { endianness, input, serialized_data_count: 0 }
    }

    /// Reads the next `count` bytes of the input, or fails with `Eof` and
    /// reads nothing where the input is shorter.
    pub fn next_bytes(&mut self, count: usize) -> (r: Result<&'de [u8]>)
        requires
            old(self).wf(),
        ensures
            final(self).wf(),
            final(self).endianness() == old(self).endianness(),
            match r {
                Ok(head) => {
                    &&& count <= old(self).remaining().len()
                    &&& head@ == old(self).remaining().subrange(0, count as int)
                    &&& final(self).remaining() == old(self).remaining().skip(count as int)
                    &&& final(self).position() == old(self).position() + count
                },
                Err(e) => {
                    &&& e == Error::Eof
                    &&& count > old(self).remaining().len()
                    &&& final(self).remaining() == old(self).remaining()
                    &&& final(self).position() == old(self).position()
                },
            },
    {
        if count <= self.input.len() {
            let (head, tail) = self.input.split_at(count);
            self.input = tail;
            self.serialized_data_count += count;
            Ok(head)
        } else {
            Err(Error::Eof)
        }
    }

    /// Reads and discards the next `count` bytes.
    pub fn remove_bytes_from_input(&mut self, count: usize) -> (r: Result<()>)
        requires
            old(self).wf(),
        ensures
            final(self).wf(),
            final(self).endianness() == old(self).endianness(),
            match r {
                Ok(_) => {
                    &&& count <= old(self).remaining().len()
                    &&& final(self).remaining() == old(self).remaining().skip(count as int)
                    &&& final(self).position() == old(self).position() + count
                },
                Err(e) => {
                    &&& e == Error::Eof
                    &&& count > old(self).remaining().len()
                    &&& final(self).remaining() == old(self).remaining()
                    &&& final(self).position() == old(self).position()
                },
            },
    {
        match self.next_bytes(count) {
            Ok(_) => Ok(()),
            Err(e) => Err(e),
        }
    }

    /// The next byte of the input, which stays unread.
    pub fn peek_byte(&self) -> (r: Result<u8>)
        ensures
            match r {
                Ok(b) => self.remaining().len() > 0 && b == self.remaining()[0],
                Err(e) => e == Error::Eof && self.remaining().len() == 0,
            },
    {
        if self.input.len() > 0 {
            Ok(self.input[0])
        } else {
            Err(Error::Eof)
        }
    }

    /// Whether any input is left.
    pub fn check_if_bytes_left(&self) -> (b: bool)
        ensures
            b == (self.remaining().len() > 0),
    {
        self.input.len() > 0
    }

    /// Skips the padding before a value aligned to `type_octet_aligment`
    /// bytes, or fails with `Eof` and skips nothing where the input is
    /// shorter than the padding.
    pub fn calculate_padding_count_from_written_bytes_and_remove(
        &mut self,
        type_octet_aligment: usize,
    ) -> (r: Result<()>)
        requires
            old(self).wf(),
            type_octet_aligment > 0,
        ensures
            final(self).wf(),
            final(self).endianness() == old(self).endianness(),
            (final(self).remaining(), final(self).position()) == spec_after_padding(
                old(self).remaining(),
                old(self).position(),
                type_octet_aligment as nat,
            ),
            match r {
                Ok(_) => spec_has_padding(
                    old(self).remaining(),
                    old(self).position(),
                    type_octet_aligment as nat,
                ),
                Err(e) => e == Error::Eof && !spec_has_padding(
                    old(self).remaining(),
                    old(self).position(),
                    type_octet_aligment as nat,
                ),
            },
    {
        let modulo = self.serialized_data_count % type_octet_aligment;
        if modulo != 0 {
            let padding = type_octet_aligment - modulo;
            self.remove_bytes_from_input(padding)
        } else {
            assert(self.input@.skip(0) =~= self.input@);
            Ok(())
        }
    }

    /// Reads a value of `size` bytes aligned to its size.
    fn read_aligned(&mut self, size: usize) -> (r: Result<&'de [u8]>)
        requires
            old(self).wf(),
            size > 0,
        ensures
            final(self).wf(),
            final(self).endianness() == old(self).endianness(),
            (final(self).remaining(), final(self).position()) == spec_after_aligned(
                old(self).remaining(),
                old(self).position(),
                size as nat,
            ),
            match r {
                Ok(bytes) => bytes@.len() == size && spec_aligned_bytes(
                    old(self).remaining(),
                    old(self).position(),
                    size as nat,
                ) == Some(bytes@),
                Err(e) => e == Error::Eof && spec_aligned_bytes(
                    old(self).remaining(),
                    old(self).position(),
                    size as nat,
                ) is None,
            },
    {
        match self.calculate_padding_count_from_written_bytes_and_remove(size) {
            Ok(_) => {},
            Err(e) => {
                return Err(e);
            },
        }
        self.next_bytes(size)
    }

    /// Reads a boolean: one byte, 0 for false and 1 for true. Any other
    /// byte is read and fails with `BadBoolean`.
    pub fn deserialize_bool(&mut self) -> (r: Result<bool>)
        requires
            old(self).wf(),
        ensures
            final(self).wf(),
            final(self).endianness() == old(self).endianness(),
            old(self).remaining().len() == 0 ==> r == Err::<bool, Error>(Error::Eof) && final(self).remaining() == old(self).remaining() && final(self).position() == old(self).position(),
            old(self).remaining().len() > 0 ==> {
                &&& final(self).remaining() == old(self).remaining().skip(1)
                &&& final(self).position() == old(self).position() + 1
                &&& r == match old(self).remaining()[0] {
                    0u8 => Ok::<bool, Error>(false),
                    1u8 => Ok::<bool, Error>(true),
                    x => Err::<bool, Error>(Error::BadBoolean(x)),
                }
            },
    {
        let head = match self.next_bytes(1) {
            Ok(head) => head,
            Err(e) => {
                return Err(e);
            },
        };
        let b: u8 = head[0];
        if b == 0 {
            Ok(false)
        } else if b == 1 {
            Ok(true)
        } else {
            Err(Error::BadBoolean(b))
        }
    }

    /// Reads an unsigned byte.
    pub fn deserialize_u8(&mut self) -> (r: Result<u8>)
        requires
            old(self).wf(),
        ensures
            final(self).wf(),
            final(self).endianness() == old(self).endianness(),
            old(self).remaining().len() == 0 ==> r == Err::<u8, Error>(Error::Eof) && final(self).remaining() == old(self).remaining() && final(self).position() == old(self).position(),
            old(self).remaining().len() > 0 ==> {
                &&& final(self).remaining() == old(self).remaining().skip(1)
                &&& final(self).position() == old(self).position() + 1
                &&& r == Ok::<u8, Error>(old(self).remaining()[0])
            },
    {
        match self.next_bytes(1) {
            Ok(head) => Ok(head[0]),
            Err(e) => Err(e),
        }
    }

    /// Reads a signed byte.
    pub fn deserialize_i8(&mut self) -> (r: Result<i8>)
        requires
            old(self).wf(),
        ensures
            final(self).wf(),
            final(self).endianness() == old(self).endianness(),
            old(self).remaining().len() == 0 ==> r == Err::<i8, Error>(Error::Eof) && final(self).remaining() == old(self).remaining() && final(self).position() == old(self).position(),
            old(self).remaining().len() > 0 ==> {
                &&& final(self).remaining() == old(self).remaining().skip(1)
                &&& final(self).position() == old(self).position() + 1
                &&& r matches Ok(v) && v as int == spec_signed(old(self).remaining()[0] as nat, 1)
            },
    {
        match self.next_bytes(1) {
            Ok(head) => {
                let b: u8 = head[0];
                proof {
                    crate::serialization::byte_order::lemma_pow256_values();
                }
                if b < 0x80 {
                    Ok(b as i8)
                } else {
                    Ok((b as i16 - 0x100i16) as i8)
                }
            },
            Err(e) => Err(e),
        }
    }

    /// Reads an unsigned 16-bit number, aligned to two bytes.
    pub fn deserialize_u16(&mut self) -> (r: Result<u16>)
        requires
            old(self).wf(),
        ensures
            final(self).wf(),
            final(self).endianness() == old(self).endianness(),
            (final(self).remaining(), final(self).position()) == spec_after_aligned(
                old(self).remaining(),
                old(self).position(),
                2,
            ),
            match r {
                Ok(v) => spec_aligned_bytes(old(self).remaining(), old(self).position(), 2)
                    matches Some(bytes) && v as nat == spec_value(bytes, old(self).endianness()),
                Err(e) => e == Error::Eof && spec_aligned_bytes(
                    old(self).remaining(),
                    old(self).position(),
                    2,
                ) is None,
            },
    {
        let e = self.endianness;
        match self.read_aligned(2) {
            Ok(bytes) => {
                assert(bytes@.subrange(0, 2) =~= bytes@);
                Ok(read_u16(bytes, e))
            },
            Err(err) => Err(err),
        }
    }

    /// Reads an unsigned 32-bit number, aligned to four bytes.
    pub fn deserialize_u32(&mut self) -> (r: Result<u32>)
        requires
            old(self).wf(),
        ensures
            final(self).wf(),
            final(self).endianness() == old(self).endianness(),
            (final(self).remaining(), final(self).position()) == spec_after_aligned(
                old(self).remaining(),
                old(self).position(),
                4,
            ),
            match r {
                Ok(v) => spec_aligned_bytes(old(self).remaining(), old(self).position(), 4)
                    matches Some(bytes) && v as nat == spec_value(bytes, old(self).endianness()),
                Err(e) => e == Error::Eof && spec_aligned_bytes(
                    old(self).remaining(),
                    old(self).position(),
                    4,
                ) is None,
            },
    {
        let e = self.endianness;
        match self.read_aligned(4) {
            Ok(bytes) => {
                assert(bytes@.subrange(0, 4) =~= bytes@);
                Ok(read_u32(bytes, e))
            },
            Err(err) => Err(err),
        }
    }

    /// Reads an unsigned 64-bit number, aligned to eight bytes.
    pub fn deserialize_u64(&mut self) -> (r: Result<u64>)
        requires
            old(self).wf(),
        ensures
            final(self).wf(),
            final(self).endianness() == old(self).endianness(),
            (final(self).remaining(), final(self).position()) == spec_after_aligned(
                old(self).remaining(),
                old(self).position(),
                8,
            ),
            match r {
                Ok(v) => spec_aligned_bytes(old(self).remaining(), old(self).position(), 8)
                    matches Some(bytes) && v as nat == spec_value(bytes, old(self).endianness()),
                Err(e) => e == Error::Eof && spec_aligned_bytes(
                    old(self).remaining(),
                    old(self).position(),
                    8,
                ) is None,
            },
    {
        let e = self.endianness;
        match self.read_aligned(8) {
            Ok(bytes) => {
                assert(bytes@.subrange(0, 8) =~= bytes@);
                Ok(read_u64(bytes, e))
            },
            Err(err) => Err(err),
        }
    }

    /// Reads a signed 16-bit number, aligned to two bytes.
    pub fn deserialize_i16(&mut self) -> (r: Result<i16>)
        requires
            old(self).wf(),
        ensures
            final(self).wf(),
            final(self).endianness() == old(self).endianness(),
            (final(self).remaining(), final(self).position()) == spec_after_aligned(
                old(self).remaining(),
                old(self).position(),
                2,
            ),
            match r {
                Ok(v) => spec_aligned_bytes(old(self).remaining(), old(self).position(), 2)
                    matches Some(bytes) && v as int == spec_signed(
                    spec_value(bytes, old(self).endianness()),
                    2,
                ),
                Err(e) => e == Error::Eof && spec_aligned_bytes(
                    old(self).remaining(),
                    old(self).position(),
                    2,
                ) is None,
            },
    {
        match self.deserialize_u16() {
            Ok(n) => Ok(signed_16(n)),
            Err(err) => Err(err),
        }
    }

    /// Reads a signed 32-bit number, aligned to four bytes.
    pub fn deserialize_i32(&mut self) -> (r: Result<i32>)
        requires
            old(self).wf(),
        ensures
            final(self).wf(),
            final(self).endianness() == old(self).endianness(),
            (final(self).remaining(), final(self).position()) == spec_after_aligned(
                old(self).remaining(),
                old(self).position(),
                4,
            ),
            match r {
                Ok(v) => spec_aligned_bytes(old(self).remaining(), old(self).position(), 4)
                    matches Some(bytes) && v as int == spec_signed(
                    spec_value(bytes, old(self).endianness()),
                    4,
                ),
                Err(e) => e == Error::Eof && spec_aligned_bytes(
                    old(self).remaining(),
                    old(self).position(),
                    4,
                ) is None,
            },
    {
        match self.deserialize_u32() {
            Ok(n) => Ok(signed_32(n)),
            Err(err) => Err(err),
        }
    }

    /// Reads a signed 64-bit number, aligned to eight bytes.
    pub fn deserialize_i64(&mut self) -> (r: Result<i64>)
        requires
            old(self).wf(),
        ensures
            final(self).wf(),
            final(self).endianness() == old(self).endianness(),
            (final(self).remaining(), final(self).position()) == spec_after_aligned(
                old(self).remaining(),
                old(self).position(),
                8,
            ),
            match r {
                Ok(v) => spec_aligned_bytes(old(self).remaining(), old(self).position(), 8)
                    matches Some(bytes) && v as int == spec_signed(
                    spec_value(bytes, old(self).endianness()),
                    8,
                ),
                Err(e) => e == Error::Eof && spec_aligned_bytes(
                    old(self).remaining(),
                    old(self).position(),
                    8,
                ) is None,
            },
    {
        match self.deserialize_u64() {
            Ok(n) => Ok(signed_64(n)),
            Err(err) => Err(err),
        }
    }

    /// Reads a character: a 32-bit number aligned to four bytes that is a
    /// Unicode scalar value. Any other number is read and fails with
    /// `BadChar`.
    pub fn deserialize_char(&mut self) -> (r: Result<char>)
        requires
            old(self).wf(),
        ensures
            final(self).wf(),
            final(self).endianness() == old(self).endianness(),
            (final(self).remaining(), final(self).position()) == spec_after_aligned(
                old(self).remaining(),
                old(self).position(),
                4,
            ),
            match spec_aligned_bytes(old(self).remaining(), old(self).position(), 4) {
                None => r == Err::<char, Error>(Error::Eof),
                Some(bytes) => {
                    let n = spec_value(bytes, old(self).endianness());
                    if n <= u32::MAX && spec_is_scalar(n as u32) {
                        r matches Ok(c) && c as u32 == n
                    } else {
                        r matches Err(Error::BadChar(x)) && x == n
                    }
                },
            },
    {
        let codepoint = match self.deserialize_u32() {
            Ok(n) => n,
            Err(err) => {
                return Err(err);
            },
        };
        match char_from_u32(codepoint) {
            Some(c) => Ok(c),
            None => Err(Error::BadChar(codepoint)),
        }
    }

    /// Reads the tag of an optional value: the 32-bit number 0 where the
    /// value is absent, 1 where it follows. Any other number is read and
    /// fails with `BadOption`.
    pub fn deserialize_option_tag(&mut self) -> (r: Result<bool>)
        requires
            old(self).wf(),
        ensures
            final(self).wf(),
            final(self).endianness() == old(self).endianness(),
            (final(self).remaining(), final(self).position()) == spec_after_aligned(
                old(self).remaining(),
                old(self).position(),
                4,
            ),
            match spec_aligned_bytes(old(self).remaining(), old(self).position(), 4) {
                None => r == Err::<bool, Error>(Error::Eof),
                Some(bytes) => {
                    let n = spec_value(bytes, old(self).endianness());
                    if n == 0 {
                        r == Ok::<bool, Error>(false)
                    } else if n == 1 {
                        r == Ok::<bool, Error>(true)
                    } else {
                        r matches Err(Error::BadOption(x)) && x == n
                    }
                },
            },
    {
        let tag = match self.deserialize_u32() {
            Ok(n) => n,
            Err(err) => {
                return Err(err);
            },
        };
        if tag == 0 {
            Ok(false)
        } else if tag == 1 {
            Ok(true)
        } else {
            Err(Error::BadOption(tag))
        }
    }

    /// Reads the number of elements of a sequence or of a map: a 32-bit
    /// number aligned to four bytes.
    pub fn deserialize_seq_len(&mut self) -> (r: Result<usize>)
        requires
            old(self).wf(),
        ensures
            final(self).wf(),
            final(self).endianness() == old(self).endianness(),
            (final(self).remaining(), final(self).position()) == spec_after_aligned(
                old(self).remaining(),
                old(self).position(),
                4,
            ),
            match r {
                Ok(v) => spec_aligned_bytes(old(self).remaining(), old(self).position(), 4)
                    matches Some(bytes) && v as nat == spec_value(bytes, old(self).endianness()),
                Err(e) => e == Error::Eof && spec_aligned_bytes(
                    old(self).remaining(),
                    old(self).position(),
                    4,
                ) is None,
            },
    {
        match self.deserialize_u32() {
            Ok(n) => Ok(n as usize),
            Err(err) => Err(err),
        }
    }

    /// Reads the tag of an enumeration: the position of the variant in the
    /// declaration, as a 32-bit number aligned to four bytes.
    pub fn deserialize_enum_tag(&mut self) -> (r: Result<u32>)
        requires
            old(self).wf(),
        ensures
            final(self).wf(),
            final(self).endianness() == old(self).endianness(),
            (final(self).remaining(), final(self).position()) == spec_after_aligned(
                old(self).remaining(),
                old(self).position(),
                4,
            ),
            match r {
                Ok(v) => spec_aligned_bytes(old(self).remaining(), old(self).position(), 4)
                    matches Some(bytes) && v as nat == spec_value(bytes, old(self).endianness()),
                Err(e) => e == Error::Eof && spec_aligned_bytes(
                    old(self).remaining(),
                    old(self).position(),
                    4,
                ) is None,
            },
    {
        self.deserialize_u32()
    }

    /// Reads a string: a 32-bit length aligned to four bytes, then that
    /// many bytes, of which the last is the terminator and the others are
    /// the UTF-8 text.
    ///
    /// Fails with `Eof` where the length or the bytes are missing, and with
    /// `BadString` where the length is zero or the text is not UTF-8.
    pub fn deserialize_str(&mut self) -> (r: Result<&'de str>)
        requires
            old(self).wf(),
        ensures
            final(self).wf(),
            final(self).endianness() == old(self).endianness(),
            match spec_aligned_bytes(old(self).remaining(), old(self).position(), 4) {
                None => r matches Err(Error::Eof) && (
                    final(self).remaining(),
                    final(self).position(),
                ) == spec_after_aligned(old(self).remaining(), old(self).position(), 4),
                Some(bytes) => {
                    let len = spec_value(bytes, old(self).endianness());
                    let after = spec_after_aligned(
                        old(self).remaining(),
                        old(self).position(),
                        4,
                    );
                    if len == 0 {
                        r matches Err(Error::BadString) && (
                            final(self).remaining(),
                            final(self).position(),
                        ) == after
                    } else if len > after.0.len() {
                        r matches Err(Error::Eof) && (
                            final(self).remaining(),
                            final(self).position(),
                        ) == after
                    } else {
                        &&& (final(self).remaining(), final(self).position()) == (
                            after.0.skip(len as int),
                            after.1 + len,
                        )
                        &&& if vstd::utf8::valid_utf8(after.0.subrange(0, len - 1)) {
                            r matches Ok(s) && s.spec_bytes() == after.0.subrange(0, len - 1)
                        } else {
                            r matches Err(Error::BadString)
                        }
                    }
                },
            },
    {
        let bytes_len = match self.deserialize_u32() {
            Ok(n) => n as usize,
            Err(err) => {
                return Err(err);
            },
        };
        if bytes_len == 0 {
            return Err(Error::BadString);
        }
        let bytes = match self.next_bytes(bytes_len) {
            Ok(bytes) => bytes,
            Err(err) => {
                return Err(err);
            },
        };
        let bytes_without_null = vstd::slice::slice_subrange(bytes, 0, bytes_len - 1);
        proof {
            let ghost after = spec_after_aligned(old(self).remaining(), old(self).position(), 4);
            assert(bytes_without_null@ =~= after.0.subrange(0, bytes_len - 1));
        }
        match str_from_utf8(bytes_without_null) {
            Some(s) => Ok(s),
            None => Err(Error::BadString),
        }
    }
}

} // verus!
