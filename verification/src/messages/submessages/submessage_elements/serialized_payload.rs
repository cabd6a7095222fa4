use crate::messages::wire::MessageError;
use crate::messages::wire::MessageResult;
use crate::serialization::byte_order::read_u16;
use crate::serialization::byte_order::same_bytes;
use crate::serialization::byte_order::spec_bytes;
use crate::serialization::byte_order::spec_value;
use crate::serialization::byte_order::write_bytes;
use crate::serialization::byte_order::write_u16;
use crate::serialization::byte_order::Endianness;
use vstd::prelude::*;

verus! {

/// The shared byte buffer of the crate `bytes`.
#[verifier::external_type_specification]
#[verifier::external_body]
pub struct ExBytes(bytes::Bytes);

/// The bytes that a buffer holds.
pub uninterp spec fn bytes_content(b: bytes::Bytes) -> Seq<u8>;

/// Calls `bytes::Bytes::len`, which gives the number of bytes of the
/// buffer.
#[verifier::external_body]
pub(crate) fn bytes_len(b: &bytes::Bytes) -> (n: usize)
    ensures
        n == bytes_content(*b).len(),
{
    b.len()
}

/// Calls `bytes::Bytes::slice` with the range from `from` to `to`, which
/// gives a buffer that shares those bytes. It panics where the range does
/// not lie within the buffer.
#[verifier::external_body]
pub(crate) fn bytes_slice(b: &bytes::Bytes, from: usize, to: usize) -> (r: bytes::Bytes)
    requires
        from <= to <= bytes_content(*b).len(),
    ensures
        bytes_content(r) == bytes_content(*b).subrange(from as int, to as int),
{
    b.slice(from..to)
}

/// Calls `AsRef::as_ref` of `bytes::Bytes`, which gives the bytes of the
/// buffer as a slice.
#[verifier::external_body]
pub(crate) fn bytes_as_slice(b: &bytes::Bytes) -> (s: &[u8])
    ensures
        s@ == bytes_content(*b),
{
    b.as_ref()
}

/// Calls `From<Vec<u8>>::from` of `bytes::Bytes`, which makes a buffer of
/// the bytes of the vector.
#[verifier::external_body]
pub(crate) fn bytes_from_vec(v: Vec<u8>) -> (b: bytes::Bytes)
    ensures
        bytes_content(b) == v@,
{
    bytes::Bytes::from(v)
}

/// `Clone::clone` of `bytes::Bytes` gives a buffer that shares the same
/// bytes.
pub assume_specification[ <bytes::Bytes as Clone>::clone ](b: &bytes::Bytes) -> (r: bytes::Bytes)
    ensures
        bytes_content(r) == bytes_content(*b),
;

/// Tells how a payload is encoded.
#[derive(Clone, Copy, Debug, PartialEq, Eq, Structural, Hash)]
pub struct RepresentationIdentifier {
    pub value: u16,
}

/// Compact encoding, big-endian.
pub const CDR_BE: u16 = 0x0000;

/// Compact encoding, little-endian.
pub const CDR_LE: u16 = 0x0001;

/// Parameter list, big-endian.
pub const PL_CDR_BE: u16 = 0x0002;

/// Parameter list, little-endian.
pub const PL_CDR_LE: u16 = 0x0003;

/// Number of bytes in front of the value of a payload.
pub const PAYLOAD_HEADER_LENGTH: usize = 4;

/// The payload of a data submessage: how it is encoded, and the encoded
/// value, which shares the buffer that the message arrived in.
#[derive(Debug, Clone)]
pub struct SerializedPayload {
    pub representation_identifier: RepresentationIdentifier,
    pub representation_options: u16,
    pub value: bytes::Bytes,
}

/// What parsing a payload gives: the identifier and the options of the
/// representation, and the bytes of the value.
pub open spec fn spec_parse_payload(input: Seq<u8>) -> MessageResult<(u16, u16, Seq<u8>)> {
    if input.len() < 4 {
        Err(MessageError::Truncated)
    } else {
        Ok(
            (
                spec_value(input.subrange(0, 2), Endianness::BigEndian) as u16,
                spec_value(input.subrange(2, 4), Endianness::BigEndian) as u16,
                input.skip(4),
            ),
        )
    }
}

/// The bytes of a payload on the wire.
pub open spec fn spec_payload_bytes(p: (u16, u16, Seq<u8>)) -> Seq<u8> {
    spec_bytes(p.0 as nat, 2, Endianness::BigEndian) + spec_bytes(
        p.1 as nat,
        2,
        Endianness::BigEndian,
    ) + p.2
}

impl SerializedPayload {
    /// The payload as identifier, options and bytes of the value.
    pub open spec fn spec_view(&self) -> (u16, u16, Seq<u8>) {
        (
            self.representation_identifier.value,
            self.representation_options,
            bytes_content(self.value),
        )
    }

    /// The payload with the given encoding and value, and no options.
    pub fn new_from_bytes(representation_identifier: RepresentationIdentifier, value: Vec<u8>) -> (p:
        SerializedPayload)
        ensures
            p.spec_view() == (representation_identifier.value, 0u16, value@),
    {
        SerializedPayload {
            representation_identifier,
            representation_options: 0,
            value: bytes_from_vec(value),
        }
    }

    /// Parses a payload that fills the whole buffer. The value shares the
    /// buffer.
    pub fn from_bytes(buffer: &bytes::Bytes) -> (r: MessageResult<SerializedPayload>)
        ensures
            match r {
                Ok(p) => spec_parse_payload(bytes_content(*buffer)) == Ok::<
                    (u16, u16, Seq<u8>),
                    MessageError,
                >(p.spec_view()),
                Err(e) => spec_parse_payload(bytes_content(*buffer)) == Err::<
                    (u16, u16, Seq<u8>),
                    MessageError,
                >(e),
            },
    {
        let length = bytes_len(buffer);
        if length < PAYLOAD_HEADER_LENGTH {
            return Err(MessageError::Truncated);
        }
        let all = bytes_as_slice(buffer);
        let identifier = read_u16(vstd::slice::slice_subrange(all, 0, 2), Endianness::BigEndian);
        let options = read_u16(vstd::slice::slice_subrange(all, 2, 4), Endianness::BigEndian);
        let value = bytes_slice(buffer, 4, length);
        proof {
            let input = bytes_content(*buffer);
            assert(input.subrange(0, 2).subrange(0, 2) =~= input.subrange(0, 2));
            assert(input.subrange(2, 4).subrange(0, 2) =~= input.subrange(2, 4));
            assert(input.subrange(4, length as int) =~= input.skip(4));
        }
        Ok(
            SerializedPayload {
                representation_identifier: RepresentationIdentifier { value: identifier },
                representation_options: options,
                value,
            },
        )
    }

    /// Whether two payloads have the same encoding and the same bytes.
    pub fn same_as(&self, other: &SerializedPayload) -> (same: bool)
        ensures
            same == (self.spec_view() == other.spec_view()),
    {
        self.representation_identifier.value == other.representation_identifier.value
            && self.representation_options == other.representation_options && same_bytes(
            bytes_as_slice(&self.value),
            bytes_as_slice(&other.value),
        )
    }

    /// A payload with the same encoding and the same bytes, which shares
    /// the buffer of this one.
    pub fn duplicate(&self) -> (copy: SerializedPayload)
        ensures
            copy.spec_view() == self.spec_view(),
    {
        SerializedPayload {
            representation_identifier: self.representation_identifier,
            representation_options: self.representation_options,
            value: self.value.clone(),
        }
    }

    /// Appends the bytes of the payload.
    pub fn write_to(&self, out: &mut Vec<u8>)
        ensures
            final(out)@ == old(out)@ + spec_payload_bytes(self.spec_view()),
    {
        let ghost start = out@;
        write_u16(out, self.representation_identifier.value, Endianness::BigEndian);
        write_u16(out, self.representation_options, Endianness::BigEndian);
        write_bytes(out, bytes_as_slice(&self.value));
        assert(out@ =~= start + spec_payload_bytes(self.spec_view()));
    }
}

} // verus!
