use crate::dds::traits::key::Keyed;
use crate::messages::submessages::submessage_elements::serialized_payload::RepresentationIdentifier;
use crate::serialization::error::Result;
use vstd::prelude::*;

verus! {

/// Serialized bytes, as contracts speak of them.
pub type ByteSeq = Seq<u8>;

/// Encodings, as contracts speak of them.
pub type EncodingSeq = Seq<RepresentationIdentifier>;

/// A result of bytes, seen as the bytes that it holds.
pub open spec fn spec_bytes_result(r: Result<Vec<u8>>) -> Result<ByteSeq> {
    match r {
        Ok(bytes) => Ok(bytes@),
        Err(e) => Err(e),
    }
}

/// Turns values of a data type into bytes. What an adapter makes of a
/// value depends on the value alone: `spec_to_bytes` names it.
pub trait SerializerAdapter<D> {
    /// The encoding of the bytes.
    spec fn spec_output_encoding() -> RepresentationIdentifier;

    /// The bytes of a value, or why it has none.
    spec fn spec_to_bytes(value: &D) -> Result<ByteSeq>;

    /// The encoding of the bytes.
    fn output_encoding() -> (id: RepresentationIdentifier)
        ensures
            id == Self::spec_output_encoding(),
    ;

    /// The bytes of a value.
    fn to_bytes(value: &D) -> (r: Result<Vec<u8>>)
        ensures
            spec_bytes_result(r) == Self::spec_to_bytes(value),
    ;
}

/// Turns values and keys of a keyed data type into bytes.
pub trait KeyedSerializerAdapter<D: Keyed>: SerializerAdapter<D> {
    /// The bytes of a key, or why it has none.
    spec fn spec_key_to_bytes(key: &D::K) -> Result<ByteSeq>;

    /// The bytes of a key.
    fn key_to_bytes(key: &D::K) -> (r: Result<Vec<u8>>)
        ensures
            spec_bytes_result(r) == Self::spec_key_to_bytes(key),
    ;
}

/// Turns bytes into values of a data type. What an adapter reads from
/// bytes depends on the bytes and their encoding alone: `spec_from_bytes`
/// names it.
pub trait DeserializerAdapter<D> {
    /// The encodings that the adapter can read.
    spec fn spec_supported_encodings() -> EncodingSeq;

    /// The value that the bytes encode, or why they encode none.
    spec fn spec_from_bytes(input: ByteSeq, encoding: RepresentationIdentifier) -> Result<D>;

    /// The encodings that the adapter can read.
    fn supported_encodings() -> (ids: Vec<RepresentationIdentifier>)
        ensures
            ids@ == Self::spec_supported_encodings(),
    ;

    /// The value that the bytes encode.
    fn from_bytes(input_bytes: &[u8], encoding: RepresentationIdentifier) -> (r: Result<D>)
        ensures
            r == Self::spec_from_bytes(input_bytes@, encoding),
    ;
}

/// Turns bytes into values and keys of a keyed data type.
pub trait KeyedDeserializerAdapter<D: Keyed>: DeserializerAdapter<D> {
    /// The key that the bytes encode, or why they encode none.
    spec fn spec_key_from_bytes(input: ByteSeq, encoding: RepresentationIdentifier) -> Result<D::K>;

    /// The key that the bytes encode.
    fn key_from_bytes(input_bytes: &[u8], encoding: RepresentationIdentifier) -> (r: Result<D::K>)
        ensures
            r == Self::spec_key_from_bytes(input_bytes@, encoding),
    ;
}

} // verus!
