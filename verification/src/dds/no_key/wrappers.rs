use crate::dds::traits::key::Keyed;
use crate::dds::traits::serde_adapters::ByteSeq;
use crate::dds::traits::serde_adapters::DeserializerAdapter;
use crate::dds::traits::serde_adapters::EncodingSeq;
use crate::dds::traits::serde_adapters::KeyedDeserializerAdapter;
use crate::dds::traits::serde_adapters::KeyedSerializerAdapter;
use crate::dds::traits::serde_adapters::SerializerAdapter;
use crate::messages::submessages::submessage_elements::serialized_payload::RepresentationIdentifier;
use crate::serialization::error::Result;
use core::marker::PhantomData;
use vstd::prelude::*;

verus! {

/// Makes a value of a topic without keys fit where a keyed value is asked
/// for: all wrapped values belong to the one instance with the unit key.
pub struct NoKeyWrapper<D> {
    pub d: D,
}

impl<D> NoKeyWrapper<D> {
    /// The value inside.
    pub fn unwrap(self) -> (d: D)
        ensures
            d == self.d,
    {
        self.d
    }

    /// The wrapped value.
    pub fn from(d: D) -> (w: NoKeyWrapper<D>)
        ensures
            w.d == d,
    {
        NoKeyWrapper { d }
    }

    /// The value inside, by reference.
    pub fn deref(&self) -> (d: &D)
        ensures
            *d == self.d,
    {
        &self.d
    }
}

impl<D> Keyed for NoKeyWrapper<D> {
    type K = ();

    open spec fn spec_key(&self) -> () {
        ()
    }

    fn get_key(&self) -> (k: ()) {
        ()
    }
}

/// Makes a serializer of unkeyed values serve where keyed values are written.
pub struct SAWrapper<SA> {
    pub no_key: PhantomData<SA>,
}

impl<D, SA: SerializerAdapter<D>> SerializerAdapter<NoKeyWrapper<D>> for SAWrapper<SA> {
    fn output_encoding() -> (id: RepresentationIdentifier) {
        SA::output_encoding()
    }

    fn to_bytes(value: &NoKeyWrapper<D>) -> (r: Result<Vec<u8>>) {
        SA::to_bytes(&value.d)
    }

    /// The encoding of the adapter of the values.
    open spec fn spec_output_encoding() -> RepresentationIdentifier {
        SA::spec_output_encoding()
    }

    /// The bytes of the value inside.
    open spec fn spec_to_bytes(value: &NoKeyWrapper<D>) -> Result<ByteSeq> {
        SA::spec_to_bytes(&value.d)
    }
}

/// Makes a deserializer of unkeyed values serve where a deserializer of
/// keyed values is asked for.
pub struct DAWrapper<DA> {
    pub no_key: PhantomData<DA>,
}

impl<D, DA: DeserializerAdapter<D>> DeserializerAdapter<NoKeyWrapper<D>> for DAWrapper<DA> {
    fn supported_encodings() -> (ids: Vec<RepresentationIdentifier>) {
        DA::supported_encodings()
    }

    fn from_bytes(input_bytes: &[u8], encoding: RepresentationIdentifier) -> (r: Result<
        NoKeyWrapper<D>,
    >) {
        match DA::from_bytes(input_bytes, encoding) {
            Ok(d) => Ok(NoKeyWrapper { d }),
            Err(e) => Err(e),
        }
    }

    /// The encodings of the adapter of the values.
    open spec fn spec_supported_encodings() -> EncodingSeq {
        DA::spec_supported_encodings()
    }

    /// What the adapter of the values reads from the bytes, wrapped.
    open spec fn spec_from_bytes(input: ByteSeq, encoding: RepresentationIdentifier) -> Result<
        NoKeyWrapper<D>,
    > {
        match DA::spec_from_bytes(input, encoding) {
            Ok(d) => Ok(NoKeyWrapper { d }),
            Err(e) => Err(e),
        }
    }
}

impl<D, SA: SerializerAdapter<D>> KeyedSerializerAdapter<NoKeyWrapper<D>> for SAWrapper<SA> {
    /// The unit key has no bytes.
    fn key_to_bytes(key: &()) -> (r: Result<Vec<u8>>) {
        Ok(Vec::new())
    }

    /// The unit key has no bytes.
    open spec fn spec_key_to_bytes(key: &()) -> Result<ByteSeq> {
        Ok(Seq::empty())
    }
}

impl<D, DA: DeserializerAdapter<D>> KeyedDeserializerAdapter<NoKeyWrapper<D>> for DAWrapper<DA> {
    /// Whatever the bytes, the key is the unit key.
    fn key_from_bytes(input_bytes: &[u8], encoding: RepresentationIdentifier) -> (r: Result<()>) {
        Ok(())
    }

    /// Whatever the bytes, the key is the unit key.
    open spec fn spec_key_from_bytes(input: ByteSeq, encoding: RepresentationIdentifier) -> Result<()> {
        Ok(())
    }
}

} // verus!
