use crate::messages::wire::MessageError;
use crate::messages::wire::MessageResult;
use crate::messages::wire::WireReader;
use crate::structure::parameter_id::ParameterId;
use crate::structure::parameter_id::PID_VENDOR_ID;
use vstd::prelude::*;

verus! {

/// The two bytes that name the vendor of an implementation.
#[derive(Debug, PartialEq, Eq, Structural, Clone, Copy, Hash)]
pub struct VendorId {
    pub first: u8,
    pub second: u8,
}

impl VendorId {
    pub open spec fn spec_vendor_unknown() -> VendorId {
        VendorId { first: 0, second: 0 }
    }

    /// The identifier of an unknown vendor.
    #[verifier::when_used_as_spec(spec_vendor_unknown)]
    pub fn vendor_unknown() -> (v: VendorId)
        ensures
            v == VendorId::spec_vendor_unknown(),
    {
        VendorId { first: 0, second: 0 }
    }

    pub open spec fn spec_this_implementation() -> VendorId {
        VendorId { first: 0x01, second: 0x12 }
    }

    /// The identifier of this implementation.
    #[verifier::when_used_as_spec(spec_this_implementation)]
    pub fn this_implementation() -> (v: VendorId)
        ensures
            v == VendorId::spec_this_implementation(),
    {
        VendorId { first: 0x01, second: 0x12 }
    }

    /// Least number of bytes that hold an identifier.
    pub fn minimum_bytes_needed() -> (n: usize)
        ensures
            n == 2,
    {
        2
    }

    /// Reads an identifier: two bytes.
    pub fn read_from(reader: &mut WireReader) -> (r: MessageResult<VendorId>)
        ensures
            final(reader).endianness() == old(reader).endianness(),
            match r {
                Ok(v) => {
                    &&& old(reader).remaining().len() >= 2
                    &&& v.first == old(reader).remaining()[0]
                    &&& v.second == old(reader).remaining()[1]
                    &&& final(reader).remaining() == old(reader).remaining().skip(2)
                },
                Err(e) => {
                    &&& e == MessageError::Truncated
                    &&& old(reader).remaining().len() < 2
                    &&& final(reader).remaining() == old(reader).remaining()
                },
            },
    {
        match reader.read_bytes(2) {
            Ok(head) => Ok(VendorId { first: head[0], second: head[1] }),
            Err(e) => Err(e),
        }
    }

    /// Appends the two bytes of the identifier.
    pub fn write_to(&self, out: &mut Vec<u8>)
        ensures
            final(out)@ == old(out)@ + seq![self.first, self.second],
    {
        let ghost start = out@;
        out.push(self.first);
        out.push(self.second);
        assert(out@ =~= start + seq![self.first, self.second]);
    }
}

impl Default for VendorId {
    fn default() -> (v: VendorId)
        ensures
            v == VendorId::spec_vendor_unknown(),
    {
        VendorId::vendor_unknown()
    }
}

/// A vendor identifier as a parameter of a parameter list.
#[derive(Debug, PartialEq, Eq, Structural, Clone, Copy, Hash)]
pub struct VendorIdData {
    pub parameter_id: ParameterId,
    pub parameter_length: u16,
    pub vendor_id: VendorId,
}

impl VendorIdData {
    /// The parameter that carries `vendor_id`: its tag, and four bytes of
    /// value.
    pub fn from(vendor_id: VendorId) -> (d: VendorIdData)
        ensures
            d.parameter_id.value == PID_VENDOR_ID,
            d.parameter_length == 4,
            d.vendor_id == vendor_id,
    {
        VendorIdData {
            parameter_id: ParameterId { value: PID_VENDOR_ID },
            parameter_length: 4,
            vendor_id,
        }
    }
}

} // verus!
