use crate::messages::wire::MessageError;
use crate::messages::wire::MessageResult;
use crate::messages::wire::WireReader;
use vstd::prelude::*;

verus! {

/// A version of the protocol.
#[derive(Debug, PartialEq, Eq, Structural, Clone, Copy, Hash, PartialOrd, Ord)]
pub struct ProtocolVersion {
    pub major: u8,
    pub minor: u8,
}

impl ProtocolVersion {
    pub open spec fn spec_protocolversion_2_3() -> ProtocolVersion {
        ProtocolVersion { major: 2, minor: 3 }
    }

    /// The version that this implementation speaks.
    #[verifier::when_used_as_spec(spec_protocolversion_2_3)]
    pub fn protocolversion_2_3() -> (v: ProtocolVersion)
        ensures
            v == ProtocolVersion::spec_protocolversion_2_3(),
    {
        ProtocolVersion { major: 2, minor: 3 }
    }

    /// Whether messages of this version can be read: the major version is
    /// the one that this implementation speaks.
    pub open spec fn spec_supported(&self) -> bool {
        self.major == 2
    }

    /// Whether messages of this version can be read.
    #[verifier::when_used_as_spec(spec_supported)]
    pub fn supported(&self) -> (b: bool)
        ensures
            b == self.spec_supported(),
    {
        self.major == 2
    }

    /// Reads a version: two bytes.
    pub fn read_from(reader: &mut WireReader) -> (r: MessageResult<ProtocolVersion>)
        ensures
            final(reader).endianness() == old(reader).endianness(),
            match r {
                Ok(v) => {
                    &&& old(reader).remaining().len() >= 2
                    &&& v.major == old(reader).remaining()[0]
                    &&& v.minor == old(reader).remaining()[1]
                    &&& final(reader).remaining() == old(reader).remaining().skip(2)
                },
                Err(e) => {
                    &&& e == MessageError::Truncated
                    &&& old(reader).remaining().len() < 2
                    &&& final(reader).remaining() == old(reader).remaining()
                },
            },
    {
        match reader.read_bytes(2) {
            Ok(head) => Ok(ProtocolVersion { major: head[0], minor: head[1] }),
            Err(e) => Err(e),
        }
    }

    /// Appends the two bytes of the version.
    pub fn write_to(&self, out: &mut Vec<u8>)
        ensures
            final(out)@ == old(out)@ + seq![self.major, self.minor],
    {
        let ghost start = out@;
        out.push(self.major);
        out.push(self.minor);
        assert(out@ =~= start + seq![self.major, self.minor]);
    }
}

} // verus!
