use crate::messages::protocol_id::ProtocolId;
use crate::messages::protocol_version::ProtocolVersion;
use crate::messages::vendor_id::VendorId;
use crate::messages::wire::spec_guid_prefix;
use crate::messages::wire::spec_guid_prefix_bytes;
use crate::messages::wire::write_guid_prefix;
use crate::messages::wire::MessageError;
use crate::messages::wire::MessageResult;
use crate::messages::wire::WireReader;
use crate::structure::guid::GuidPrefix;
use vstd::prelude::*;

verus! {

/// Number of bytes of a message header.
pub const HEADER_LENGTH: usize = 20;

/// The start of every message: the version of the protocol, the vendor of
/// the sender and the prefix of the sending participant. The name of the
/// protocol precedes them on the wire.
#[derive(Debug, PartialEq, Eq, Structural, Clone, Copy, Hash)]
pub struct Header {
    pub protocol_version: ProtocolVersion,
    pub vendor_id: VendorId,
    pub guid_prefix: GuidPrefix,
}

/// The four bytes that name the protocol.
pub open spec fn spec_magic() -> Seq<u8> {
    seq![0x52u8, 0x54u8, 0x50u8, 0x53u8]
}

/// What parsing the start of a message gives: the header, where the input
/// holds twenty bytes that start with the name of the protocol and state a
/// supported version.
pub open spec fn spec_parse_header(input: Seq<u8>) -> MessageResult<Header> {
    if input.len() < 20 {
        Err(MessageError::Truncated)
    } else if input.subrange(0, 4) != spec_magic() {
        Err(MessageError::UnsupportedVersion)
    } else if input[4] != 2 {
        Err(MessageError::UnsupportedVersion)
    } else {
        Ok(
            Header {
                protocol_version: ProtocolVersion { major: input[4], minor: input[5] },
                vendor_id: VendorId { first: input[6], second: input[7] },
                guid_prefix: spec_guid_prefix(input.subrange(8, 20)),
            },
        )
    }
}

/// The twenty bytes of a header on the wire.
pub open spec fn spec_header_bytes(h: Header) -> Seq<u8> {
    spec_magic() + seq![h.protocol_version.major, h.protocol_version.minor] + seq![
        h.vendor_id.first,
        h.vendor_id.second,
    ] + spec_guid_prefix_bytes(h.guid_prefix)
}

impl Header {
    /// Parses the header at the start of a message. On success the reader
    /// stands behind the header; on failure it has read nothing.
    pub fn read_from(reader: &mut WireReader) -> (r: MessageResult<Header>)
        ensures
            final(reader).endianness() == old(reader).endianness(),
            r == spec_parse_header(old(reader).remaining()),
            r is Ok ==> final(reader).remaining() == old(reader).remaining().skip(20),
            r is Err ==> final(reader).remaining() == old(reader).remaining(),
    {
        if reader.remaining_len() < HEADER_LENGTH {
            return Err(MessageError::Truncated);
        }
        let all = reader.rest();
        let ghost input = reader.remaining();
        let magic_ok = all[0] == 0x52 && all[1] == 0x54 && all[2] == 0x50 && all[3] == 0x53;
        proof {
            if magic_ok {
                assert(input.subrange(0, 4) =~= spec_magic());
            } else {
                assert(spec_magic()[0] == 0x52u8);
                assert(spec_magic()[1] == 0x54u8);
                assert(spec_magic()[2] == 0x50u8);
                assert(spec_magic()[3] == 0x53u8);
                assert(input.subrange(0, 4)[0] == input[0]);
                assert(input.subrange(0, 4)[1] == input[1]);
                assert(input.subrange(0, 4)[2] == input[2]);
                assert(input.subrange(0, 4)[3] == input[3]);
            }
        }
        if !magic_ok {
            return Err(MessageError::UnsupportedVersion);
        }
        if all[4] != 2 {
            return Err(MessageError::UnsupportedVersion);
        }
        let _magic = reader.read_bytes(4);
        let version = ProtocolVersion::read_from(reader);
        let vendor = VendorId::read_from(reader);
        let prefix = reader.read_guid_prefix();
        proof {
            assert(input.skip(4).skip(2).skip(2).subrange(0, 12) =~= input.subrange(8, 20));
            assert(input.skip(4).skip(2).skip(2).skip(12) =~= input.skip(20));
        }
        match (version, vendor, prefix) {
            (Ok(protocol_version), Ok(vendor_id), Ok(guid_prefix)) => Ok(
                Header { protocol_version, vendor_id, guid_prefix },
            ),
            _ => Err(MessageError::Truncated),
        }
    }

    /// Appends the twenty bytes of the header.
    pub fn write_to(&self, out: &mut Vec<u8>)
        ensures
            final(out)@ == old(out)@ + spec_header_bytes(*self),
    {
        let ghost start = out@;
        ProtocolId::protocol_rtps().write_to(out);
        self.protocol_version.write_to(out);
        self.vendor_id.write_to(out);
        write_guid_prefix(out, self.guid_prefix);
        proof {
            assert(crate::messages::protocol_id::spec_protocol_rtps()[0] == 'R');
            assert(crate::messages::protocol_id::spec_protocol_rtps()[1] == 'T');
            assert(crate::messages::protocol_id::spec_protocol_rtps()[2] == 'P');
            assert(crate::messages::protocol_id::spec_protocol_rtps()[3] == 'S');
            assert(out@ =~= start + spec_header_bytes(*self));
        }
    }
}

} // verus!
