use crate::messages::protocol_version::ProtocolVersion;
use crate::messages::vendor_id::VendorId;
use crate::messages::wire::spec_guid_prefix;
use crate::messages::wire::spec_guid_prefix_bytes;
use crate::messages::wire::write_guid_prefix;
use crate::messages::wire::MessageError;
use crate::messages::wire::MessageResult;
use crate::messages::wire::WireReader;
use crate::serialization::byte_order::write_zeros;
use crate::serialization::byte_order::spec_zeros;
use crate::serialization::byte_order::Endianness;
use crate::structure::guid::GuidPrefix;
use vstd::prelude::*;

verus! {

/// Number of bytes of the content of the submessage.
pub const INFO_SOURCE_LENGTH: usize = 20;

/// Names the participant that the submessages that follow come from,
/// where it is not the sender of the message.
#[derive(Debug, PartialEq, Eq, Structural, Clone, Copy, Hash)]
pub struct InfoSource {
    pub protocol_version: ProtocolVersion,
    pub vendor_id: VendorId,
    pub guid_prefix: GuidPrefix,
}

/// What parsing the content of the submessage gives. Four bytes that are
/// not used come first, then version, vendor and prefix.
pub open spec fn spec_parse_info_source(input: Seq<u8>) -> MessageResult<InfoSource> {
    if input.len() < 20 {
        Err(MessageError::Truncated)
    } else {
        Ok(
            InfoSource {
                protocol_version: ProtocolVersion { major: input[4], minor: input[5] },
                vendor_id: VendorId { first: input[6], second: input[7] },
                guid_prefix: spec_guid_prefix(input.subrange(8, 20)),
            },
        )
    }
}

/// The twenty bytes of the content.
pub open spec fn spec_info_source_bytes(info: InfoSource) -> Seq<u8> {
    spec_zeros(4) + seq![info.protocol_version.major, info.protocol_version.minor] + seq![
        info.vendor_id.first,
        info.vendor_id.second,
    ] + spec_guid_prefix_bytes(info.guid_prefix)
}

impl InfoSource {
    /// Parses the content of the submessage.
    pub fn read_from(input: &[u8]) -> (r: MessageResult<InfoSource>)
        ensures
            r == spec_parse_info_source(input@),
    {
        if input.len() < INFO_SOURCE_LENGTH {
            return Err(MessageError::Truncated);
        }
        let mut reader = WireReader::new(input, Endianness::BigEndian);
        let unused = reader.read_bytes(4);
        let protocol_version = ProtocolVersion::read_from(&mut reader);
        let vendor_id = VendorId::read_from(&mut reader);
        let guid_prefix = reader.read_guid_prefix();
        assert(input@.skip(4).skip(2).skip(2).subrange(0, 12) =~= input@.subrange(8, 20));
        match (unused, protocol_version, vendor_id, guid_prefix) {
            (Ok(_), Ok(protocol_version), Ok(vendor_id), Ok(guid_prefix)) => Ok(
                InfoSource { protocol_version, vendor_id, guid_prefix },
            ),
            _ => Err(MessageError::Truncated),
        }
    }

    /// Appends the twenty bytes of the content.
    pub fn write_to(&self, out: &mut Vec<u8>)
        ensures
            final(out)@ == old(out)@ + spec_info_source_bytes(*self),
    {
        let ghost start = out@;
        write_zeros(out, 4);
        self.protocol_version.write_to(out);
        self.vendor_id.write_to(out);
        write_guid_prefix(out, self.guid_prefix);
        assert(out@ =~= start + spec_info_source_bytes(*self));
    }
}

} // verus!
