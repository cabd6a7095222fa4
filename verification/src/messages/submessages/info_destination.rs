use crate::messages::wire::spec_guid_prefix;
use crate::messages::wire::spec_guid_prefix_bytes;
use crate::messages::wire::write_guid_prefix;
use crate::messages::wire::MessageError;
use crate::messages::wire::MessageResult;
use crate::messages::wire::WireReader;
use crate::serialization::byte_order::Endianness;
use crate::structure::guid::GuidPrefix;
use vstd::prelude::*;

verus! {

/// Names the participant that the submessages that follow are meant for.
#[derive(Debug, PartialEq, Eq, Structural, Clone, Copy, Hash)]
pub struct InfoDestination {
    pub guid_prefix: GuidPrefix,
}

/// What parsing the content of the submessage gives: the prefix in its
/// twelve bytes.
pub open spec fn spec_parse_info_destination(input: Seq<u8>) -> MessageResult<InfoDestination> {
    if input.len() < 12 {
        Err(MessageError::Truncated)
    } else {
        Ok(InfoDestination { guid_prefix: spec_guid_prefix(input.subrange(0, 12)) })
    }
}

impl InfoDestination {
    /// Parses the content of the submessage.
    pub fn read_from(input: &[u8]) -> (r: MessageResult<InfoDestination>)
        ensures
            r == spec_parse_info_destination(input@),
    {
        let mut reader = WireReader::new(input, Endianness::BigEndian);
        match reader.read_guid_prefix() {
            Ok(guid_prefix) => Ok(InfoDestination { guid_prefix }),
            Err(err) => Err(err),
        }
    }

    /// Appends the twelve bytes of the content.
    pub fn write_to(&self, out: &mut Vec<u8>)
        ensures
            final(out)@ == old(out)@ + spec_guid_prefix_bytes(self.guid_prefix),
    {
        write_guid_prefix(out, self.guid_prefix);
    }
}

} // verus!
