use crate::messages::submessages::submessage::flag_set;
use crate::messages::submessages::submessage::spec_flag_set;
use crate::messages::wire::MessageError;
use crate::messages::wire::MessageResult;
use crate::messages::wire::WireReader;
use crate::serialization::byte_order::spec_bytes;
use crate::serialization::byte_order::spec_value;
use crate::serialization::byte_order::write_u32;
use crate::serialization::byte_order::Endianness;
use crate::structure::time::Timestamp;
use vstd::prelude::*;

verus! {

/// Set where the submessage takes the source time away instead of
/// stating one.
pub const INFO_TIMESTAMP_FLAG_INVALIDATE: u8 = 0x02;

/// States the source time of the submessages that follow, or that they
/// have none.
#[derive(Debug, PartialEq, Eq, Structural, Clone, Copy, Hash)]
pub struct InfoTimestamp {
    pub timestamp: Option<Timestamp>,
}

/// What parsing the content of the submessage gives: no time where the
/// flags take it away, else the time in its eight bytes.
pub open spec fn spec_parse_info_timestamp(input: Seq<u8>, flags: u8, e: Endianness) -> MessageResult<
    InfoTimestamp,
> {
    if spec_flag_set(flags, INFO_TIMESTAMP_FLAG_INVALIDATE) {
        Ok(InfoTimestamp { timestamp: None })
    } else if input.len() < 8 {
        Err(MessageError::Truncated)
    } else {
        Ok(
            InfoTimestamp {
                timestamp: Some(
                    Timestamp {
                        seconds: spec_value(input.subrange(0, 4), e) as u32,
                        fraction: spec_value(input.subrange(4, 8), e) as u32,
                    },
                ),
            },
        )
    }
}

/// The bytes of the content: the eight bytes of the time, or none.
pub open spec fn spec_info_timestamp_bytes(info: InfoTimestamp, e: Endianness) -> Seq<u8> {
    match info.timestamp {
        Some(t) => spec_bytes(t.seconds as nat, 4, e) + spec_bytes(t.fraction as nat, 4, e),
        None => Seq::empty(),
    }
}

impl InfoTimestamp {
    /// Parses the content of the submessage under the given flags.
    pub fn read_from(input: &[u8], flags: u8, e: Endianness) -> (r: MessageResult<InfoTimestamp>)
        ensures
            r == spec_parse_info_timestamp(input@, flags, e),
    {
        if flag_set(flags, INFO_TIMESTAMP_FLAG_INVALIDATE) {
            return Ok(InfoTimestamp { timestamp: None });
        }
        if input.len() < 8 {
            return Err(MessageError::Truncated);
        }
        let mut reader = WireReader::new(input, e);
        let seconds = reader.read_u32();
        let fraction = reader.read_u32();
        assert(input@.skip(4).subrange(0, 4) =~= input@.subrange(4, 8));
        match (seconds, fraction) {
            (Ok(seconds), Ok(fraction)) => Ok(
                InfoTimestamp { timestamp: Some(Timestamp { seconds, fraction }) },
            ),
            _ => Err(MessageError::Truncated),
        }
    }

    /// Appends the bytes of the content.
    pub fn write_to(&self, out: &mut Vec<u8>, e: Endianness)
        ensures
            final(out)@ == old(out)@ + spec_info_timestamp_bytes(*self, e),
    {
        let ghost start = out@;
        match self.timestamp {
            Some(t) => {
                write_u32(out, t.seconds, e);
                write_u32(out, t.fraction, e);
            },
            None => {},
        }
        assert(out@ =~= start + spec_info_timestamp_bytes(*self, e));
    }
}

} // verus!
