use crate::messages::submessages::ack_nack::AckNack;
use crate::messages::submessages::data::Data;
use crate::messages::submessages::gap::Gap;
use crate::messages::submessages::heartbeat::Heartbeat;
use crate::messages::submessages::info_destination::InfoDestination;
use crate::messages::submessages::info_reply::InfoReply;
use crate::messages::submessages::info_source::InfoSource;
use crate::messages::submessages::info_timestamp::InfoTimestamp;
use crate::messages::wire::MessageError;
use crate::messages::wire::MessageResult;
use crate::messages::wire::WireReader;
use crate::serialization::byte_order::spec_bytes;
use crate::serialization::byte_order::spec_value;
use crate::serialization::byte_order::write_u16;
use crate::serialization::byte_order::Endianness;
use vstd::prelude::*;

verus! {

/// Flag of every submessage: set where its numbers are little-endian.
pub const FLAG_ENDIANNESS: u8 = 0x01;

/// Flag of a data submessage: set where inline parameters are present.
pub const DATA_FLAG_INLINE_QOS: u8 = 0x02;

/// Flag of a data submessage: set where the payload is a value.
pub const DATA_FLAG_DATA: u8 = 0x04;

/// Flag of a data submessage: set where the payload is a key.
pub const DATA_FLAG_KEY: u8 = 0x08;

/// Flag of a heartbeat: set where no acknowledgement is asked for at once.
pub const HEARTBEAT_FLAG_FINAL: u8 = 0x02;

/// Flag of a heartbeat: set where the heartbeat only asserts liveliness.
pub const HEARTBEAT_FLAG_LIVELINESS: u8 = 0x04;

/// Flag of an acknowledgement: set where no heartbeat is asked for in
/// return.
pub const ACKNACK_FLAG_FINAL: u8 = 0x02;

/// Flag of an info-reply submessage: set where multicast locators follow.
pub const INFO_REPLY_FLAG_MULTICAST: u8 = 0x02;

/// Whether the flag with weight `mask`, a power of two, is set in `flags`.
pub open spec fn spec_flag_set(flags: u8, mask: u8) -> bool {
    (flags / mask) % 2 == 1
}

/// Whether the flag with weight `mask` is set in `flags`.
pub fn flag_set(flags: u8, mask: u8) -> (b: bool)
    requires
        mask > 0,
    ensures
        b == spec_flag_set(flags, mask),
{
    (flags / mask) % 2 == 1
}

/// The byte order that the flags of a submessage state.
pub open spec fn spec_endianness_flag(flags: u8) -> Endianness {
    if flags % 2 == 1 {
        Endianness::LittleEndian
    } else {
        Endianness::BigEndian
    }
}

/// The byte order that the flags of a submessage state. Each submessage
/// states its own.
pub fn endianness_flag(flags: u8) -> (e: Endianness)
    ensures
        e == spec_endianness_flag(flags),
{
    if flags % 2 == 1 {
        Endianness::LittleEndian
    } else {
        Endianness::BigEndian
    }
}

/// The kind of a submessage, as its number on the wire.
#[derive(Clone, Copy, Debug, PartialEq, Eq, Structural, Hash)]
pub struct SubmessageKind {
    pub value: u8,
}

pub const KIND_PAD: u8 = 0x01;

pub const KIND_ACKNACK: u8 = 0x06;

pub const KIND_HEARTBEAT: u8 = 0x07;

pub const KIND_GAP: u8 = 0x08;

pub const KIND_INFO_TS: u8 = 0x09;

pub const KIND_INFO_SRC: u8 = 0x0c;

pub const KIND_INFO_REPLY_IP4: u8 = 0x0d;

pub const KIND_INFO_DST: u8 = 0x0e;

pub const KIND_INFO_REPLY: u8 = 0x0f;

pub const KIND_DATA: u8 = 0x15;

pub const KIND_DATA_FRAG: u8 = 0x16;

/// Number of bytes of a submessage header.
pub const SUBMESSAGE_HEADER_LENGTH: usize = 4;

/// The four bytes in front of every submessage.
#[derive(Clone, Copy, Debug, PartialEq, Eq, Structural, Hash)]
pub struct SubmessageHeader {
    pub kind: SubmessageKind,
    pub flags: u8,
    pub content_length: u16,
}

/// What parsing the header of a submessage gives: kind, flags, and the
/// length of the content in the byte order that the flags state.
pub open spec fn spec_parse_submessage_header(input: Seq<u8>) -> MessageResult<SubmessageHeader> {
    if input.len() < 4 {
        Err(MessageError::Truncated)
    } else {
        Ok(
            SubmessageHeader {
                kind: SubmessageKind { value: input[0] },
                flags: input[1],
                content_length: spec_value(
                    input.subrange(2, 4),
                    spec_endianness_flag(input[1]),
                ) as u16,
            },
        )
    }
}

/// The four bytes of a submessage header on the wire.
pub open spec fn spec_submessage_header_bytes(h: SubmessageHeader) -> Seq<u8> {
    seq![h.kind.value, h.flags] + spec_bytes(
        h.content_length as nat,
        2,
        spec_endianness_flag(h.flags),
    )
}

impl SubmessageHeader {
    /// Parses the header of a submessage from the start of `input`.
    pub fn read_from(input: &[u8]) -> (r: MessageResult<SubmessageHeader>)
        ensures
            r == spec_parse_submessage_header(input@),
    {
        if input.len() < SUBMESSAGE_HEADER_LENGTH {
            return Err(MessageError::Truncated);
        }
        let kind = input[0];
        let flags = input[1];
        let mut reader = WireReader::new(
            vstd::slice::slice_subrange(input, 2, 4),
            endianness_flag(flags),
        );
        assert(input@.subrange(2, 4).subrange(0, 2) =~= input@.subrange(2, 4));
        match reader.read_u16() {
            Ok(content_length) => Ok(
                SubmessageHeader { kind: SubmessageKind { value: kind }, flags, content_length },
            ),
            Err(e) => Err(e),
        }
    }

    /// Appends the four bytes of the header.
    pub fn write_to(&self, out: &mut Vec<u8>)
        ensures
            final(out)@ == old(out)@ + spec_submessage_header_bytes(*self),
    {
        let ghost start = out@;
        out.push(self.kind.value);
        out.push(self.flags);
        write_u16(out, self.content_length, endianness_flag(self.flags));
        assert(out@ =~= start + spec_submessage_header_bytes(*self));
    }
}

/// A submessage that concerns a reader or a writer.
pub enum EntitySubmessage {
    AckNack(AckNack, u8),
    Data(Data, u8),
    Gap(Gap, u8),
    Heartbeat(Heartbeat, u8),
}

/// A submessage that changes how the submessages after it are read.
pub enum InterpreterSubmessage {
    InfoDestination(InfoDestination, u8),
    InfoReply(InfoReply, u8),
    InfoSource(InfoSource, u8),
    InfoTimestamp(InfoTimestamp, u8),
}

/// The content of a submessage.
pub enum SubmessageBody {
    Entity(EntitySubmessage),
    Interpreter(InterpreterSubmessage),
}

/// A submessage: its header and its content.
pub struct SubMessage {
    pub header: SubmessageHeader,
    pub body: SubmessageBody,
}

} // verus!
