use crate::messages::submessages::submessage::flag_set;
use crate::messages::submessages::submessage::spec_flag_set;
use crate::messages::submessages::submessage::INFO_REPLY_FLAG_MULTICAST;
use crate::messages::wire::MessageError;
use crate::messages::wire::MessageResult;
use crate::messages::wire::WireReader;
use crate::serialization::builtin_data_encoding::put_locator;
use crate::serialization::builtin_data_encoding::spec_locator_value;
use crate::serialization::byte_order::read_u64;
use crate::serialization::byte_order::spec_bytes;
use crate::serialization::byte_order::spec_signed;
use crate::serialization::byte_order::spec_value;
use crate::serialization::byte_order::write_u32;
use crate::serialization::byte_order::Endianness;
use crate::structure::locator::Locator;
use crate::structure::locator::LocatorList;
use vstd::prelude::*;

verus! {

/// Number of bytes of a locator on the wire.
pub const LOCATOR_LENGTH: usize = 24;

/// Sent by a reader to tell a writer where to send its replies to the
/// submessages that follow.
#[derive(Debug, PartialEq, Eq, Clone)]
pub struct InfoReply {
    /// Unicast addresses at which the reader can be reached.
    pub unicast_locator_list: LocatorList,
    /// Multicast addresses at which the reader can be reached; present
    /// where the multicast flag is set.
    pub multicast_locator_list: Option<LocatorList>,
}

/// The locator whose 24 bytes on the wire are `s`: kind and port in the
/// byte order `e`, and the sixteen bytes of the address.
pub open spec fn spec_parse_locator(s: Seq<u8>, e: Endianness) -> Locator {
    Locator {
        kind: spec_signed(spec_value(s.subrange(0, 4), e), 4) as i32,
        port: spec_value(s.subrange(4, 8), e) as u32,
        address: (spec_value(s.subrange(8, 16), Endianness::BigEndian)
            * 0x1_0000_0000_0000_0000 + spec_value(
            s.subrange(16, 24),
            Endianness::BigEndian,
        )) as u128,
    }
}

/// What parsing a list of locators from the start of `input` gives: the
/// locators, and the number of bytes that the list takes. The list starts
/// with the number of its locators.
pub open spec fn spec_parse_locators(input: Seq<u8>, e: Endianness) -> MessageResult<
    (Seq<Locator>, int),
> {
    if input.len() < 4 {
        Err(MessageError::Truncated)
    } else {
        let count = spec_value(input.subrange(0, 4), e);
        if input.len() < 4 + 24 * count {
            Err(MessageError::Truncated)
        } else {
            Ok(
                (
                    Seq::new(
                        count,
                        |i: int| spec_parse_locator(input.subrange(4 + 24 * i, 28 + 24 * i), e),
                    ),
                    (4 + 24 * count) as int,
                ),
            )
        }
    }
}

/// The bytes of the first `n` locators of a list.
pub open spec fn spec_locators_bytes(list: Seq<Locator>, n: int, e: Endianness) -> Seq<u8>
    decreases n,
{
    if n <= 0 {
        Seq::empty()
    } else {
        spec_locators_bytes(list, n - 1, e) + spec_locator_value(list[n - 1], e)
    }
}

/// The bytes of a list of locators on the wire.
pub open spec fn spec_locator_list_bytes(list: Seq<Locator>, e: Endianness) -> Seq<u8> {
    spec_bytes(list.len(), 4, e) + spec_locators_bytes(list, list.len() as int, e)
}

/// What parsing the content of the submessage gives: the unicast list,
/// and the multicast list where the flags announce it.
pub open spec fn spec_parse_info_reply(input: Seq<u8>, flags: u8, e: Endianness) -> MessageResult<
    (Seq<Locator>, Option<Seq<Locator>>),
> {
    match spec_parse_locators(input, e) {
        Err(err) => Err(err),
        Ok((unicast, used)) => {
            if spec_flag_set(flags, INFO_REPLY_FLAG_MULTICAST) {
                match spec_parse_locators(input.skip(used), e) {
                    Err(err) => Err(err),
                    Ok((multicast, _)) => Ok((unicast, Some(multicast))),
                }
            } else {
                Ok((unicast, None))
            }
        },
    }
}

/// Reads a locator: 24 bytes.
pub fn read_locator(reader: &mut WireReader) -> (r: MessageResult<Locator>)
    ensures
        final(reader).endianness() == old(reader).endianness(),
        match r {
            Ok(l) => {
                &&& old(reader).remaining().len() >= 24
                &&& l == spec_parse_locator(
                    old(reader).remaining().subrange(0, 24),
                    old(reader).endianness(),
                )
                &&& final(reader).remaining() == old(reader).remaining().skip(24)
            },
            Err(e) => {
                &&& e == MessageError::Truncated
                &&& old(reader).remaining().len() < 24
                &&& final(reader).remaining() == old(reader).remaining()
            },
        },
{
    let ghost input = reader.remaining();
    if reader.remaining_len() < LOCATOR_LENGTH {
        return Err(MessageError::Truncated);
    }
    let kind = reader.read_i32();
    let port = reader.read_u32();
    let address = reader.read_bytes(16);
    proof {
        assert(input.subrange(0, 4) =~= input.subrange(0, 24).subrange(0, 4));
        assert(input.skip(4).subrange(0, 4) =~= input.subrange(0, 24).subrange(4, 8));
        assert(input.skip(4).skip(4).subrange(0, 16).subrange(0, 8) =~= input.subrange(
            0,
            24,
        ).subrange(8, 16));
        assert(input.skip(4).skip(4).subrange(0, 16).subrange(8, 16) =~= input.subrange(
            0,
            24,
        ).subrange(16, 24));
        assert(input.skip(4).skip(4).skip(16) =~= input.skip(24));
    }
    match (kind, port, address) {
        (Ok(kind), Ok(port), Ok(address)) => {
            let first = vstd::slice::slice_subrange(address, 0, 8);
            let second = vstd::slice::slice_subrange(address, 8, 16);
            assert(first@.subrange(0, 8) =~= first@);
            assert(second@.subrange(0, 8) =~= second@);
            let high: u64 = read_u64(first, Endianness::BigEndian);
            let low: u64 = read_u64(second, Endianness::BigEndian);
            Ok(
                Locator {
                    kind,
                    port,
                    address: (high as u128) * 0x1_0000_0000_0000_0000u128 + (low as u128),
                },
            )
        },
        _ => Err(MessageError::Truncated),
    }
}

/// Reads a list of locators: their number, then 24 bytes for each.
pub fn read_locators(reader: &mut WireReader) -> (r: MessageResult<LocatorList>)
    ensures
        final(reader).endianness() == old(reader).endianness(),
        match spec_parse_locators(old(reader).remaining(), old(reader).endianness()) {
            Ok((list, used)) => {
                &&& r matches Ok(l) && l@ == list
                &&& final(reader).remaining() == old(reader).remaining().skip(used)
            },
            Err(e) => r == Err::<LocatorList, MessageError>(e),
        },
{
    let ghost input = reader.remaining();
    let ghost e = reader.endianness();
    let count = match reader.read_u32() {
        Ok(count) => count,
        Err(err) => {
            return Err(err);
        },
    };
    if (reader.remaining_len() as u64) < 24 * (count as u64) {
        return Err(MessageError::Truncated);
    }
    let mut list: Vec<Locator> = Vec::new();
    let mut i: u32 = 0;
    while i < count
        invariant
            i <= count,
            input.len() >= 4 + 24 * count,
            reader.endianness() == e,
            reader.remaining() == input.skip(4 + 24 * i),
            list@.len() == i,
            forall|k: int|
                0 <= k < i ==> #[trigger] list@[k] == spec_parse_locator(
                    input.subrange(4 + 24 * k, 28 + 24 * k),
                    e,
                ),
        decreases count - i,
    {
        let locator = match read_locator(reader) {
            Ok(locator) => locator,
            Err(err) => {
                return Err(err);
            },
        };
        proof {
            assert(input.skip(4 + 24 * i).subrange(0, 24) =~= input.subrange(
                4 + 24 * i,
                28 + 24 * i,
            ));
            assert(input.skip(4 + 24 * i).skip(24) =~= input.skip(4 + 24 * (i + 1)));
        }
        list.push(locator);
        i += 1;
    }
    assert(list@ =~= spec_parse_locators(input, e)->Ok_0.0);
    Ok(list)
}

/// Appends the bytes of a list of locators. A list too long for its
/// 32-bit count is not written, and `false` returned.
pub fn write_locators(out: &mut Vec<u8>, list: &LocatorList, e: Endianness) -> (written: bool)
    ensures
        written == (list@.len() <= u32::MAX),
        written ==> final(out)@ == old(out)@ + spec_locator_list_bytes(list@, e),
        !written ==> final(out)@ == old(out)@,
{
    let ghost start = out@;
    if list.len() > u32::MAX as usize {
        return false;
    }
    write_u32(out, list.len() as u32, e);
    let mut i: usize = 0;
    while i < list.len()
        invariant
            i <= list@.len(),
            out@ == start + spec_bytes(list@.len(), 4, e) + spec_locators_bytes(list@, i as int, e),
        decreases list@.len() - i,
    {
        put_locator(out, list[i], e);
        assert(out@ =~= start + spec_bytes(list@.len(), 4, e) + spec_locators_bytes(
            list@,
            i + 1,
            e,
        ));
        i += 1;
    }
    assert(out@ =~= start + spec_locator_list_bytes(list@, e));
    true
}

impl InfoReply {
    /// Whether the submessage is to carry the multicast flag.
    pub fn has_multicast(&self) -> (b: bool)
        ensures
            b == self.multicast_locator_list is Some,
    {
        self.multicast_locator_list.is_some()
    }

    /// Parses the content of the submessage under the given flags.
    pub fn read_from(input: &[u8], flags: u8, e: Endianness) -> (r: MessageResult<InfoReply>)
        ensures
            match spec_parse_info_reply(input@, flags, e) {
                Ok((unicast, multicast)) => {
                    &&& r matches Ok(info) && info.unicast_locator_list@ == unicast
                    &&& match multicast {
                        Some(list) => r->Ok_0.multicast_locator_list matches Some(l) && l@ == list,
                        None => r->Ok_0.multicast_locator_list is None,
                    }
                },
                Err(err) => r == Err::<InfoReply, MessageError>(err),
            },
    {
        let mut reader = WireReader::new(input, e);
        let unicast_locator_list = match read_locators(&mut reader) {
            Ok(list) => list,
            Err(err) => {
                return Err(err);
            },
        };
        if flag_set(flags, INFO_REPLY_FLAG_MULTICAST) {
            match read_locators(&mut reader) {
                Ok(list) => Ok(
                    InfoReply { unicast_locator_list, multicast_locator_list: Some(list) },
                ),
                Err(err) => Err(err),
            }
        } else {
            Ok(InfoReply { unicast_locator_list, multicast_locator_list: None })
        }
    }

    /// Appends the bytes of the content: the unicast list, and the
    /// multicast list where there is one. Nothing is written, and `false`
    /// returned, where a list is too long for its 32-bit count.
    pub fn write_to(&self, out: &mut Vec<u8>, e: Endianness) -> (written: bool)
        ensures
            written == (self.unicast_locator_list@.len() <= u32::MAX && (
            self.multicast_locator_list matches Some(list) ==> list@.len() <= u32::MAX)),
            !written ==> final(out)@ == old(out)@,
            written ==> final(out)@ == old(out)@ + spec_locator_list_bytes(
                self.unicast_locator_list@,
                e,
            ) + match self.multicast_locator_list {
                Some(list) => spec_locator_list_bytes(list@, e),
                None => Seq::empty(),
            },
    {
        let ghost start = out@;
        match &self.multicast_locator_list {
            Some(list) => {
                if list.len() > u32::MAX as usize {
                    return false;
                }
                if !write_locators(out, &self.unicast_locator_list, e) {
                    return false;
                }
                let done = write_locators(out, list, e);
                assert(done);
                true
            },
            None => {
                let done = write_locators(out, &self.unicast_locator_list, e);
                assert(done ==> out@ =~= start + spec_locator_list_bytes(
                    self.unicast_locator_list@,
                    e,
                ) + Seq::<u8>::empty());
                done
            },
        }
    }
}

} // verus!
