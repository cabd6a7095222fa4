use crate::messages::wire::MessageError;
use crate::messages::wire::MessageResult;
use crate::messages::wire::WireReader;
use vstd::prelude::*;

verus! {

/// The four characters at the start of every message.
#[derive(Debug, Copy, Clone, PartialOrd, PartialEq, Ord, Eq)]
pub struct ProtocolId {
    pub protocol_id: [char; 4],
}

/// The four characters that name the protocol.
pub open spec fn spec_protocol_rtps() -> Seq<char> {
    seq!['R', 'T', 'P', 'S']
}

impl ProtocolId {
    /// The identifier of this protocol.
    pub fn protocol_rtps() -> (p: ProtocolId)
        ensures
            p.protocol_id@ == spec_protocol_rtps(),
    {
        let p = ProtocolId { protocol_id: ['R', 'T', 'P', 'S'] };
        assert(p.protocol_id@ =~= spec_protocol_rtps());
        p
    }

    /// The identifier made of the four characters.
    pub fn new(protocol_id: [char; 4]) -> (p: ProtocolId)
        ensures
            p.protocol_id == protocol_id,
    {
        ProtocolId { protocol_id }
    }

    /// Whether the identifier names this protocol.
    pub fn valid(&self) -> (b: bool)
        ensures
            b == (self.protocol_id@ == spec_protocol_rtps()),
    {
        let b = self.protocol_id[0] == 'R' && self.protocol_id[1] == 'T' && self.protocol_id[2]
            == 'P' && self.protocol_id[3] == 'S';
        proof {
            if b {
                assert(self.protocol_id@ =~= spec_protocol_rtps());
            } else {
                assert(spec_protocol_rtps()[0] == 'R');
                assert(spec_protocol_rtps()[1] == 'T');
                assert(spec_protocol_rtps()[2] == 'P');
                assert(spec_protocol_rtps()[3] == 'S');
            }
        }
        b
    }

    /// Least number of bytes that hold an identifier.
    pub fn minimum_bytes_needed() -> (n: usize)
        ensures
            n == 4,
    {
        4
    }

    /// Reads an identifier: four bytes, each taken as the character with
    /// that number.
    pub fn read_from(reader: &mut WireReader) -> (r: MessageResult<ProtocolId>)
        ensures
            final(reader).endianness() == old(reader).endianness(),
            match r {
                Ok(p) => {
                    &&& old(reader).remaining().len() >= 4
                    &&& final(reader).remaining() == old(reader).remaining().skip(4)
                    &&& forall|i: int|
                        0 <= i < 4 ==> (#[trigger] p.protocol_id@[i]) as u32 == old(reader).remaining()[i] as u32
                },
                Err(e) => {
                    &&& e == MessageError::Truncated
                    &&& old(reader).remaining().len() < 4
                    &&& final(reader).remaining() == old(reader).remaining()
                },
            },
    {
        match reader.read_bytes(4) {
            Ok(head) => Ok(
                ProtocolId {
                    protocol_id: [
                        head[0] as char,
                        head[1] as char,
                        head[2] as char,
                        head[3] as char,
                    ],
                },
            ),
            Err(e) => Err(e),
        }
    }

    /// The byte that stands for a character on the wire: the low byte of
    /// its number.
    pub open spec fn spec_char_byte(c: char) -> u8 {
        (c as u32 % 256) as u8
    }

    /// Appends the four bytes of the identifier.
    pub fn write_to(&self, out: &mut Vec<u8>)
        ensures
            final(out)@ == old(out)@ + seq![
                ProtocolId::spec_char_byte(self.protocol_id@[0]),
                ProtocolId::spec_char_byte(self.protocol_id@[1]),
                ProtocolId::spec_char_byte(self.protocol_id@[2]),
                ProtocolId::spec_char_byte(self.protocol_id@[3]),
            ],
    {
        let ghost start = out@;
        let mut i: usize = 0;
        while i < 4
            invariant
                i <= 4,
                out@.len() == start.len() + i,
                forall|k: int| 0 <= k < start.len() ==> out@[k] == start[k],
                forall|k: int|
                    0 <= k < i ==> out@[start.len() + k] == ProtocolId::spec_char_byte(
                        self.protocol_id@[k],
                    ),
            decreases 4 - i,
        {
            let c: u32 = self.protocol_id[i] as u32;
            out.push((c % 256) as u8);
            i += 1;
        }
        assert(out@ =~= start + seq![
            ProtocolId::spec_char_byte(self.protocol_id@[0]),
            ProtocolId::spec_char_byte(self.protocol_id@[1]),
            ProtocolId::spec_char_byte(self.protocol_id@[2]),
            ProtocolId::spec_char_byte(self.protocol_id@[3]),
        ]);
    }
}

impl Default for ProtocolId {
    fn default() -> (p: ProtocolId)
        ensures
            p.protocol_id@ == spec_protocol_rtps(),
    {
        ProtocolId::protocol_rtps()
    }
}

} // verus!
