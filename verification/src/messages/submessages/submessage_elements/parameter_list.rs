use crate::messages::submessages::submessage_elements::parameter::spec_parameter_bytes;
use crate::messages::submessages::submessage_elements::parameter::Parameter;
use crate::messages::wire::MessageError;
use crate::messages::wire::MessageResult;
use crate::messages::wire::WireReader;
use crate::serialization::byte_order::spec_bytes;
use crate::serialization::byte_order::spec_value;
use crate::serialization::byte_order::write_u16;
use crate::serialization::byte_order::Endianness;
use crate::structure::parameter_id::PID_SENTINEL;
use vstd::prelude::*;

verus! {

/// A list of parameters. On the wire a sentinel ends it.
#[derive(Debug, PartialEq, Eq, Clone)]
pub struct ParameterList {
    pub parameters: Vec<Parameter>,
}

/// The parameters as tags and values.
pub open spec fn spec_parameters_view(v: Seq<Parameter>) -> Seq<(u16, Seq<u8>)> {
    Seq::new(v.len(), |i: int| (v[i].parameter_id.value, v[i].value@))
}

/// A parsed list with `prefix` put in front of it and `consumed` added to
/// the number of bytes read.
pub open spec fn spec_prepend_parameters(
    prefix: Seq<(u16, Seq<u8>)>,
    consumed: nat,
    r: MessageResult<(Seq<(u16, Seq<u8>)>, nat)>,
) -> MessageResult<(Seq<(u16, Seq<u8>)>, nat)> {
    match r {
        Ok((s, n)) => Ok((prefix + s, consumed + n)),
        Err(e) => Err(e),
    }
}

/// What parsing a parameter list gives: the parameters before the
/// sentinel, and the number of bytes read, the sentinel included. The
/// length of each parameter is a multiple of four.
pub open spec fn spec_parse_parameter_list(input: Seq<u8>, e: Endianness) -> MessageResult<
    (Seq<(u16, Seq<u8>)>, nat),
>
    decreases input.len(),
{
    if input.len() < 4 {
        Err(MessageError::Truncated)
    } else {
        let pid = spec_value(input.subrange(0, 2), e) as u16;
        let length = spec_value(input.subrange(2, 4), e);
        if pid == PID_SENTINEL {
            Ok((Seq::empty(), 4nat))
        } else if 4 + length > input.len() {
            Err(MessageError::Truncated)
        } else if length % 4 != 0 {
            Err(MessageError::MalformedSubmessage)
        } else {
            spec_prepend_parameters(
                seq![(pid, input.subrange(4, 4 + length as int))],
                4 + length,
                spec_parse_parameter_list(input.skip(4 + length as int), e),
            )
        }
    }
}

/// The bytes of the sentinel that ends a parameter list.
pub open spec fn spec_sentinel_bytes(e: Endianness) -> Seq<u8> {
    spec_bytes(PID_SENTINEL as nat, 2, e) + spec_bytes(0, 2, e)
}

/// The bytes of parameters on the wire, without a sentinel.
pub open spec fn spec_parameters_bytes(params: Seq<(u16, Seq<u8>)>, e: Endianness) -> Seq<u8>
    decreases params.len(),
{
    if params.len() == 0 {
        Seq::empty()
    } else {
        spec_parameters_bytes(params.drop_last(), e) + spec_parameter_bytes(
            params.last().0,
            params.last().1,
            e,
        )
    }
}

impl ParameterList {
    /// The parameters as tags and values.
    pub open spec fn spec_view(&self) -> Seq<(u16, Seq<u8>)> {
        spec_parameters_view(self.parameters@)
    }

    /// A list without parameters.
    pub fn new() -> (l: ParameterList)
        ensures
            l.spec_view() == Seq::<(u16, Seq<u8>)>::empty(),
    {
        let l = ParameterList { parameters: Vec::new() };
        assert(l.spec_view() =~= Seq::<(u16, Seq<u8>)>::empty());
        l
    }

    /// Appends the bytes of the parameters and of the sentinel. Each
    /// padded value has to fit the 16-bit length field.
    pub fn write_to(&self, out: &mut Vec<u8>, e: Endianness)
        requires
            forall|i: int|
                0 <= i < self.parameters@.len() ==> (#[trigger] self.parameters@[i]).value@.len()
                    + 3 <= u16::MAX,
        ensures
            final(out)@ == old(out)@ + spec_parameters_bytes(self.spec_view(), e)
                + spec_sentinel_bytes(e),
    {
        let ghost start = out@;
        let ghost view = self.spec_view();
        let mut i: usize = 0;
        while i < self.parameters.len()
            invariant
                i <= self.parameters.len(),
                view == self.spec_view(),
                forall|k: int|
                    0 <= k < self.parameters@.len() ==> (
                    #[trigger] self.parameters@[k]).value@.len() + 3 <= u16::MAX,
                out@ == start + spec_parameters_bytes(view.subrange(0, i as int), e),
            decreases self.parameters.len() - i,
        {
            self.parameters[i].write_to(out, e);
            proof {
                let next = view.subrange(0, i as int + 1);
                assert(next.drop_last() =~= view.subrange(0, i as int));
                assert(next.last() == view[i as int]);
                assert(out@ =~= start + spec_parameters_bytes(next, e));
            }
            i += 1;
        }
        proof {
            assert(view.subrange(0, view.len() as int) =~= view);
        }
        write_u16(out, PID_SENTINEL, e);
        write_u16(out, 0, e);
        assert(out@ =~= start + spec_parameters_bytes(view, e) + spec_sentinel_bytes(e));
    }

    /// Parses a parameter list up to and including its sentinel. On
    /// success the reader stands behind the sentinel.
    pub fn read_from(reader: &mut WireReader) -> (r: MessageResult<ParameterList>)
        ensures
            final(reader).endianness() == old(reader).endianness(),
            match r {
                Ok(l) => spec_parse_parameter_list(
                    old(reader).remaining(),
                    old(reader).endianness(),
                ) matches Ok((params, n)) && l.spec_view() == params && n <= old(
                    reader,
                ).remaining().len() && final(reader).remaining() == old(reader).remaining().skip(
                    n as int,
                ),
                Err(e) => spec_parse_parameter_list(
                    old(reader).remaining(),
                    old(reader).endianness(),
                ) == Err::<(Seq<(u16, Seq<u8>)>, nat), MessageError>(e),
            },
    {
        let ghost input = reader.remaining();
        let ghost e = reader.endianness();
        let ghost mut consumed: nat = 0;
        let mut parameters: Vec<Parameter> = Vec::new();
        assert(input.skip(0) =~= input);
        assert(spec_parameters_view(parameters@) =~= Seq::<(u16, Seq<u8>)>::empty());
        loop
            invariant
                input == old(reader).remaining(),
                e == old(reader).endianness(),
                reader.endianness() == e,
                consumed <= input.len(),
                reader.remaining() == input.skip(consumed as int),
                spec_parse_parameter_list(input, e) == spec_prepend_parameters(
                    spec_parameters_view(parameters@),
                    consumed,
                    spec_parse_parameter_list(input.skip(consumed as int), e),
                ),
            decreases input.len() - consumed,
        {
            let ghost rem = reader.remaining();
            let ghost before = spec_parameters_view(parameters@);
            let all = reader.rest();
            if all.len() < 4 {
                return Err(MessageError::Truncated);
            }
            let mut head = WireReader::new(all, reader.byte_order());
            let pid = match head.read_u16() {
                Ok(pid) => pid,
                Err(err) => {
                    return Err(err);
                },
            };
            if pid == PID_SENTINEL {
                let _skipped = reader.read_bytes(4);
                proof {
                    assert(before + Seq::<(u16, Seq<u8>)>::empty() =~= before);
                    assert(input.skip(consumed as int).skip(4) =~= input.skip(consumed as int + 4));
                }
                return Ok(ParameterList { parameters });
            }
            match Parameter::read_from(reader) {
                Err(err) => {
                    return Err(err);
                },
                Ok(p) => {
                    let length = p.value.len();
                    if length % 4 != 0 {
                        return Err(MessageError::MalformedSubmessage);
                    }
                    proof {
                        let step = (4 + length) as nat;
                        let rest = spec_parse_parameter_list(rem.skip(step as int), e);
                        assert(rem.skip(step as int) =~= input.skip((consumed + step) as int));
                        let item = seq![(p.parameter_id.value, p.value@)];
                        assert(spec_parameters_view(parameters@.push(p)) =~= before + item);
                        match rest {
                            Ok((s, n)) => {
                                assert((before + item) + s =~= before + (item + s));
                            },
                            Err(_) => {},
                        }
                        consumed = consumed + step;
                    }
                    parameters.push(p);
                },
            }
        }
    }
}

} // verus!
