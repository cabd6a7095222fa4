use crate::messages::header::spec_parse_header;
use crate::messages::header::Header;
use crate::messages::header::HEADER_LENGTH;
use crate::messages::submessages::ack_nack::spec_acknack_bytes;
use crate::messages::submessages::ack_nack::spec_parse_acknack;
use crate::messages::submessages::ack_nack::AckNack;
use crate::messages::submessages::ack_nack::AckNackView;
use crate::messages::submessages::data::spec_data_bytes;
use crate::messages::submessages::data::spec_parse_data;
use crate::messages::submessages::data::Data;
use crate::messages::submessages::data::DataView;
use crate::messages::submessages::gap::spec_gap_bytes;
use crate::messages::submessages::gap::spec_parse_gap;
use crate::messages::submessages::gap::Gap;
use crate::messages::submessages::gap::GapView;
use crate::messages::submessages::heartbeat::spec_heartbeat_bytes;
use crate::messages::submessages::heartbeat::spec_parse_heartbeat;
use crate::messages::submessages::heartbeat::Heartbeat;
use crate::messages::submessages::info_destination::spec_parse_info_destination;
use crate::messages::submessages::info_destination::InfoDestination;
use crate::messages::submessages::info_reply::spec_locator_list_bytes;
use crate::messages::submessages::info_reply::spec_parse_info_reply;
use crate::messages::submessages::info_reply::InfoReply;
use crate::messages::submessages::info_source::spec_info_source_bytes;
use crate::messages::submessages::info_source::spec_parse_info_source;
use crate::messages::submessages::info_source::InfoSource;
use crate::messages::submessages::info_timestamp::spec_info_timestamp_bytes;
use crate::messages::submessages::info_timestamp::spec_parse_info_timestamp;
use crate::messages::submessages::info_timestamp::InfoTimestamp;
use crate::messages::submessages::submessage::endianness_flag;
use crate::messages::submessages::submessage::spec_endianness_flag;
use crate::messages::submessages::submessage::spec_parse_submessage_header;
use crate::messages::submessages::submessage::spec_submessage_header_bytes;
use crate::messages::submessages::submessage::EntitySubmessage;
use crate::messages::submessages::submessage::InterpreterSubmessage;
use crate::messages::submessages::submessage::SubMessage;
use crate::messages::submessages::submessage::SubmessageBody;
use crate::messages::submessages::submessage::SubmessageHeader;
use crate::messages::submessages::submessage::SubmessageKind;
use crate::messages::submessages::submessage::KIND_ACKNACK;
use crate::messages::submessages::submessage::KIND_DATA;
use crate::messages::submessages::submessage::KIND_GAP;
use crate::messages::submessages::submessage::KIND_HEARTBEAT;
use crate::messages::submessages::submessage::KIND_INFO_DST;
use crate::messages::submessages::submessage::KIND_INFO_REPLY;
use crate::messages::submessages::submessage::KIND_INFO_SRC;
use crate::messages::submessages::submessage::KIND_INFO_TS;
use crate::messages::submessages::submessage_elements::serialized_payload::bytes_as_slice;
use crate::messages::submessages::submessage_elements::serialized_payload::bytes_content;
use crate::messages::submessages::submessage_elements::serialized_payload::bytes_slice;
use crate::messages::header::spec_header_bytes;
use crate::messages::wire::spec_guid_prefix_bytes;
use crate::messages::wire::MessageError;
use crate::messages::wire::MessageResult;
use crate::messages::wire::WireReader;
use crate::serialization::byte_order::write_bytes;
use crate::serialization::byte_order::Endianness;
use crate::structure::locator::Locator;
use vstd::prelude::*;

verus! {

/// A message: its header, and the submessages of the kinds that this
/// implementation reads, in their order.
pub struct Message {
    pub header: Header,
    pub submessages: Vec<SubMessage>,
}

/// A submessage as it stands in a message: its header, and the position
/// of its content.
pub type Frame = (SubmessageHeader, usize);

/// Whether submessages of the kind are read; those of other kinds are
/// passed over.
pub open spec fn spec_known_kind(kind: u8) -> bool {
    kind == KIND_ACKNACK || kind == KIND_HEARTBEAT || kind == KIND_GAP || kind == KIND_INFO_TS
        || kind == KIND_INFO_SRC || kind == KIND_INFO_DST || kind == KIND_INFO_REPLY || kind
        == KIND_DATA
}

/// The error of a result, if it is one.
pub open spec fn spec_failure<T>(r: MessageResult<T>) -> Option<MessageError> {
    match r {
        Ok(_) => None,
        Err(e) => Some(e),
    }
}

/// The error that parsing the content of a submessage gives, if it gives
/// one. Each submessage is parsed in the byte order that its own flags
/// state.
#[verifier::opaque]
pub open spec fn spec_body_failure(header: SubmessageHeader, content: Seq<u8>) -> Option<
    MessageError,
> {
    let e = spec_endianness_flag(header.flags);
    let kind = header.kind.value;
    if kind == KIND_DATA {
        spec_failure(spec_parse_data(content, header.flags))
    } else if kind == KIND_HEARTBEAT {
        spec_failure(spec_parse_heartbeat(content, e))
    } else if kind == KIND_ACKNACK {
        spec_failure(spec_parse_acknack(content, e))
    } else if kind == KIND_GAP {
        spec_failure(spec_parse_gap(content, e))
    } else if kind == KIND_INFO_DST {
        spec_failure(spec_parse_info_destination(content))
    } else if kind == KIND_INFO_SRC {
        spec_failure(spec_parse_info_source(content))
    } else if kind == KIND_INFO_TS {
        spec_failure(spec_parse_info_timestamp(content, header.flags, e))
    } else if kind == KIND_INFO_REPLY {
        spec_failure(spec_parse_info_reply(content, header.flags, e))
    } else {
        None
    }
}

/// The locators of a list that may be absent.
pub open spec fn spec_locators(list: Option<Vec<Locator>>) -> Option<Seq<Locator>> {
    match list {
        Some(l) => Some(l@),
        None => None,
    }
}

/// Whether `body` is what parsing `content` under `header` gives.
#[verifier::opaque]
pub open spec fn spec_is_parse_of(body: SubmessageBody, header: SubmessageHeader, content: Seq<u8>) -> bool {
    let e = spec_endianness_flag(header.flags);
    let kind = header.kind.value;
    match body {
        SubmessageBody::Entity(EntitySubmessage::Data(d, f)) => kind == KIND_DATA && f
            == header.flags && spec_parse_data(content, header.flags) == Ok::<
            DataView,
            MessageError,
        >(d.spec_view()),
        SubmessageBody::Entity(EntitySubmessage::Heartbeat(h, f)) => kind == KIND_HEARTBEAT && f
            == header.flags && spec_parse_heartbeat(content, e) == Ok::<Heartbeat, MessageError>(h),
        SubmessageBody::Entity(EntitySubmessage::AckNack(a, f)) => kind == KIND_ACKNACK && f
            == header.flags && a.reader_sn_state.wf() && spec_parse_acknack(content, e) == Ok::<
            AckNackView,
            MessageError,
        >(a.spec_view()),
        SubmessageBody::Entity(EntitySubmessage::Gap(g, f)) => kind == KIND_GAP && f
            == header.flags && g.gap_list.wf() && spec_parse_gap(content, e) == Ok::<
            GapView,
            MessageError,
        >(g.spec_view()),
        SubmessageBody::Interpreter(InterpreterSubmessage::InfoDestination(i, f)) => kind
            == KIND_INFO_DST && f == header.flags && spec_parse_info_destination(content) == Ok::<
            InfoDestination,
            MessageError,
        >(i),
        SubmessageBody::Interpreter(InterpreterSubmessage::InfoSource(i, f)) => kind
            == KIND_INFO_SRC && f == header.flags && spec_parse_info_source(content) == Ok::<
            InfoSource,
            MessageError,
        >(i),
        SubmessageBody::Interpreter(InterpreterSubmessage::InfoTimestamp(i, f)) => kind
            == KIND_INFO_TS && f == header.flags && spec_parse_info_timestamp(
            content,
            header.flags,
            e,
        ) == Ok::<InfoTimestamp, MessageError>(i),
        SubmessageBody::Interpreter(InterpreterSubmessage::InfoReply(i, f)) => kind
            == KIND_INFO_REPLY && f == header.flags && spec_parse_info_reply(
            content,
            header.flags,
            e,
        ) == Ok::<(Seq<Locator>, Option<Seq<Locator>>), MessageError>(
            (i.unicast_locator_list@, spec_locators(i.multicast_locator_list)),
        ),
    }
}

/// The submessages that stand in `input` from the position `from` on,
/// and why the rest of the input holds no submessage, where it is not
/// used up: each submessage has a header of four bytes, which states the
/// length of the content that follows it.
pub open spec fn spec_frames(input: Seq<u8>, from: int) -> (Seq<Frame>, Option<MessageError>)
    decreases input.len() - from,
{
    if from < 0 || from >= input.len() {
        (Seq::empty(), None)
    } else {
        match spec_parse_submessage_header(input.skip(from)) {
            Err(e) => (Seq::empty(), Some(e)),
            Ok(h) => {
                let end = from + 4 + h.content_length;
                if input.len() < end {
                    (Seq::empty(), Some(MessageError::Truncated))
                } else {
                    let rest = spec_frames(input, end);
                    (seq![(h, (from + 4) as usize)] + rest.0, rest.1)
                }
            },
        }
    }
}

/// The content of a submessage of `input`.
pub open spec fn spec_frame_content(input: Seq<u8>, frame: Frame) -> Seq<u8> {
    input.subrange(frame.1 as int, frame.1 + frame.0.content_length)
}

/// Those among the first `n` submessages that are read: they are of a
/// kind that is read, and their content parses.
pub open spec fn spec_accepted_frames(input: Seq<u8>, frames: Seq<Frame>, n: int) -> Seq<Frame>
    decreases n,
{
    if n <= 0 {
        Seq::empty()
    } else if spec_known_kind(frames[n - 1].0.kind.value) && spec_body_failure(
        frames[n - 1].0,
        spec_frame_content(input, frames[n - 1]),
    ) is None {
        spec_accepted_frames(input, frames, n - 1).push(frames[n - 1])
    } else {
        spec_accepted_frames(input, frames, n - 1)
    }
}

/// The errors of those among the first `n` submessages whose content
/// does not parse, in their order.
pub open spec fn spec_discarded(input: Seq<u8>, frames: Seq<Frame>, n: int) -> Seq<MessageError>
    decreases n,
{
    if n <= 0 {
        Seq::empty()
    } else {
        match spec_body_failure(frames[n - 1].0, spec_frame_content(input, frames[n - 1])) {
            Some(e) => spec_discarded(input, frames, n - 1).push(e),
            None => spec_discarded(input, frames, n - 1),
        }
    }
}

/// The error as a list: one error, or none.
pub open spec fn spec_error_list(failure: Option<MessageError>) -> Seq<MessageError> {
    match failure {
        Some(e) => seq![e],
        None => Seq::empty(),
    }
}

/// Whether `m` is what parsing the submessage `frame` of `input` gives.
pub open spec fn spec_frame_parsed(m: SubMessage, input: Seq<u8>, frame: Frame) -> bool {
    m.header == frame.0 && spec_is_parse_of(m.body, frame.0, spec_frame_content(input, frame))
}

/// Whether `submessages` are what parsing the known ones among `frames`
/// gives, in their order.
pub open spec fn spec_parsed(submessages: Seq<SubMessage>, input: Seq<u8>, known: Seq<Frame>) -> bool {
    &&& submessages.len() == known.len()
    &&& forall|i: int|
        0 <= i < known.len() ==> #[trigger] spec_frame_parsed(submessages[i], input, known[i])
}

/// Parsed submessages with one more that was parsed.
proof fn lemma_parsed_push(
    submessages: Seq<SubMessage>,
    input: Seq<u8>,
    known: Seq<Frame>,
    m: SubMessage,
    frame: Frame,
)
    requires
        spec_parsed(submessages, input, known),
        spec_frame_parsed(m, input, frame),
    ensures
        spec_parsed(submessages.push(m), input, known.push(frame)),
{
    let after = submessages.push(m);
    let frames = known.push(frame);
    assert forall|i: int| 0 <= i < frames.len() implies #[trigger] spec_frame_parsed(
        after[i],
        input,
        frames[i],
    ) by {
        if i < known.len() {
            assert(spec_frame_parsed(submessages[i], input, known[i]));
            assert(after[i] == submessages[i] && frames[i] == known[i]);
        }
    }
}

/// Finds the submessages of `input` from the position `from` on, and
/// tells why the rest of the input holds none, where it is not used up.
pub fn split_submessages(input: &[u8], from: usize) -> (r: (Vec<Frame>, Option<MessageError>))
    ensures
        r.0@ == spec_frames(input@, from as int).0,
        r.1 == spec_frames(input@, from as int).1,
        forall|i: int|
            0 <= i < r.0@.len() ==> (#[trigger] r.0@[i]).1 + r.0@[i].0.content_length <= input@.len(),
{
    let mut found: Vec<Frame> = Vec::new();
    let mut pos: usize = from;
    while pos < input.len()
        invariant
            from <= pos,
            spec_frames(input@, from as int).0 == found@ + spec_frames(input@, pos as int).0,
            spec_frames(input@, from as int).1 == spec_frames(input@, pos as int).1,
            forall|i: int|
                0 <= i < found@.len() ==> (#[trigger] found@[i]).1 + found@[i].0.content_length
                    <= input@.len(),
        decreases input@.len() - pos,
    {
        let rest = vstd::slice::slice_subrange(input, pos, input.len());
        assert(rest@ =~= input@.skip(pos as int));
        let header = match SubmessageHeader::read_from(rest) {
            Ok(header) => header,
            Err(e) => {
                assert(found@ + Seq::<Frame>::empty() =~= found@);
                return (found, Some(e));
            },
        };
        let length = header.content_length as usize;
        if input.len() - pos < 4 + length {
            assert(found@ + Seq::<Frame>::empty() =~= found@);
            return (found, Some(MessageError::Truncated));
        }
        let ghost before = found@;
        found.push((header, pos + 4));
        proof {
            let end = pos + 4 + length;
            let tail = spec_frames(input@, end as int).0;
            assert(before + (seq![(header, (pos + 4) as usize)] + tail) =~= found@ + tail);
        }
        pos = pos + 4 + length;
    }
    proof {
        assert(found@ + Seq::<Frame>::empty() =~= found@);
    }
    (found, None)
}

/// Parses the content of a submessage as its header tells. A submessage
/// of a kind that is not read gives nothing.
pub fn read_submessage(header: SubmessageHeader, content: &bytes::Bytes) -> (r: MessageResult<
    Option<SubMessage>,
>)
    ensures
        match spec_body_failure(header, bytes_content(*content)) {
            Some(e) => r == Err::<Option<SubMessage>, MessageError>(e),
            None => if spec_known_kind(header.kind.value) {
                r matches Ok(Some(m)) && m.header == header && spec_is_parse_of(
                    m.body,
                    header,
                    bytes_content(*content),
                )
            } else {
                r == Ok::<Option<SubMessage>, MessageError>(None)
            },
        },
{
    proof {
        reveal(spec_body_failure);
        reveal(spec_is_parse_of);
    }
    let e = endianness_flag(header.flags);
    let flags = header.flags;
    let kind = header.kind.value;
    let body = if kind == KIND_DATA {
        match Data::deserialize_data(content, flags) {
            Ok(d) => SubmessageBody::Entity(EntitySubmessage::Data(d, flags)),
            Err(err) => {
                return Err(err);
            },
        }
    } else if kind == KIND_HEARTBEAT {
        match Heartbeat::read_from(bytes_as_slice(content), e) {
            Ok(h) => SubmessageBody::Entity(EntitySubmessage::Heartbeat(h, flags)),
            Err(err) => {
                return Err(err);
            },
        }
    } else if kind == KIND_ACKNACK {
        match AckNack::read_from(bytes_as_slice(content), e) {
            Ok(a) => SubmessageBody::Entity(EntitySubmessage::AckNack(a, flags)),
            Err(err) => {
                return Err(err);
            },
        }
    } else if kind == KIND_GAP {
        match Gap::read_from(bytes_as_slice(content), e) {
            Ok(g) => SubmessageBody::Entity(EntitySubmessage::Gap(g, flags)),
            Err(err) => {
                return Err(err);
            },
        }
    } else if kind == KIND_INFO_DST {
        match InfoDestination::read_from(bytes_as_slice(content)) {
            Ok(i) => SubmessageBody::Interpreter(InterpreterSubmessage::InfoDestination(i, flags)),
            Err(err) => {
                return Err(err);
            },
        }
    } else if kind == KIND_INFO_SRC {
        match InfoSource::read_from(bytes_as_slice(content)) {
            Ok(i) => SubmessageBody::Interpreter(InterpreterSubmessage::InfoSource(i, flags)),
            Err(err) => {
                return Err(err);
            },
        }
    } else if kind == KIND_INFO_TS {
        match InfoTimestamp::read_from(bytes_as_slice(content), flags, e) {
            Ok(i) => SubmessageBody::Interpreter(InterpreterSubmessage::InfoTimestamp(i, flags)),
            Err(err) => {
                return Err(err);
            },
        }
    } else if kind == KIND_INFO_REPLY {
        match InfoReply::read_from(bytes_as_slice(content), flags, e) {
            Ok(i) => SubmessageBody::Interpreter(InterpreterSubmessage::InfoReply(i, flags)),
            Err(err) => {
                return Err(err);
            },
        }
    } else {
        return Ok(None);
    };
    Ok(Some(SubMessage { header, body }))
}

impl Message {
    /// Parses a message: the header, then its submessages one after the
    /// other. The payload of a data submessage shares the buffer.
    ///
    /// Fails where the header is not accepted. A submessage whose content
    /// does not parse is left out, and its error reported beside the
    /// message; so is the rest of a message that ends within a
    /// submessage.
    pub fn read_from(buffer: &bytes::Bytes) -> (r: MessageResult<(Message, Vec<MessageError>)>)
        ensures
            match spec_parse_header(bytes_content(*buffer)) {
                Err(e) => r == Err::<(Message, Vec<MessageError>), MessageError>(e),
                Ok(header) => {
                    let input = bytes_content(*buffer);
                    let framed = spec_frames(input, 20);
                    let count = framed.0.len() as int;
                    &&& r matches Ok((m, errors))
                    &&& m.header == header
                    &&& spec_parsed(m.submessages@, input, spec_accepted_frames(input, framed.0, count))
                    &&& errors@ == spec_discarded(input, framed.0, count) + spec_error_list(framed.1)
                },
            },
    {
        let ghost input = bytes_content(*buffer);
        let all = bytes_as_slice(buffer);
        let mut reader = WireReader::new(all, Endianness::BigEndian);
        let header = match Header::read_from(&mut reader) {
            Ok(header) => header,
            Err(e) => {
                return Err(e);
            },
        };
        let (frames, failure) = split_submessages(all, HEADER_LENGTH);
        let total: usize = all.len();
        let mut submessages: Vec<SubMessage> = Vec::new();
        let mut errors: Vec<MessageError> = Vec::new();
        let mut i: usize = 0;
        while i < frames.len()
            invariant
                i <= frames@.len(),
                input == bytes_content(*buffer),
                input.len() == total,
                forall|k: int|
                    0 <= k < frames@.len() ==> (#[trigger] frames@[k]).1
                        + frames@[k].0.content_length <= input.len(),
                spec_parsed(submessages@, input, spec_accepted_frames(input, frames@, i as int)),
                errors@ == spec_discarded(input, frames@, i as int),
            decreases frames@.len() - i,
        {
            let (frame_header, start) = frames[i];
            assert(frames@[i as int].1 + frames@[i as int].0.content_length <= input.len());
            let content = bytes_slice(buffer, start, start + frame_header.content_length as usize);
            let ghost before = submessages@;
            match read_submessage(frame_header, &content) {
                Ok(Some(m)) => {
                    proof {
                        assert(spec_known_kind(frame_header.kind.value));
                        assert(spec_frame_parsed(m, input, frames@[i as int]));
                        lemma_parsed_push(
                            before,
                            input,
                            spec_accepted_frames(input, frames@, i as int),
                            m,
                            frames@[i as int],
                        );
                    }
                    submessages.push(m);
                },
                Ok(None) => {},
                Err(e) => {
                    errors.push(e);
                },
            }
            i += 1;
        }
        match failure {
            Some(e) => {
                errors.push(e);
            },
            None => {
                assert(errors@ + Seq::<MessageError>::empty() =~= errors@);
            },
        }
        Ok((Message { header, submessages }, errors))
    }
}

/// The kind under which a submessage with the content `body` travels.
pub open spec fn spec_kind_of(body: SubmessageBody) -> u8 {
    match body {
        SubmessageBody::Entity(EntitySubmessage::AckNack(..)) => KIND_ACKNACK,
        SubmessageBody::Entity(EntitySubmessage::Data(..)) => KIND_DATA,
        SubmessageBody::Entity(EntitySubmessage::Gap(..)) => KIND_GAP,
        SubmessageBody::Entity(EntitySubmessage::Heartbeat(..)) => KIND_HEARTBEAT,
        SubmessageBody::Interpreter(InterpreterSubmessage::InfoDestination(..)) => KIND_INFO_DST,
        SubmessageBody::Interpreter(InterpreterSubmessage::InfoReply(..)) => KIND_INFO_REPLY,
        SubmessageBody::Interpreter(InterpreterSubmessage::InfoSource(..)) => KIND_INFO_SRC,
        SubmessageBody::Interpreter(InterpreterSubmessage::InfoTimestamp(..)) => KIND_INFO_TS,
    }
}

/// The flags that a submessage with the content `body` carries.
pub open spec fn spec_flags_of(body: SubmessageBody) -> u8 {
    match body {
        SubmessageBody::Entity(EntitySubmessage::AckNack(_, f)) => f,
        SubmessageBody::Entity(EntitySubmessage::Data(_, f)) => f,
        SubmessageBody::Entity(EntitySubmessage::Gap(_, f)) => f,
        SubmessageBody::Entity(EntitySubmessage::Heartbeat(_, f)) => f,
        SubmessageBody::Interpreter(InterpreterSubmessage::InfoDestination(_, f)) => f,
        SubmessageBody::Interpreter(InterpreterSubmessage::InfoReply(_, f)) => f,
        SubmessageBody::Interpreter(InterpreterSubmessage::InfoSource(_, f)) => f,
        SubmessageBody::Interpreter(InterpreterSubmessage::InfoTimestamp(_, f)) => f,
    }
}

/// Whether the content can be written: its sets are well formed, and its
/// lists and inline parameters fit their length fields.
pub open spec fn spec_writable(body: SubmessageBody) -> bool {
    match body {
        SubmessageBody::Entity(EntitySubmessage::AckNack(a, _)) => a.reader_sn_state.wf(),
        SubmessageBody::Entity(EntitySubmessage::Data(d, _)) => d.spec_fits(),
        SubmessageBody::Entity(EntitySubmessage::Gap(g, _)) => g.gap_list.wf(),
        SubmessageBody::Interpreter(InterpreterSubmessage::InfoReply(i, _)) => {
            &&& i.unicast_locator_list@.len() <= u32::MAX
            &&& i.multicast_locator_list matches Some(list) ==> list@.len() <= u32::MAX
        },
        _ => true,
    }
}

/// The bytes of the content of a submessage, in the byte order that its
/// flags state.
pub open spec fn spec_body_bytes(body: SubmessageBody) -> Seq<u8> {
    let e = spec_endianness_flag(spec_flags_of(body));
    match body {
        SubmessageBody::Entity(EntitySubmessage::AckNack(a, _)) => spec_acknack_bytes(
            a.spec_view(),
            e,
        ),
        SubmessageBody::Entity(EntitySubmessage::Data(d, _)) => spec_data_bytes(d.spec_view(), e),
        SubmessageBody::Entity(EntitySubmessage::Gap(g, _)) => spec_gap_bytes(g.spec_view(), e),
        SubmessageBody::Entity(EntitySubmessage::Heartbeat(h, _)) => spec_heartbeat_bytes(h, e),
        SubmessageBody::Interpreter(
            InterpreterSubmessage::InfoDestination(i, _),
        ) => spec_guid_prefix_bytes(i.guid_prefix),
        SubmessageBody::Interpreter(
            InterpreterSubmessage::InfoReply(i, _),
        ) => spec_locator_list_bytes(i.unicast_locator_list@, e) + match i.multicast_locator_list {
            Some(list) => spec_locator_list_bytes(list@, e),
            None => Seq::empty(),
        },
        SubmessageBody::Interpreter(InterpreterSubmessage::InfoSource(i, _)) => spec_info_source_bytes(
            i,
        ),
        SubmessageBody::Interpreter(
            InterpreterSubmessage::InfoTimestamp(i, _),
        ) => spec_info_timestamp_bytes(i, e),
    }
}

/// The bytes of the first `n` submessages, each with its header.
pub open spec fn spec_submessages_bytes(submessages: Seq<SubMessage>, n: int) -> Seq<u8>
    decreases n,
{
    if n <= 0 {
        Seq::empty()
    } else {
        spec_submessages_bytes(submessages, n - 1) + spec_submessage_header_bytes(
            submessages[n - 1].header,
        ) + spec_body_bytes(submessages[n - 1].body)
    }
}

impl SubmessageBody {
    /// The flags that the submessage carries.
    pub fn flags(&self) -> (f: u8)
        ensures
            f == spec_flags_of(*self),
    {
        match self {
            SubmessageBody::Entity(EntitySubmessage::AckNack(_, f)) => *f,
            SubmessageBody::Entity(EntitySubmessage::Data(_, f)) => *f,
            SubmessageBody::Entity(EntitySubmessage::Gap(_, f)) => *f,
            SubmessageBody::Entity(EntitySubmessage::Heartbeat(_, f)) => *f,
            SubmessageBody::Interpreter(InterpreterSubmessage::InfoDestination(_, f)) => *f,
            SubmessageBody::Interpreter(InterpreterSubmessage::InfoReply(_, f)) => *f,
            SubmessageBody::Interpreter(InterpreterSubmessage::InfoSource(_, f)) => *f,
            SubmessageBody::Interpreter(InterpreterSubmessage::InfoTimestamp(_, f)) => *f,
        }
    }

    /// The kind under which the submessage travels.
    pub fn kind(&self) -> (k: SubmessageKind)
        ensures
            k.value == spec_kind_of(*self),
    {
        let value = match self {
            SubmessageBody::Entity(EntitySubmessage::AckNack(..)) => KIND_ACKNACK,
            SubmessageBody::Entity(EntitySubmessage::Data(..)) => KIND_DATA,
            SubmessageBody::Entity(EntitySubmessage::Gap(..)) => KIND_GAP,
            SubmessageBody::Entity(EntitySubmessage::Heartbeat(..)) => KIND_HEARTBEAT,
            SubmessageBody::Interpreter(InterpreterSubmessage::InfoDestination(..)) => KIND_INFO_DST,
            SubmessageBody::Interpreter(InterpreterSubmessage::InfoReply(..)) => KIND_INFO_REPLY,
            SubmessageBody::Interpreter(InterpreterSubmessage::InfoSource(..)) => KIND_INFO_SRC,
            SubmessageBody::Interpreter(InterpreterSubmessage::InfoTimestamp(..)) => KIND_INFO_TS,
        };
        SubmessageKind { value }
    }

    /// Appends the bytes of the content, and tells whether it did:
    /// content that cannot be written leaves `out` as it was.
    pub fn write_to(&self, out: &mut Vec<u8>) -> (written: bool)
        ensures
            written == spec_writable(*self),
            written ==> final(out)@ == old(out)@ + spec_body_bytes(*self),
            !written ==> final(out)@ == old(out)@,
    {
        let e = endianness_flag(self.flags());
        match self {
            SubmessageBody::Entity(EntitySubmessage::AckNack(a, _)) => {
                if a.reader_sn_state.is_well_formed() {
                    a.write_to(out, e);
                    true
                } else {
                    false
                }
            },
            SubmessageBody::Entity(EntitySubmessage::Data(d, _)) => {
                if d.fits() {
                    d.write_to(out, e);
                    true
                } else {
                    false
                }
            },
            SubmessageBody::Entity(EntitySubmessage::Gap(g, _)) => {
                if g.gap_list.is_well_formed() {
                    g.write_to(out, e);
                    true
                } else {
                    false
                }
            },
            SubmessageBody::Entity(EntitySubmessage::Heartbeat(h, _)) => {
                h.write_to(out, e);
                true
            },
            SubmessageBody::Interpreter(InterpreterSubmessage::InfoDestination(i, _)) => {
                i.write_to(out);
                true
            },
            SubmessageBody::Interpreter(InterpreterSubmessage::InfoReply(i, _)) => i.write_to(
                out,
                e,
            ),
            SubmessageBody::Interpreter(InterpreterSubmessage::InfoSource(i, _)) => {
                i.write_to(out);
                true
            },
            SubmessageBody::Interpreter(InterpreterSubmessage::InfoTimestamp(i, _)) => {
                i.write_to(out, e);
                true
            },
        }
    }
}

impl SubMessage {
    /// The submessage that carries `body`: its header states the kind and
    /// the flags of the content and the length of its bytes. There is
    /// none where the content cannot be written or is longer than the
    /// header can state.
    pub fn from_body(body: SubmessageBody) -> (r: Option<SubMessage>)
        ensures
            r is Some == (spec_writable(body) && spec_body_bytes(body).len() <= u16::MAX),
            r matches Some(m) ==> m.body == body && m.header == (SubmessageHeader {
                kind: SubmessageKind { value: spec_kind_of(body) },
                flags: spec_flags_of(body),
                content_length: spec_body_bytes(body).len() as u16,
            }),
    {
        let mut content: Vec<u8> = Vec::new();
        if !body.write_to(&mut content) {
            return None;
        }
        assert(content@ =~= spec_body_bytes(body));
        if content.len() > u16::MAX as usize {
            return None;
        }
        let header = SubmessageHeader {
            kind: body.kind(),
            flags: body.flags(),
            content_length: content.len() as u16,
        };
        Some(SubMessage { header, body })
    }

    /// Appends the header and the content of the submessage, and tells
    /// whether it did: a submessage whose content cannot be written
    /// leaves `out` as it was.
    pub fn write_to(&self, out: &mut Vec<u8>) -> (written: bool)
        ensures
            written == spec_writable(self.body),
            written ==> final(out)@ == old(out)@ + spec_submessage_header_bytes(self.header)
                + spec_body_bytes(self.body),
            !written ==> final(out)@ == old(out)@,
    {
        let mut content: Vec<u8> = Vec::new();
        if !self.body.write_to(&mut content) {
            return false;
        }
        assert(content@ =~= spec_body_bytes(self.body));
        self.header.write_to(out);
        write_bytes(out, content.as_slice());
        true
    }
}

impl Message {
    /// Appends the bytes of the message: the header, then the submessages.
    /// A message with a submessage that cannot be written is not written,
    /// and `false` returned.
    pub fn write_to(&self, out: &mut Vec<u8>) -> (written: bool)
        ensures
            written == (forall|i: int|
                0 <= i < self.submessages@.len() ==> spec_writable(
                    (#[trigger] self.submessages@[i]).body,
                )),
            written ==> final(out)@ == old(out)@ + spec_header_bytes(self.header)
                + spec_submessages_bytes(self.submessages@, self.submessages@.len() as int),
            !written ==> final(out)@ == old(out)@,
    {
        let mut bytes: Vec<u8> = Vec::new();
        self.header.write_to(&mut bytes);
        assert(bytes@ =~= spec_header_bytes(self.header));
        let mut i: usize = 0;
        while i < self.submessages.len()
            invariant
                i <= self.submessages@.len(),
                out@ == old(out)@,
                forall|k: int| 0 <= k < i ==> spec_writable((#[trigger] self.submessages@[k]).body),
                bytes@ == spec_header_bytes(self.header) + spec_submessages_bytes(
                    self.submessages@,
                    i as int,
                ),
            decreases self.submessages@.len() - i,
        {
            if !self.submessages[i].write_to(&mut bytes) {
                return false;
            }
            assert(bytes@ =~= spec_header_bytes(self.header) + spec_submessages_bytes(
                self.submessages@,
                i + 1,
            ));
            i += 1;
        }
        write_bytes(out, bytes.as_slice());
        true
    }
}

} // verus!
