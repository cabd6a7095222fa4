use crate::dds::qos::policy::History;
use crate::dds::qos::policy::Liveliness;
use crate::dds::qos::policy::Ownership;
use crate::dds::qos::policy::Presentation;
use crate::dds::qos::policy::Reliability;
use crate::dds::qos::policy::ResourceLimits;
use crate::discovery::content_filter_property::ContentFilterProperty;
use crate::messages::protocol_version::ProtocolVersion;
use crate::messages::vendor_id::VendorId;
use crate::messages::wire::spec_entity_id_bytes;
use crate::messages::wire::spec_guid_prefix_bytes;
use crate::messages::wire::write_entity_id;
use crate::messages::wire::write_guid_prefix;
use crate::serialization::builtin_data_serializer::BuiltinDataSerializer;
use crate::serialization::builtin_data_serializer::BuiltinDataSerializerKey;
use crate::serialization::byte_order::spec_bytes;
use crate::serialization::byte_order::spec_unsigned;
use crate::serialization::byte_order::spec_zeros;
use crate::serialization::byte_order::unsigned_32;
use crate::serialization::byte_order::write_bytes;
use crate::serialization::byte_order::write_u16;
use crate::serialization::byte_order::write_u32;
use crate::serialization::byte_order::write_u64;
use crate::serialization::byte_order::write_zeros;
use crate::serialization::byte_order::Endianness;
use crate::serialization::cdr_deserializer::spec_padding;
use crate::structure::duration::Duration;
use crate::structure::guid::GUID;
use crate::structure::locator::Locator;
use crate::structure::locator::LocatorList;
use crate::structure::parameter_id::PID_BUILTIN_ENDPOINT_QOS;
use crate::structure::parameter_id::PID_BUILTIN_ENDPOINT_SET;
use crate::structure::parameter_id::PID_CONTENT_FILTER_PROPERTY;
use crate::structure::parameter_id::PID_DEADLINE;
use crate::structure::parameter_id::PID_DEFAULT_MULTICAST_LOCATOR;
use crate::structure::parameter_id::PID_DEFAULT_UNICAST_LOCATOR;
use crate::structure::parameter_id::PID_DESTINATION_ORDER;
use crate::structure::parameter_id::PID_DURABILITY;
use crate::structure::parameter_id::PID_ENDPOINT_GUID;
use crate::structure::parameter_id::PID_ENTITY_NAME;
use crate::structure::parameter_id::PID_EXPECTS_INLINE_QOS;
use crate::structure::parameter_id::PID_HISTORY;
use crate::structure::parameter_id::PID_LATENCY_BUDGET;
use crate::structure::parameter_id::PID_LIFESPAN;
use crate::structure::parameter_id::PID_LIVELINESS;
use crate::structure::parameter_id::PID_METATRAFFIC_MULTICAST_LOCATOR;
use crate::structure::parameter_id::PID_METATRAFFIC_UNICAST_LOCATOR;
use crate::structure::parameter_id::PID_MULTICAST_LOCATOR;
use crate::structure::parameter_id::PID_OWNERSHIP;
use crate::structure::parameter_id::PID_OWNERSHIP_STRENGTH;
use crate::structure::parameter_id::PID_PARTICIPANT_GUID;
use crate::structure::parameter_id::PID_PARTICIPANT_LEASE_DURATION;
use crate::structure::parameter_id::PID_PARTICIPANT_MANUAL_LIVELINESS_COUNT;
use crate::structure::parameter_id::PID_PRESENTATION;
use crate::structure::parameter_id::PID_PROTOCOL_VERSION;
use crate::structure::parameter_id::PID_RELIABILITY;
use crate::structure::parameter_id::PID_RESOURCE_LIMITS;
use crate::structure::parameter_id::PID_SENTINEL;
use crate::structure::parameter_id::PID_TIME_BASED_FILTER;
use crate::structure::parameter_id::PID_TOPIC_NAME;
use crate::structure::parameter_id::PID_TYPE_MAX_SIZE_SERIALIZED;
use crate::structure::parameter_id::PID_TYPE_NAME;
use crate::structure::parameter_id::PID_UNICAST_LOCATOR;
use crate::structure::parameter_id::PID_VENDOR_ID;
use vstd::prelude::*;

verus! {

/// Number on the wire of the reliability kind "best effort".
pub const RELIABILITY_KIND_BEST_EFFORT: u32 = 1;

/// Number on the wire of the reliability kind "reliable".
pub const RELIABILITY_KIND_RELIABLE: u32 = 2;

/// The bytes of a parameter whose value has the bytes `value`: tag, length
/// of the value, value.
pub open spec fn spec_parameter(pid: u16, value: Seq<u8>, e: Endianness) -> Seq<u8> {
    spec_bytes(pid as nat, 2, e) + spec_bytes(value.len(), 2, e) + value
}

/// Whether a value fits the 16-bit length field of a parameter.
pub open spec fn spec_value_fits(value: Seq<u8>) -> bool {
    value.len() <= u16::MAX
}

/// The bytes of an unsigned 32-bit number.
pub open spec fn spec_u32_value(x: u32, e: Endianness) -> Seq<u8> {
    spec_bytes(x as nat, 4, e)
}

/// The bytes of a signed 32-bit number.
pub open spec fn spec_i32_value(x: i32, e: Endianness) -> Seq<u8> {
    spec_bytes(spec_unsigned(x as int, 4), 4, e)
}

/// The bytes of a boolean: one byte and three bytes of padding.
pub open spec fn spec_bool_value(b: bool) -> Seq<u8> {
    seq![if b {
        1u8
    } else {
        0u8
    }, 0u8, 0u8, 0u8]
}

/// The bytes of a duration: seconds, then fraction.
pub open spec fn spec_duration_value(d: Duration, e: Endianness) -> Seq<u8> {
    spec_i32_value(d.seconds, e) + spec_u32_value(d.fraction, e)
}

/// The bytes of an identifier: prefix, then entity.
pub open spec fn spec_guid_value(g: GUID) -> Seq<u8> {
    spec_guid_prefix_bytes(g.guid_prefix) + spec_entity_id_bytes(g.entity_id)
}

/// The bytes of a locator: kind, port, and the sixteen bytes of the
/// address.
pub open spec fn spec_locator_value(l: Locator, e: Endianness) -> Seq<u8> {
    spec_i32_value(l.kind, e) + spec_u32_value(l.port, e) + spec_bytes(
        (l.address / 0x1_0000_0000_0000_0000) as nat,
        8,
        Endianness::BigEndian,
    ) + spec_bytes((l.address % 0x1_0000_0000_0000_0000) as nat, 8, Endianness::BigEndian)
}

/// The bytes of a string with the UTF-8 text `text`: the length of text
/// and terminator, the text, the terminator, and padding up to a multiple
/// of four bytes.
pub open spec fn spec_string_value(text: Seq<u8>, e: Endianness) -> Seq<u8> {
    spec_bytes((text.len() + 1) as nat, 4, e) + text + seq![0u8] + spec_zeros(
        spec_padding(text.len() + 1, 4),
    )
}

/// The bytes of a protocol version: major, minor, and two bytes of
/// padding.
pub open spec fn spec_version_value(v: ProtocolVersion) -> Seq<u8> {
    seq![v.major, v.minor, 0u8, 0u8]
}

/// The bytes of a vendor identifier, and two bytes of padding.
pub open spec fn spec_vendor_value(v: VendorId) -> Seq<u8> {
    seq![v.first, v.second, 0u8, 0u8]
}

/// The bytes of a liveliness policy: kind, then lease.
pub open spec fn spec_liveliness_value(l: Liveliness, e: Endianness) -> Seq<u8> {
    spec_u32_value(l.spec_rank() as u32, e) + spec_duration_value(l.spec_lease_duration(), e)
}

/// Number on the wire of the kind of a reliability policy.
pub open spec fn spec_reliability_kind(r: Reliability) -> u32 {
    match r {
        Reliability::BestEffort => RELIABILITY_KIND_BEST_EFFORT,
        Reliability::Reliable { .. } => RELIABILITY_KIND_RELIABLE,
    }
}

/// The blocking time of a reliability policy; none for best effort.
pub open spec fn spec_reliability_blocking(r: Reliability) -> Duration {
    match r {
        Reliability::BestEffort => Duration::spec_zero(),
        Reliability::Reliable { max_blocking_time } => max_blocking_time,
    }
}

/// The bytes of a reliability policy: kind, then blocking time.
pub open spec fn spec_reliability_value(r: Reliability, e: Endianness) -> Seq<u8> {
    spec_u32_value(spec_reliability_kind(r), e) + spec_duration_value(
        spec_reliability_blocking(r),
        e,
    )
}

/// The bytes of a presentation policy: scope, the two flags, and two
/// bytes of padding.
pub open spec fn spec_presentation_value(p: Presentation, e: Endianness) -> Seq<u8> {
    spec_u32_value(p.access_scope.spec_rank() as u32, e) + seq![
        if p.coherent_access {
            1u8
        } else {
            0u8
        },
        if p.ordered_access {
            1u8
        } else {
            0u8
        },
        0u8,
        0u8,
    ]
}

/// The bytes of a history policy: kind, then depth; keep-all has depth 0.
pub open spec fn spec_history_value(h: History, e: Endianness) -> Seq<u8> {
    match h {
        History::KeepLast { depth } => spec_u32_value(0, e) + spec_i32_value(depth, e),
        History::KeepAll => spec_u32_value(1, e) + spec_i32_value(0, e),
    }
}

/// The bytes of resource limits: the three limits.
pub open spec fn spec_resource_limits_value(r: ResourceLimits, e: Endianness) -> Seq<u8> {
    spec_i32_value(r.max_samples, e) + spec_i32_value(r.max_instances, e) + spec_i32_value(
        r.max_samples_per_instance,
        e,
    )
}

/// The bytes of the first `n` strings of a list.
pub open spec fn spec_strings_value(strings: Seq<String>, n: int, e: Endianness) -> Seq<u8>
    decreases n,
{
    if n <= 0 {
        Seq::empty()
    } else {
        spec_strings_value(strings, n - 1, e) + spec_string_value(
            vstd::utf8::encode_utf8(strings[n - 1]@),
            e,
        )
    }
}

/// The bytes of a content filter: its four names, the number of its
/// parameters, and the parameters.
pub open spec fn spec_content_filter_value(f: ContentFilterProperty, e: Endianness) -> Seq<u8> {
    spec_string_value(vstd::utf8::encode_utf8(f.content_filtered_topic_name@), e)
        + spec_string_value(vstd::utf8::encode_utf8(f.related_topic_name@), e) + spec_string_value(
        vstd::utf8::encode_utf8(f.filter_class_name@),
        e,
    ) + spec_string_value(vstd::utf8::encode_utf8(f.filter_expression@), e) + spec_u32_value(
        f.expression_parameters@.len() as u32,
        e,
    ) + spec_strings_value(f.expression_parameters@, f.expression_parameters@.len() as int, e)
}

/// The parameters of the first `n` locators of a list under the tag
/// `pid`.
pub open spec fn spec_locators_parameters(
    pid: u16,
    list: Seq<Locator>,
    n: int,
    e: Endianness,
) -> Seq<u8>
    decreases n,
{
    if n <= 0 {
        Seq::empty()
    } else {
        spec_locators_parameters(pid, list, n - 1, e) + spec_parameter(
            pid,
            spec_locator_value(list[n - 1], e),
            e,
        )
    }
}

/// Appends a parameter with the given tag and value. A value too long for
/// the length field is not written, and `false` returned.
pub fn put_parameter(out: &mut Vec<u8>, pid: u16, value: &Vec<u8>, e: Endianness) -> (ok: bool)
    ensures
        ok == spec_value_fits(value@),
        ok ==> final(out)@ == old(out)@ + spec_parameter(pid, value@, e),
        !ok ==> final(out)@ == old(out)@,
{
    if value.len() > 0xffff {
        return false;
    }
    let ghost start = out@;
    write_u16(out, pid, e);
    write_u16(out, value.len() as u16, e);
    write_bytes(out, value.as_slice());
    assert(out@ =~= start + spec_parameter(pid, value@, e));
    true
}

/// Appends the bytes of a signed 32-bit number.
pub fn put_i32(out: &mut Vec<u8>, x: i32, e: Endianness)
    ensures
        final(out)@ == old(out)@ + spec_i32_value(x, e),
{
    write_u32(out, unsigned_32(x), e);
}

/// Appends the bytes of a duration.
pub fn put_duration(out: &mut Vec<u8>, d: Duration, e: Endianness)
    ensures
        final(out)@ == old(out)@ + spec_duration_value(d, e),
{
    let ghost start = out@;
    put_i32(out, d.seconds, e);
    write_u32(out, d.fraction, e);
    assert(out@ =~= start + spec_duration_value(d, e));
}

/// Appends the bytes of an identifier.
pub fn put_guid(out: &mut Vec<u8>, g: GUID)
    ensures
        final(out)@ == old(out)@ + spec_guid_value(g),
{
    let ghost start = out@;
    write_guid_prefix(out, g.guid_prefix);
    write_entity_id(out, g.entity_id);
    assert(out@ =~= start + spec_guid_value(g));
}

/// Appends the bytes of a locator.
pub fn put_locator(out: &mut Vec<u8>, l: Locator, e: Endianness)
    ensures
        final(out)@ == old(out)@ + spec_locator_value(l, e),
{
    let ghost start = out@;
    put_i32(out, l.kind, e);
    write_u32(out, l.port, e);
    let high: u64 = (l.address / 0x1_0000_0000_0000_0000u128) as u64;
    let low: u64 = (l.address % 0x1_0000_0000_0000_0000u128) as u64;
    write_u64(out, high, Endianness::BigEndian);
    write_u64(out, low, Endianness::BigEndian);
    assert(out@ =~= start + spec_locator_value(l, e));
}

/// Appends the bytes of a string. A string too long for its 32-bit length
/// is not written, and `false` returned.
pub fn put_string(out: &mut Vec<u8>, s: &String, e: Endianness) -> (ok: bool)
    ensures
        ok == (vstd::utf8::encode_utf8(s@).len() < u32::MAX),
        ok ==> final(out)@ == old(out)@ + spec_string_value(vstd::utf8::encode_utf8(s@), e),
        !ok ==> final(out)@ == old(out)@,
{
    let text = s.as_str().as_bytes();
    if text.len() >= 0xffff_ffff {
        return false;
    }
    let ghost start = out@;
    let length: usize = text.len() + 1;
    write_u32(out, length as u32, e);
    write_bytes(out, text);
    out.push(0u8);
    let modulo = length % 4;
    if modulo != 0 {
        write_zeros(out, 4 - modulo);
    } else {
        write_zeros(out, 0);
    }
    assert(out@ =~= start + spec_string_value(vstd::utf8::encode_utf8(s@), e));
    true
}

impl<'a> BuiltinDataSerializer<'a> {
    /// The parameter of the protocol version. Where none is stated, the
    /// version that this implementation speaks is written.
    pub open spec fn spec_protocol_version_bytes(&self, e: Endianness) -> Seq<u8> {
        spec_parameter(
            PID_PROTOCOL_VERSION,
            spec_version_value(
                match self.protocol_version {
                    Some(v) => v,
                    None => ProtocolVersion::spec_protocolversion_2_3(),
                },
            ),
            e,
        )
    }

    /// Whether the parameter of the protocol version can be written.
    pub open spec fn spec_protocol_version_fits(&self, e: Endianness) -> bool {
        true
    }

    /// Appends the parameter of the protocol version.
    pub fn add_protocol_version(&self, out: &mut Vec<u8>, e: Endianness) -> (ok: bool)
        ensures
            ok == self.spec_protocol_version_fits(e),
            ok ==> final(out)@ == old(out)@ + self.spec_protocol_version_bytes(e),
    {
        let v = match self.protocol_version {
            Some(v) => v,
            None => ProtocolVersion::protocolversion_2_3(),
        };
        let mut value: Vec<u8> = Vec::new();
        value.push(v.major);
        value.push(v.minor);
        value.push(0);
        value.push(0);
        assert(value@ =~= spec_version_value(v));
        put_parameter(out, PID_PROTOCOL_VERSION, &value, e)
    }

    /// The parameter of the vendor. Where none is stated, the unknown
    /// vendor is written.
    pub open spec fn spec_vendor_id_bytes(&self, e: Endianness) -> Seq<u8> {
        spec_parameter(
            PID_VENDOR_ID,
            spec_vendor_value(
                match self.vendor_id {
                    Some(v) => v,
                    None => VendorId::spec_vendor_unknown(),
                },
            ),
            e,
        )
    }

    /// Whether the parameter of the vendor can be written.
    pub open spec fn spec_vendor_id_fits(&self, e: Endianness) -> bool {
        true
    }

    /// Appends the parameter of the vendor.
    pub fn add_vendor_id(&self, out: &mut Vec<u8>, e: Endianness) -> (ok: bool)
        ensures
            ok == self.spec_vendor_id_fits(e),
            ok ==> final(out)@ == old(out)@ + self.spec_vendor_id_bytes(e),
    {
        let v = match self.vendor_id {
            Some(v) => v,
            None => VendorId::vendor_unknown(),
        };
        let mut value: Vec<u8> = Vec::new();
        value.push(v.first);
        value.push(v.second);
        value.push(0);
        value.push(0);
        assert(value@ =~= spec_vendor_value(v));
        put_parameter(out, PID_VENDOR_ID, &value, e)
    }

    /// The parameter of the expects inline qos, where it is stated.
    pub open spec fn spec_expects_inline_qos_bytes(&self, e: Endianness) -> Seq<u8> {
        match self.expects_inline_qos {
            Some(v) => spec_parameter(PID_EXPECTS_INLINE_QOS, spec_bool_value(v), e),
            None => Seq::empty(),
        }
    }

    /// Whether the parameter of the expects inline qos can be written: its value fits the
    /// length field.
    pub open spec fn spec_expects_inline_qos_fits(&self, e: Endianness) -> bool {
        match self.expects_inline_qos {
            Some(v) => spec_value_fits(spec_bool_value(v)),
            None => true,
        }
    }

    /// Appends the parameter of the expects inline qos, where it is stated and fits.
    pub fn add_expects_inline_qos(&self, out: &mut Vec<u8>, e: Endianness) -> (ok: bool)
        ensures
            ok == self.spec_expects_inline_qos_fits(e),
            ok ==> final(out)@ == old(out)@ + self.spec_expects_inline_qos_bytes(e),
    {
        let ghost start = out@;
        match self.expects_inline_qos {
            Some(v) => {
                let mut value: Vec<u8> = Vec::new();
                value.push(if v {
                    1u8
                } else {
                    0u8
                });
                value.push(0);
                value.push(0);
                value.push(0);
                assert(value@ =~= spec_bool_value(v));
                put_parameter(out, PID_EXPECTS_INLINE_QOS, &value, e)
            },
            None => {
                assert(out@ =~= start + Seq::<u8>::empty());
                true
            },
        }
    }

    /// The parameter of the participant guid, where it is stated.
    pub open spec fn spec_participant_guid_bytes(&self, e: Endianness) -> Seq<u8> {
        match self.participant_guid {
            Some(v) => spec_parameter(PID_PARTICIPANT_GUID, spec_guid_value(v), e),
            None => Seq::empty(),
        }
    }

    /// Whether the parameter of the participant guid can be written: its value fits the
    /// length field.
    pub open spec fn spec_participant_guid_fits(&self, e: Endianness) -> bool {
        match self.participant_guid {
            Some(v) => spec_value_fits(spec_guid_value(v)),
            None => true,
        }
    }

    /// Appends the parameter of the participant guid, where it is stated and fits.
    pub fn add_participant_guid(&self, out: &mut Vec<u8>, e: Endianness) -> (ok: bool)
        ensures
            ok == self.spec_participant_guid_fits(e),
            ok ==> final(out)@ == old(out)@ + self.spec_participant_guid_bytes(e),
    {
        let ghost start = out@;
        match self.participant_guid {
            Some(v) => {
                let mut value: Vec<u8> = Vec::new();
                put_guid(&mut value, v);
                assert(value@ =~= spec_guid_value(v));
                put_parameter(out, PID_PARTICIPANT_GUID, &value, e)
            },
            None => {
                assert(out@ =~= start + Seq::<u8>::empty());
                true
            },
        }
    }

    /// The parameters of the metatraffic unicast locators: one for each locator.
    pub open spec fn spec_metatraffic_unicast_locators_bytes(&self, e: Endianness) -> Seq<u8> {
        match self.metatraffic_unicast_locators {
            Some(list) => spec_locators_parameters(PID_METATRAFFIC_UNICAST_LOCATOR, list@, list@.len() as int, e),
            None => Seq::empty(),
        }
    }

    /// Whether the parameters of the metatraffic unicast locators can be written.
    pub open spec fn spec_metatraffic_unicast_locators_fits(&self, e: Endianness) -> bool {
        true
    }

    /// Appends the parameters of the metatraffic unicast locators.
    pub fn add_metatraffic_unicast_locators(&self, out: &mut Vec<u8>, e: Endianness) -> (ok: bool)
        ensures
            ok == self.spec_metatraffic_unicast_locators_fits(e),
            ok ==> final(out)@ == old(out)@ + self.spec_metatraffic_unicast_locators_bytes(e),
    {
        let ghost start = out@;
        match self.metatraffic_unicast_locators {
            Some(list) => {
                put_locators(out, PID_METATRAFFIC_UNICAST_LOCATOR, list, e);
            },
            None => {
                assert(out@ =~= start + Seq::<u8>::empty());
            },
        }
        true
    }

    /// The parameters of the metatraffic multicast locators: one for each locator.
    pub open spec fn spec_metatraffic_multicast_locators_bytes(&self, e: Endianness) -> Seq<u8> {
        match self.metatraffic_multicast_locators {
            Some(list) => spec_locators_parameters(PID_METATRAFFIC_MULTICAST_LOCATOR, list@, list@.len() as int, e),
            None => Seq::empty(),
        }
    }

    /// Whether the parameters of the metatraffic multicast locators can be written.
    pub open spec fn spec_metatraffic_multicast_locators_fits(&self, e: Endianness) -> bool {
        true
    }

    /// Appends the parameters of the metatraffic multicast locators.
    pub fn add_metatraffic_multicast_locators(&self, out: &mut Vec<u8>, e: Endianness) -> (ok: bool)
        ensures
            ok == self.spec_metatraffic_multicast_locators_fits(e),
            ok ==> final(out)@ == old(out)@ + self.spec_metatraffic_multicast_locators_bytes(e),
    {
        let ghost start = out@;
        match self.metatraffic_multicast_locators {
            Some(list) => {
                put_locators(out, PID_METATRAFFIC_MULTICAST_LOCATOR, list, e);
            },
            None => {
                assert(out@ =~= start + Seq::<u8>::empty());
            },
        }
        true
    }

    /// The parameters of the default unicast locators: one for each locator.
    pub open spec fn spec_default_unicast_locators_bytes(&self, e: Endianness) -> Seq<u8> {
        match self.default_unicast_locators {
            Some(list) => spec_locators_parameters(PID_DEFAULT_UNICAST_LOCATOR, list@, list@.len() as int, e),
            None => Seq::empty(),
        }
    }

    /// Whether the parameters of the default unicast locators can be written.
    pub open spec fn spec_default_unicast_locators_fits(&self, e: Endianness) -> bool {
        true
    }

    /// Appends the parameters of the default unicast locators.
    pub fn add_default_unicast_locators(&self, out: &mut Vec<u8>, e: Endianness) -> (ok: bool)
        ensures
            ok == self.spec_default_unicast_locators_fits(e),
            ok ==> final(out)@ == old(out)@ + self.spec_default_unicast_locators_bytes(e),
    {
        let ghost start = out@;
        match self.default_unicast_locators {
            Some(list) => {
                put_locators(out, PID_DEFAULT_UNICAST_LOCATOR, list, e);
            },
            None => {
                assert(out@ =~= start + Seq::<u8>::empty());
            },
        }
        true
    }

    /// The parameters of the default multicast locators: one for each locator.
    pub open spec fn spec_default_multicast_locators_bytes(&self, e: Endianness) -> Seq<u8> {
        match self.default_multicast_locators {
            Some(list) => spec_locators_parameters(PID_DEFAULT_MULTICAST_LOCATOR, list@, list@.len() as int, e),
            None => Seq::empty(),
        }
    }

    /// Whether the parameters of the default multicast locators can be written.
    pub open spec fn spec_default_multicast_locators_fits(&self, e: Endianness) -> bool {
        true
    }

    /// Appends the parameters of the default multicast locators.
    pub fn add_default_multicast_locators(&self, out: &mut Vec<u8>, e: Endianness) -> (ok: bool)
        ensures
            ok == self.spec_default_multicast_locators_fits(e),
            ok ==> final(out)@ == old(out)@ + self.spec_default_multicast_locators_bytes(e),
    {
        let ghost start = out@;
        match self.default_multicast_locators {
            Some(list) => {
                put_locators(out, PID_DEFAULT_MULTICAST_LOCATOR, list, e);
            },
            None => {
                assert(out@ =~= start + Seq::<u8>::empty());
            },
        }
        true
    }

    /// The parameter of the available builtin endpoints, where it is stated.
    pub open spec fn spec_available_builtin_endpoints_bytes(&self, e: Endianness) -> Seq<u8> {
        match self.available_builtin_endpoints {
            Some(v) => spec_parameter(PID_BUILTIN_ENDPOINT_SET, spec_u32_value(v.value, e), e),
            None => Seq::empty(),
        }
    }

    /// Whether the parameter of the available builtin endpoints can be written: its value fits the
    /// length field.
    pub open spec fn spec_available_builtin_endpoints_fits(&self, e: Endianness) -> bool {
        match self.available_builtin_endpoints {
            Some(v) => spec_value_fits(spec_u32_value(v.value, e)),
            None => true,
        }
    }

    /// Appends the parameter of the available builtin endpoints, where it is stated and fits.
    pub fn add_available_builtin_endpoints(&self, out: &mut Vec<u8>, e: Endianness) -> (ok: bool)
        ensures
            ok == self.spec_available_builtin_endpoints_fits(e),
            ok ==> final(out)@ == old(out)@ + self.spec_available_builtin_endpoints_bytes(e),
    {
        let ghost start = out@;
        match self.available_builtin_endpoints {
            Some(v) => {
                let mut value: Vec<u8> = Vec::new();
                write_u32(&mut value, v.value, e);
                assert(value@ =~= spec_u32_value(v.value, e));
                put_parameter(out, PID_BUILTIN_ENDPOINT_SET, &value, e)
            },
            None => {
                assert(out@ =~= start + Seq::<u8>::empty());
                true
            },
        }
    }

    /// The parameter of the lease duration, where it is stated.
    pub open spec fn spec_lease_duration_bytes(&self, e: Endianness) -> Seq<u8> {
        match self.lease_duration {
            Some(v) => spec_parameter(PID_PARTICIPANT_LEASE_DURATION, spec_duration_value(v, e), e),
            None => Seq::empty(),
        }
    }

    /// Whether the parameter of the lease duration can be written: its value fits the
    /// length field.
    pub open spec fn spec_lease_duration_fits(&self, e: Endianness) -> bool {
        match self.lease_duration {
            Some(v) => spec_value_fits(spec_duration_value(v, e)),
            None => true,
        }
    }

    /// Appends the parameter of the lease duration, where it is stated and fits.
    pub fn add_lease_duration(&self, out: &mut Vec<u8>, e: Endianness) -> (ok: bool)
        ensures
            ok == self.spec_lease_duration_fits(e),
            ok ==> final(out)@ == old(out)@ + self.spec_lease_duration_bytes(e),
    {
        let ghost start = out@;
        match self.lease_duration {
            Some(v) => {
                let mut value: Vec<u8> = Vec::new();
                put_duration(&mut value, v, e);
                assert(value@ =~= spec_duration_value(v, e));
                put_parameter(out, PID_PARTICIPANT_LEASE_DURATION, &value, e)
            },
            None => {
                assert(out@ =~= start + Seq::<u8>::empty());
                true
            },
        }
    }

    /// The parameter of the manual liveliness count, where it is stated.
    pub open spec fn spec_manual_liveliness_count_bytes(&self, e: Endianness) -> Seq<u8> {
        match self.manual_liveliness_count {
            Some(v) => spec_parameter(PID_PARTICIPANT_MANUAL_LIVELINESS_COUNT, spec_i32_value(v, e), e),
            None => Seq::empty(),
        }
    }

    /// Whether the parameter of the manual liveliness count can be written: its value fits the
    /// length field.
    pub open spec fn spec_manual_liveliness_count_fits(&self, e: Endianness) -> bool {
        match self.manual_liveliness_count {
            Some(v) => spec_value_fits(spec_i32_value(v, e)),
            None => true,
        }
    }

    /// Appends the parameter of the manual liveliness count, where it is stated and fits.
    pub fn add_manual_liveliness_count(&self, out: &mut Vec<u8>, e: Endianness) -> (ok: bool)
        ensures
            ok == self.spec_manual_liveliness_count_fits(e),
            ok ==> final(out)@ == old(out)@ + self.spec_manual_liveliness_count_bytes(e),
    {
        let ghost start = out@;
        match self.manual_liveliness_count {
            Some(v) => {
                let mut value: Vec<u8> = Vec::new();
                put_i32(&mut value, v, e);
                assert(value@ =~= spec_i32_value(v, e));
                put_parameter(out, PID_PARTICIPANT_MANUAL_LIVELINESS_COUNT, &value, e)
            },
            None => {
                assert(out@ =~= start + Seq::<u8>::empty());
                true
            },
        }
    }

    /// The parameter of the builtin endpoint qos, where it is stated.
    pub open spec fn spec_builtin_endpoint_qos_bytes(&self, e: Endianness) -> Seq<u8> {
        match self.builtin_endpoint_qos {
            Some(v) => spec_parameter(PID_BUILTIN_ENDPOINT_QOS, spec_u32_value(v.value, e), e),
            None => Seq::empty(),
        }
    }

    /// Whether the parameter of the builtin endpoint qos can be written: its value fits the
    /// length field.
    pub open spec fn spec_builtin_endpoint_qos_fits(&self, e: Endianness) -> bool {
        match self.builtin_endpoint_qos {
            Some(v) => spec_value_fits(spec_u32_value(v.value, e)),
            None => true,
        }
    }

    /// Appends the parameter of the builtin endpoint qos, where it is stated and fits.
    pub fn add_builtin_endpoint_qos(&self, out: &mut Vec<u8>, e: Endianness) -> (ok: bool)
        ensures
            ok == self.spec_builtin_endpoint_qos_fits(e),
            ok ==> final(out)@ == old(out)@ + self.spec_builtin_endpoint_qos_bytes(e),
    {
        let ghost start = out@;
        match self.builtin_endpoint_qos {
            Some(v) => {
                let mut value: Vec<u8> = Vec::new();
                write_u32(&mut value, v.value, e);
                assert(value@ =~= spec_u32_value(v.value, e));
                put_parameter(out, PID_BUILTIN_ENDPOINT_QOS, &value, e)
            },
            None => {
                assert(out@ =~= start + Seq::<u8>::empty());
                true
            },
        }
    }

    /// The parameter of the entity name, where it is stated.
    pub open spec fn spec_entity_name_bytes(&self, e: Endianness) -> Seq<u8> {
        match self.entity_name {
            Some(v) => spec_parameter(PID_ENTITY_NAME, spec_string_value(vstd::utf8::encode_utf8(v@), e), e),
            None => Seq::empty(),
        }
    }

    /// Whether the parameter of the entity name can be written: its value fits the
    /// length field.
    pub open spec fn spec_entity_name_fits(&self, e: Endianness) -> bool {
        match self.entity_name {
            Some(v) => vstd::utf8::encode_utf8(v@).len() < u32::MAX && spec_value_fits(spec_string_value(vstd::utf8::encode_utf8(v@), e)),
            None => true,
        }
    }

    /// Appends the parameter of the entity name, where it is stated and fits.
    pub fn add_entity_name(&self, out: &mut Vec<u8>, e: Endianness) -> (ok: bool)
        ensures
            ok == self.spec_entity_name_fits(e),
            ok ==> final(out)@ == old(out)@ + self.spec_entity_name_bytes(e),
    {
        let ghost start = out@;
        match self.entity_name {
            Some(v) => {
                let mut value: Vec<u8> = Vec::new();
                if !put_string(&mut value, v, e) {
                    return false;
                }
                assert(value@ =~= spec_string_value(vstd::utf8::encode_utf8(v@), e));
                put_parameter(out, PID_ENTITY_NAME, &value, e)
            },
            None => {
                assert(out@ =~= start + Seq::<u8>::empty());
                true
            },
        }
    }

    /// The parameter of the endpoint guid, where it is stated.
    pub open spec fn spec_endpoint_guid_bytes(&self, e: Endianness) -> Seq<u8> {
        match self.endpoint_guid {
            Some(v) => spec_parameter(PID_ENDPOINT_GUID, spec_guid_value(v), e),
            None => Seq::empty(),
        }
    }

    /// Whether the parameter of the endpoint guid can be written: its value fits the
    /// length field.
    pub open spec fn spec_endpoint_guid_fits(&self, e: Endianness) -> bool {
        match self.endpoint_guid {
            Some(v) => spec_value_fits(spec_guid_value(v)),
            None => true,
        }
    }

    /// Appends the parameter of the endpoint guid, where it is stated and fits.
    pub fn add_endpoint_guid(&self, out: &mut Vec<u8>, e: Endianness) -> (ok: bool)
        ensures
            ok == self.spec_endpoint_guid_fits(e),
            ok ==> final(out)@ == old(out)@ + self.spec_endpoint_guid_bytes(e),
    {
        let ghost start = out@;
        match self.endpoint_guid {
            Some(v) => {
                let mut value: Vec<u8> = Vec::new();
                put_guid(&mut value, v);
                assert(value@ =~= spec_guid_value(v));
                put_parameter(out, PID_ENDPOINT_GUID, &value, e)
            },
            None => {
                assert(out@ =~= start + Seq::<u8>::empty());
                true
            },
        }
    }

    /// The parameters of the unicast locator list: one for each locator.
    pub open spec fn spec_unicast_locator_list_bytes(&self, e: Endianness) -> Seq<u8> {
        match self.unicast_locator_list {
            Some(list) => spec_locators_parameters(PID_UNICAST_LOCATOR, list@, list@.len() as int, e),
            None => Seq::empty(),
        }
    }

    /// Whether the parameters of the unicast locator list can be written.
    pub open spec fn spec_unicast_locator_list_fits(&self, e: Endianness) -> bool {
        true
    }

    /// Appends the parameters of the unicast locator list.
    pub fn add_unicast_locator_list(&self, out: &mut Vec<u8>, e: Endianness) -> (ok: bool)
        ensures
            ok == self.spec_unicast_locator_list_fits(e),
            ok ==> final(out)@ == old(out)@ + self.spec_unicast_locator_list_bytes(e),
    {
        let ghost start = out@;
        match self.unicast_locator_list {
            Some(list) => {
                put_locators(out, PID_UNICAST_LOCATOR, list, e);
            },
            None => {
                assert(out@ =~= start + Seq::<u8>::empty());
            },
        }
        true
    }

    /// The parameters of the multicast locator list: one for each locator.
    pub open spec fn spec_multicast_locator_list_bytes(&self, e: Endianness) -> Seq<u8> {
        match self.multicast_locator_list {
            Some(list) => spec_locators_parameters(PID_MULTICAST_LOCATOR, list@, list@.len() as int, e),
            None => Seq::empty(),
        }
    }

    /// Whether the parameters of the multicast locator list can be written.
    pub open spec fn spec_multicast_locator_list_fits(&self, e: Endianness) -> bool {
        true
    }

    /// Appends the parameters of the multicast locator list.
    pub fn add_multicast_locator_list(&self, out: &mut Vec<u8>, e: Endianness) -> (ok: bool)
        ensures
            ok == self.spec_multicast_locator_list_fits(e),
            ok ==> final(out)@ == old(out)@ + self.spec_multicast_locator_list_bytes(e),
    {
        let ghost start = out@;
        match self.multicast_locator_list {
            Some(list) => {
                put_locators(out, PID_MULTICAST_LOCATOR, list, e);
            },
            None => {
                assert(out@ =~= start + Seq::<u8>::empty());
            },
        }
        true
    }

    /// The parameter of the data max size serialized, where it is stated.
    pub open spec fn spec_data_max_size_serialized_bytes(&self, e: Endianness) -> Seq<u8> {
        match self.data_max_size_serialized {
            Some(v) => spec_parameter(PID_TYPE_MAX_SIZE_SERIALIZED, spec_u32_value(v, e), e),
            None => Seq::empty(),
        }
    }

    /// Whether the parameter of the data max size serialized can be written: its value fits the
    /// length field.
    pub open spec fn spec_data_max_size_serialized_fits(&self, e: Endianness) -> bool {
        match self.data_max_size_serialized {
            Some(v) => spec_value_fits(spec_u32_value(v, e)),
            None => true,
        }
    }

    /// Appends the parameter of the data max size serialized, where it is stated and fits.
    pub fn add_data_max_size_serialized(&self, out: &mut Vec<u8>, e: Endianness) -> (ok: bool)
        ensures
            ok == self.spec_data_max_size_serialized_fits(e),
            ok ==> final(out)@ == old(out)@ + self.spec_data_max_size_serialized_bytes(e),
    {
        let ghost start = out@;
        match self.data_max_size_serialized {
            Some(v) => {
                let mut value: Vec<u8> = Vec::new();
                write_u32(&mut value, v, e);
                assert(value@ =~= spec_u32_value(v, e));
                put_parameter(out, PID_TYPE_MAX_SIZE_SERIALIZED, &value, e)
            },
            None => {
                assert(out@ =~= start + Seq::<u8>::empty());
                true
            },
        }
    }

    /// The parameter of the topic name, where it is stated.
    pub open spec fn spec_topic_name_bytes(&self, e: Endianness) -> Seq<u8> {
        match self.topic_name {
            Some(v) => spec_parameter(PID_TOPIC_NAME, spec_string_value(vstd::utf8::encode_utf8(v@), e), e),
            None => Seq::empty(),
        }
    }

    /// Whether the parameter of the topic name can be written: its value fits the
    /// length field.
    pub open spec fn spec_topic_name_fits(&self, e: Endianness) -> bool {
        match self.topic_name {
            Some(v) => vstd::utf8::encode_utf8(v@).len() < u32::MAX && spec_value_fits(spec_string_value(vstd::utf8::encode_utf8(v@), e)),
            None => true,
        }
    }

    /// Appends the parameter of the topic name, where it is stated and fits.
    pub fn add_topic_name(&self, out: &mut Vec<u8>, e: Endianness) -> (ok: bool)
        ensures
            ok == self.spec_topic_name_fits(e),
            ok ==> final(out)@ == old(out)@ + self.spec_topic_name_bytes(e),
    {
        let ghost start = out@;
        match self.topic_name {
            Some(v) => {
                let mut value: Vec<u8> = Vec::new();
                if !put_string(&mut value, v, e) {
                    return false;
                }
                assert(value@ =~= spec_string_value(vstd::utf8::encode_utf8(v@), e));
                put_parameter(out, PID_TOPIC_NAME, &value, e)
            },
            None => {
                assert(out@ =~= start + Seq::<u8>::empty());
                true
            },
        }
    }

    /// The parameter of the data type name, where it is stated.
    pub open spec fn spec_data_type_name_bytes(&self, e: Endianness) -> Seq<u8> {
        match self.data_type_name {
            Some(v) => spec_parameter(PID_TYPE_NAME, spec_string_value(vstd::utf8::encode_utf8(v@), e), e),
            None => Seq::empty(),
        }
    }

    /// Whether the parameter of the data type name can be written: its value fits the
    /// length field.
    pub open spec fn spec_data_type_name_fits(&self, e: Endianness) -> bool {
        match self.data_type_name {
            Some(v) => vstd::utf8::encode_utf8(v@).len() < u32::MAX && spec_value_fits(spec_string_value(vstd::utf8::encode_utf8(v@), e)),
            None => true,
        }
    }

    /// Appends the parameter of the data type name, where it is stated and fits.
    pub fn add_data_type_name(&self, out: &mut Vec<u8>, e: Endianness) -> (ok: bool)
        ensures
            ok == self.spec_data_type_name_fits(e),
            ok ==> final(out)@ == old(out)@ + self.spec_data_type_name_bytes(e),
    {
        let ghost start = out@;
        match self.data_type_name {
            Some(v) => {
                let mut value: Vec<u8> = Vec::new();
                if !put_string(&mut value, v, e) {
                    return false;
                }
                assert(value@ =~= spec_string_value(vstd::utf8::encode_utf8(v@), e));
                put_parameter(out, PID_TYPE_NAME, &value, e)
            },
            None => {
                assert(out@ =~= start + Seq::<u8>::empty());
                true
            },
        }
    }

    /// The parameter of the durability, where it is stated.
    pub open spec fn spec_durability_bytes(&self, e: Endianness) -> Seq<u8> {
        match self.durability {
            Some(v) => spec_parameter(PID_DURABILITY, spec_u32_value(v.spec_rank() as u32, e), e),
            None => Seq::empty(),
        }
    }

    /// Whether the parameter of the durability can be written: its value fits the
    /// length field.
    pub open spec fn spec_durability_fits(&self, e: Endianness) -> bool {
        match self.durability {
            Some(v) => spec_value_fits(spec_u32_value(v.spec_rank() as u32, e)),
            None => true,
        }
    }

    /// Appends the parameter of the durability, where it is stated and fits.
    pub fn add_durability(&self, out: &mut Vec<u8>, e: Endianness) -> (ok: bool)
        ensures
            ok == self.spec_durability_fits(e),
            ok ==> final(out)@ == old(out)@ + self.spec_durability_bytes(e),
    {
        let ghost start = out@;
        match self.durability {
            Some(v) => {
                let mut value: Vec<u8> = Vec::new();
                write_u32(&mut value, v.rank() as u32, e);
                assert(value@ =~= spec_u32_value(v.spec_rank() as u32, e));
                put_parameter(out, PID_DURABILITY, &value, e)
            },
            None => {
                assert(out@ =~= start + Seq::<u8>::empty());
                true
            },
        }
    }

    /// The parameter of the deadline, where it is stated.
    pub open spec fn spec_deadline_bytes(&self, e: Endianness) -> Seq<u8> {
        match self.deadline {
            Some(v) => spec_parameter(PID_DEADLINE, spec_duration_value(v.0, e), e),
            None => Seq::empty(),
        }
    }

    /// Whether the parameter of the deadline can be written: its value fits the
    /// length field.
    pub open spec fn spec_deadline_fits(&self, e: Endianness) -> bool {
        match self.deadline {
            Some(v) => spec_value_fits(spec_duration_value(v.0, e)),
            None => true,
        }
    }

    /// Appends the parameter of the deadline, where it is stated and fits.
    pub fn add_deadline(&self, out: &mut Vec<u8>, e: Endianness) -> (ok: bool)
        ensures
            ok == self.spec_deadline_fits(e),
            ok ==> final(out)@ == old(out)@ + self.spec_deadline_bytes(e),
    {
        let ghost start = out@;
        match self.deadline {
            Some(v) => {
                let mut value: Vec<u8> = Vec::new();
                put_duration(&mut value, v.0, e);
                assert(value@ =~= spec_duration_value(v.0, e));
                put_parameter(out, PID_DEADLINE, &value, e)
            },
            None => {
                assert(out@ =~= start + Seq::<u8>::empty());
                true
            },
        }
    }

    /// The parameter of the latency budget, where it is stated.
    pub open spec fn spec_latency_budget_bytes(&self, e: Endianness) -> Seq<u8> {
        match self.latency_budget {
            Some(v) => spec_parameter(PID_LATENCY_BUDGET, spec_duration_value(v.duration, e), e),
            None => Seq::empty(),
        }
    }

    /// Whether the parameter of the latency budget can be written: its value fits the
    /// length field.
    pub open spec fn spec_latency_budget_fits(&self, e: Endianness) -> bool {
        match self.latency_budget {
            Some(v) => spec_value_fits(spec_duration_value(v.duration, e)),
            None => true,
        }
    }

    /// Appends the parameter of the latency budget, where it is stated and fits.
    pub fn add_latency_budget(&self, out: &mut Vec<u8>, e: Endianness) -> (ok: bool)
        ensures
            ok == self.spec_latency_budget_fits(e),
            ok ==> final(out)@ == old(out)@ + self.spec_latency_budget_bytes(e),
    {
        let ghost start = out@;
        match self.latency_budget {
            Some(v) => {
                let mut value: Vec<u8> = Vec::new();
                put_duration(&mut value, v.duration, e);
                assert(value@ =~= spec_duration_value(v.duration, e));
                put_parameter(out, PID_LATENCY_BUDGET, &value, e)
            },
            None => {
                assert(out@ =~= start + Seq::<u8>::empty());
                true
            },
        }
    }

    /// The parameter of the liveliness, where it is stated.
    pub open spec fn spec_liveliness_bytes(&self, e: Endianness) -> Seq<u8> {
        match self.liveliness {
            Some(v) => spec_parameter(PID_LIVELINESS, spec_liveliness_value(v, e), e),
            None => Seq::empty(),
        }
    }

    /// Whether the parameter of the liveliness can be written: its value fits the
    /// length field.
    pub open spec fn spec_liveliness_fits(&self, e: Endianness) -> bool {
        match self.liveliness {
            Some(v) => spec_value_fits(spec_liveliness_value(v, e)),
            None => true,
        }
    }

    /// Appends the parameter of the liveliness, where it is stated and fits.
    pub fn add_liveliness(&self, out: &mut Vec<u8>, e: Endianness) -> (ok: bool)
        ensures
            ok == self.spec_liveliness_fits(e),
            ok ==> final(out)@ == old(out)@ + self.spec_liveliness_bytes(e),
    {
        let ghost start = out@;
        match self.liveliness {
            Some(v) => {
                let mut value: Vec<u8> = Vec::new();
                write_u32(&mut value, v.rank() as u32, e);
                put_duration(&mut value, v.lease_duration(), e);
                assert(value@ =~= spec_liveliness_value(v, e));
                put_parameter(out, PID_LIVELINESS, &value, e)
            },
            None => {
                assert(out@ =~= start + Seq::<u8>::empty());
                true
            },
        }
    }

    /// The parameter of the reliability, where it is stated.
    pub open spec fn spec_reliability_bytes(&self, e: Endianness) -> Seq<u8> {
        match self.reliability {
            Some(v) => spec_parameter(PID_RELIABILITY, spec_reliability_value(v, e), e),
            None => Seq::empty(),
        }
    }

    /// Whether the parameter of the reliability can be written: its value fits the
    /// length field.
    pub open spec fn spec_reliability_fits(&self, e: Endianness) -> bool {
        match self.reliability {
            Some(v) => spec_value_fits(spec_reliability_value(v, e)),
            None => true,
        }
    }

    /// Appends the parameter of the reliability, where it is stated and fits.
    pub fn add_reliability(&self, out: &mut Vec<u8>, e: Endianness) -> (ok: bool)
        ensures
            ok == self.spec_reliability_fits(e),
            ok ==> final(out)@ == old(out)@ + self.spec_reliability_bytes(e),
    {
        let ghost start = out@;
        match self.reliability {
            Some(v) => {
                let mut value: Vec<u8> = Vec::new();
                put_reliability(&mut value, v, e);
                assert(value@ =~= spec_reliability_value(v, e));
                put_parameter(out, PID_RELIABILITY, &value, e)
            },
            None => {
                assert(out@ =~= start + Seq::<u8>::empty());
                true
            },
        }
    }

    /// The parameters of the ownership policy: its kind, and for exclusive
    /// ownership the strength.
    pub open spec fn spec_ownership_bytes(&self, e: Endianness) -> Seq<u8> {
        match self.ownership {
            Some(Ownership::Shared) => spec_parameter(PID_OWNERSHIP, spec_u32_value(0, e), e),
            Some(Ownership::Exclusive { strength }) => spec_parameter(
                PID_OWNERSHIP,
                spec_u32_value(1, e),
                e,
            ) + spec_parameter(PID_OWNERSHIP_STRENGTH, spec_i32_value(strength, e), e),
            None => Seq::empty(),
        }
    }

    /// Whether the parameters of the ownership policy can be written.
    pub open spec fn spec_ownership_fits(&self, e: Endianness) -> bool {
        true
    }

    /// Appends the parameters of the ownership policy.
    pub fn add_ownership(&self, out: &mut Vec<u8>, e: Endianness) -> (ok: bool)
        ensures
            ok == self.spec_ownership_fits(e),
            ok ==> final(out)@ == old(out)@ + self.spec_ownership_bytes(e),
    {
        let ghost start = out@;
        proof {
            crate::serialization::byte_order::lemma_le_bytes_len(0, 4);
            crate::serialization::byte_order::lemma_le_bytes_len(1, 4);
        }
        match self.ownership {
            Some(Ownership::Shared) => {
                let mut value: Vec<u8> = Vec::new();
                write_u32(&mut value, 0, e);
                assert(value@ =~= spec_u32_value(0, e));
                let _ok = put_parameter(out, PID_OWNERSHIP, &value, e);
            },
            Some(Ownership::Exclusive { strength }) => {
                let mut value: Vec<u8> = Vec::new();
                write_u32(&mut value, 1, e);
                assert(value@ =~= spec_u32_value(1, e));
                let _ok = put_parameter(out, PID_OWNERSHIP, &value, e);
                let mut strength_value: Vec<u8> = Vec::new();
                put_i32(&mut strength_value, strength, e);
                assert(strength_value@ =~= spec_i32_value(strength, e));
                proof {
                    crate::serialization::byte_order::lemma_le_bytes_len(
                        spec_unsigned(strength as int, 4),
                        4,
                    );
                }
                let _ok = put_parameter(out, PID_OWNERSHIP_STRENGTH, &strength_value, e);
                assert(out@ =~= start + self.spec_ownership_bytes(e));
            },
            None => {
                assert(out@ =~= start + Seq::<u8>::empty());
            },
        }
        true
    }

    /// The parameter of the destination order, where it is stated.
    pub open spec fn spec_destination_order_bytes(&self, e: Endianness) -> Seq<u8> {
        match self.destination_order {
            Some(v) => spec_parameter(PID_DESTINATION_ORDER, spec_u32_value(v.spec_rank() as u32, e), e),
            None => Seq::empty(),
        }
    }

    /// Whether the parameter of the destination order can be written: its value fits the
    /// length field.
    pub open spec fn spec_destination_order_fits(&self, e: Endianness) -> bool {
        match self.destination_order {
            Some(v) => spec_value_fits(spec_u32_value(v.spec_rank() as u32, e)),
            None => true,
        }
    }

    /// Appends the parameter of the destination order, where it is stated and fits.
    pub fn add_destination_order(&self, out: &mut Vec<u8>, e: Endianness) -> (ok: bool)
        ensures
            ok == self.spec_destination_order_fits(e),
            ok ==> final(out)@ == old(out)@ + self.spec_destination_order_bytes(e),
    {
        let ghost start = out@;
        match self.destination_order {
            Some(v) => {
                let mut value: Vec<u8> = Vec::new();
                write_u32(&mut value, v.rank() as u32, e);
                assert(value@ =~= spec_u32_value(v.spec_rank() as u32, e));
                put_parameter(out, PID_DESTINATION_ORDER, &value, e)
            },
            None => {
                assert(out@ =~= start + Seq::<u8>::empty());
                true
            },
        }
    }

    /// The parameter of the time based filter, where it is stated.
    pub open spec fn spec_time_based_filter_bytes(&self, e: Endianness) -> Seq<u8> {
        match self.time_based_filter {
            Some(v) => spec_parameter(PID_TIME_BASED_FILTER, spec_duration_value(v.minimum_separation, e), e),
            None => Seq::empty(),
        }
    }

    /// Whether the parameter of the time based filter can be written: its value fits the
    /// length field.
    pub open spec fn spec_time_based_filter_fits(&self, e: Endianness) -> bool {
        match self.time_based_filter {
            Some(v) => spec_value_fits(spec_duration_value(v.minimum_separation, e)),
            None => true,
        }
    }

    /// Appends the parameter of the time based filter, where it is stated and fits.
    pub fn add_time_based_filter(&self, out: &mut Vec<u8>, e: Endianness) -> (ok: bool)
        ensures
            ok == self.spec_time_based_filter_fits(e),
            ok ==> final(out)@ == old(out)@ + self.spec_time_based_filter_bytes(e),
    {
        let ghost start = out@;
        match self.time_based_filter {
            Some(v) => {
                let mut value: Vec<u8> = Vec::new();
                put_duration(&mut value, v.minimum_separation, e);
                assert(value@ =~= spec_duration_value(v.minimum_separation, e));
                put_parameter(out, PID_TIME_BASED_FILTER, &value, e)
            },
            None => {
                assert(out@ =~= start + Seq::<u8>::empty());
                true
            },
        }
    }

    /// The parameter of the presentation, where it is stated.
    pub open spec fn spec_presentation_bytes(&self, e: Endianness) -> Seq<u8> {
        match self.presentation {
            Some(v) => spec_parameter(PID_PRESENTATION, spec_presentation_value(v, e), e),
            None => Seq::empty(),
        }
    }

    /// Whether the parameter of the presentation can be written: its value fits the
    /// length field.
    pub open spec fn spec_presentation_fits(&self, e: Endianness) -> bool {
        match self.presentation {
            Some(v) => spec_value_fits(spec_presentation_value(v, e)),
            None => true,
        }
    }

    /// Appends the parameter of the presentation, where it is stated and fits.
    pub fn add_presentation(&self, out: &mut Vec<u8>, e: Endianness) -> (ok: bool)
        ensures
            ok == self.spec_presentation_fits(e),
            ok ==> final(out)@ == old(out)@ + self.spec_presentation_bytes(e),
    {
        let ghost start = out@;
        match self.presentation {
            Some(v) => {
                let mut value: Vec<u8> = Vec::new();
                write_u32(&mut value, v.access_scope.rank() as u32, e);
                value.push(if v.coherent_access {
                    1u8
                } else {
                    0u8
                });
                value.push(if v.ordered_access {
                    1u8
                } else {
                    0u8
                });
                value.push(0);
                value.push(0);
                assert(value@ =~= spec_presentation_value(v, e));
                put_parameter(out, PID_PRESENTATION, &value, e)
            },
            None => {
                assert(out@ =~= start + Seq::<u8>::empty());
                true
            },
        }
    }

    /// The parameter of the lifespan, where it is stated.
    pub open spec fn spec_lifespan_bytes(&self, e: Endianness) -> Seq<u8> {
        match self.lifespan {
            Some(v) => spec_parameter(PID_LIFESPAN, spec_duration_value(v.duration, e), e),
            None => Seq::empty(),
        }
    }

    /// Whether the parameter of the lifespan can be written: its value fits the
    /// length field.
    pub open spec fn spec_lifespan_fits(&self, e: Endianness) -> bool {
        match self.lifespan {
            Some(v) => spec_value_fits(spec_duration_value(v.duration, e)),
            None => true,
        }
    }

    /// Appends the parameter of the lifespan, where it is stated and fits.
    pub fn add_lifespan(&self, out: &mut Vec<u8>, e: Endianness) -> (ok: bool)
        ensures
            ok == self.spec_lifespan_fits(e),
            ok ==> final(out)@ == old(out)@ + self.spec_lifespan_bytes(e),
    {
        let ghost start = out@;
        match self.lifespan {
            Some(v) => {
                let mut value: Vec<u8> = Vec::new();
                put_duration(&mut value, v.duration, e);
                assert(value@ =~= spec_duration_value(v.duration, e));
                put_parameter(out, PID_LIFESPAN, &value, e)
            },
            None => {
                assert(out@ =~= start + Seq::<u8>::empty());
                true
            },
        }
    }

    /// The parameter of the history, where it is stated.
    pub open spec fn spec_history_bytes(&self, e: Endianness) -> Seq<u8> {
        match self.history {
            Some(v) => spec_parameter(PID_HISTORY, spec_history_value(v, e), e),
            None => Seq::empty(),
        }
    }

    /// Whether the parameter of the history can be written: its value fits the
    /// length field.
    pub open spec fn spec_history_fits(&self, e: Endianness) -> bool {
        match self.history {
            Some(v) => spec_value_fits(spec_history_value(v, e)),
            None => true,
        }
    }

    /// Appends the parameter of the history, where it is stated and fits.
    pub fn add_history(&self, out: &mut Vec<u8>, e: Endianness) -> (ok: bool)
        ensures
            ok == self.spec_history_fits(e),
            ok ==> final(out)@ == old(out)@ + self.spec_history_bytes(e),
    {
        let ghost start = out@;
        match self.history {
            Some(v) => {
                let mut value: Vec<u8> = Vec::new();
                put_history(&mut value, v, e);
                assert(value@ =~= spec_history_value(v, e));
                put_parameter(out, PID_HISTORY, &value, e)
            },
            None => {
                assert(out@ =~= start + Seq::<u8>::empty());
                true
            },
        }
    }

    /// The parameter of the resource limits, where it is stated.
    pub open spec fn spec_resource_limits_bytes(&self, e: Endianness) -> Seq<u8> {
        match self.resource_limits {
            Some(v) => spec_parameter(PID_RESOURCE_LIMITS, spec_resource_limits_value(v, e), e),
            None => Seq::empty(),
        }
    }

    /// Whether the parameter of the resource limits can be written: its value fits the
    /// length field.
    pub open spec fn spec_resource_limits_fits(&self, e: Endianness) -> bool {
        match self.resource_limits {
            Some(v) => spec_value_fits(spec_resource_limits_value(v, e)),
            None => true,
        }
    }

    /// Appends the parameter of the resource limits, where it is stated and fits.
    pub fn add_resource_limits(&self, out: &mut Vec<u8>, e: Endianness) -> (ok: bool)
        ensures
            ok == self.spec_resource_limits_fits(e),
            ok ==> final(out)@ == old(out)@ + self.spec_resource_limits_bytes(e),
    {
        let ghost start = out@;
        match self.resource_limits {
            Some(v) => {
                let mut value: Vec<u8> = Vec::new();
                put_i32(&mut value, v.max_samples, e);
                put_i32(&mut value, v.max_instances, e);
                put_i32(&mut value, v.max_samples_per_instance, e);
                assert(value@ =~= spec_resource_limits_value(v, e));
                put_parameter(out, PID_RESOURCE_LIMITS, &value, e)
            },
            None => {
                assert(out@ =~= start + Seq::<u8>::empty());
                true
            },
        }
    }

    /// The parameter of the content filter property, where it is stated.
    pub open spec fn spec_content_filter_property_bytes(&self, e: Endianness) -> Seq<u8> {
        match self.content_filter_property {
            Some(v) => spec_parameter(PID_CONTENT_FILTER_PROPERTY, spec_content_filter_value(*v, e), e),
            None => Seq::empty(),
        }
    }

    /// Whether the parameter of the content filter property can be written: its value fits the
    /// length field.
    pub open spec fn spec_content_filter_property_fits(&self, e: Endianness) -> bool {
        match self.content_filter_property {
            Some(v) => spec_content_filter_fits(*v) && spec_value_fits(spec_content_filter_value(*v, e)),
            None => true,
        }
    }

    /// Appends the parameter of the content filter property, where it is stated and fits.
    pub fn add_content_filter_property(&self, out: &mut Vec<u8>, e: Endianness) -> (ok: bool)
        ensures
            ok == self.spec_content_filter_property_fits(e),
            ok ==> final(out)@ == old(out)@ + self.spec_content_filter_property_bytes(e),
    {
        let ghost start = out@;
        match self.content_filter_property {
            Some(v) => {
                let mut value: Vec<u8> = Vec::new();
                if !put_content_filter(&mut value, v, e) {
                    return false;
                }
                assert(value@ =~= spec_content_filter_value(*v, e));
                put_parameter(out, PID_CONTENT_FILTER_PROPERTY, &value, e)
            },
            None => {
                assert(out@ =~= start + Seq::<u8>::empty());
                true
            },
        }
    }

}

/// Appending is associative.
pub proof fn lemma_append(start: Seq<u8>, acc: Seq<u8>, piece: Seq<u8>)
    ensures
        (start + acc) + piece == start + (acc + piece),
{
    assert((start + acc) + piece =~= start + (acc + piece));
}

/// Appends the parameters of a list of locators under the tag `pid`.
pub fn put_locators(out: &mut Vec<u8>, pid: u16, list: &LocatorList, e: Endianness)
    ensures
        final(out)@ == old(out)@ + spec_locators_parameters(pid, list@, list@.len() as int, e),
{
    let ghost start = out@;
    let mut i: usize = 0;
    assert(out@ =~= start + spec_locators_parameters(pid, list@, 0, e));
    while i < list.len()
        invariant
            i <= list.len(),
            out@ == start + spec_locators_parameters(pid, list@, i as int, e),
        decreases list.len() - i,
    {
        let mut value: Vec<u8> = Vec::new();
        put_locator(&mut value, list[i], e);
        assert(value@ =~= spec_locator_value(list@[i as int], e));
        proof {
            lemma_locator_length(list@[i as int], e);
        }
        let ghost before = out@;
        let _ok = put_parameter(out, pid, &value, e);
        assert(out@ =~= start + spec_locators_parameters(pid, list@, i as int + 1, e));
        i += 1;
    }
}

/// A locator has 24 bytes.
pub proof fn lemma_locator_length(l: Locator, e: Endianness)
    ensures
        spec_locator_value(l, e).len() == 24,
{
    crate::serialization::byte_order::lemma_le_bytes_len(spec_unsigned(l.kind as int, 4), 4);
    crate::serialization::byte_order::lemma_le_bytes_len(l.port as nat, 4);
    crate::serialization::byte_order::lemma_le_bytes_len(
        (l.address / 0x1_0000_0000_0000_0000) as nat,
        8,
    );
    crate::serialization::byte_order::lemma_le_bytes_len(
        (l.address % 0x1_0000_0000_0000_0000) as nat,
        8,
    );
}

/// Appends the bytes of a reliability policy.
pub fn put_reliability(out: &mut Vec<u8>, r: Reliability, e: Endianness)
    ensures
        final(out)@ == old(out)@ + spec_reliability_value(r, e),
{
    let ghost start = out@;
    match r {
        Reliability::BestEffort => {
            write_u32(out, RELIABILITY_KIND_BEST_EFFORT, e);
            put_duration(out, Duration::zero(), e);
        },
        Reliability::Reliable { max_blocking_time } => {
            write_u32(out, RELIABILITY_KIND_RELIABLE, e);
            put_duration(out, max_blocking_time, e);
        },
    }
    assert(out@ =~= start + spec_reliability_value(r, e));
}

/// Appends the bytes of a history policy.
pub fn put_history(out: &mut Vec<u8>, h: History, e: Endianness)
    ensures
        final(out)@ == old(out)@ + spec_history_value(h, e),
{
    let ghost start = out@;
    match h {
        History::KeepLast { depth } => {
            write_u32(out, 0, e);
            put_i32(out, depth, e);
        },
        History::KeepAll => {
            write_u32(out, 1, e);
            put_i32(out, 0, e);
        },
    }
    assert(out@ =~= start + spec_history_value(h, e));
}

/// Whether every string of the first `n` of a list is short enough for its
/// 32-bit length.
pub open spec fn spec_strings_fit(strings: Seq<String>, n: int) -> bool {
    forall|i: int| 0 <= i < n ==> vstd::utf8::encode_utf8((#[trigger] strings[i])@).len() < u32::MAX
}

/// Whether a content filter can be written: each of its strings is short
/// enough for its 32-bit length, and so is the number of its parameters.
pub open spec fn spec_content_filter_fits(f: ContentFilterProperty) -> bool {
    &&& vstd::utf8::encode_utf8(f.content_filtered_topic_name@).len() < u32::MAX
    &&& vstd::utf8::encode_utf8(f.related_topic_name@).len() < u32::MAX
    &&& vstd::utf8::encode_utf8(f.filter_class_name@).len() < u32::MAX
    &&& vstd::utf8::encode_utf8(f.filter_expression@).len() < u32::MAX
    &&& f.expression_parameters@.len() <= u32::MAX
    &&& spec_strings_fit(f.expression_parameters@, f.expression_parameters@.len() as int)
}

/// Appends the bytes of a content filter. Where it cannot be written,
/// `false` is returned.
#[verifier::rlimit(50)]
pub fn put_content_filter(out: &mut Vec<u8>, f: &ContentFilterProperty, e: Endianness) -> (ok:
    bool)
    ensures
        ok == spec_content_filter_fits(*f),
        ok ==> final(out)@ == old(out)@ + spec_content_filter_value(*f, e),
{
    let ghost start = out@;
    let ghost s1 = spec_string_value(vstd::utf8::encode_utf8(f.content_filtered_topic_name@), e);
    let ghost s2 = spec_string_value(vstd::utf8::encode_utf8(f.related_topic_name@), e);
    let ghost s3 = spec_string_value(vstd::utf8::encode_utf8(f.filter_class_name@), e);
    let ghost s4 = spec_string_value(vstd::utf8::encode_utf8(f.filter_expression@), e);
    if !put_string(out, &f.content_filtered_topic_name, e) {
        return false;
    }
    if !put_string(out, &f.related_topic_name, e) {
        return false;
    }
    proof {
        lemma_append(start, s1, s2);
    }
    if !put_string(out, &f.filter_class_name, e) {
        return false;
    }
    proof {
        lemma_append(start, s1 + s2, s3);
    }
    if !put_string(out, &f.filter_expression, e) {
        return false;
    }
    proof {
        lemma_append(start, s1 + s2 + s3, s4);
    }
    if f.expression_parameters.len() > 0xffff_ffff {
        return false;
    }
    let ghost count = spec_u32_value(f.expression_parameters@.len() as u32, e);
    write_u32(out, f.expression_parameters.len() as u32, e);
    proof {
        lemma_append(start, s1 + s2 + s3 + s4, count);
    }
    let ghost head = s1 + s2 + s3 + s4 + count;
    let mut i: usize = 0;
    proof {
        assert(spec_strings_value(f.expression_parameters@, 0, e) =~= Seq::<u8>::empty());
        assert(head + spec_strings_value(f.expression_parameters@, 0, e) =~= head);
    }
    while i < f.expression_parameters.len()
        invariant
            i <= f.expression_parameters.len(),
            spec_strings_fit(f.expression_parameters@, i as int),
            out@ == start + (head + spec_strings_value(f.expression_parameters@, i as int, e)),
        decreases f.expression_parameters.len() - i,
    {
        let ghost so_far = spec_strings_value(f.expression_parameters@, i as int, e);
        let ghost piece = spec_string_value(
            vstd::utf8::encode_utf8(f.expression_parameters@[i as int]@),
            e,
        );
        if !put_string(out, &f.expression_parameters[i], e) {
            return false;
        }
        proof {
            lemma_append(start, head + so_far, piece);
            lemma_append(head, so_far, piece);
        }
        i += 1;
    }
    true
}

impl<'a> BuiltinDataSerializer<'a> {
    /// The parameters of the fields of a participant up to its default multicast locators.
    pub open spec fn spec_bytes_1(&self, e: Endianness) -> Seq<u8> {
        self.spec_protocol_version_bytes(e)
            + self.spec_vendor_id_bytes(e)
            + self.spec_expects_inline_qos_bytes(e)
            + self.spec_participant_guid_bytes(e)
            + self.spec_metatraffic_unicast_locators_bytes(e)
            + self.spec_metatraffic_multicast_locators_bytes(e)
            + self.spec_default_unicast_locators_bytes(e)
            + self.spec_default_multicast_locators_bytes(e)
    }

    /// Whether the parameters of the fields of a participant up to its default multicast locators can be written.
    pub open spec fn spec_fits_1(&self, e: Endianness) -> bool {
        &&& self.spec_protocol_version_fits(e)
        &&& self.spec_vendor_id_fits(e)
        &&& self.spec_expects_inline_qos_fits(e)
        &&& self.spec_participant_guid_fits(e)
        &&& self.spec_metatraffic_unicast_locators_fits(e)
        &&& self.spec_metatraffic_multicast_locators_fits(e)
        &&& self.spec_default_unicast_locators_fits(e)
        &&& self.spec_default_multicast_locators_fits(e)
    }

    /// Appends the parameters of the fields of a participant up to its default multicast locators.
    #[verifier::rlimit(50)]
    fn add_group_1(&self, out: &mut Vec<u8>, e: Endianness) -> (ok: bool)
        ensures
            ok == self.spec_fits_1(e),
            ok ==> final(out)@ == old(out)@ + self.spec_bytes_1(e),
    {
        let ghost start = out@;
        let ghost mut acc: Seq<u8> = Seq::empty();
        assert(out@ =~= start + acc);
        let ghost before = out@;
        if !self.add_protocol_version(out, e) {
            return false;
        }
        proof {
            lemma_append(start, acc, self.spec_protocol_version_bytes(e));
            acc = acc + self.spec_protocol_version_bytes(e);
        }
        let ghost before = out@;
        if !self.add_vendor_id(out, e) {
            return false;
        }
        proof {
            lemma_append(start, acc, self.spec_vendor_id_bytes(e));
            acc = acc + self.spec_vendor_id_bytes(e);
        }
        let ghost before = out@;
        if !self.add_expects_inline_qos(out, e) {
            return false;
        }
        proof {
            lemma_append(start, acc, self.spec_expects_inline_qos_bytes(e));
            acc = acc + self.spec_expects_inline_qos_bytes(e);
        }
        let ghost before = out@;
        if !self.add_participant_guid(out, e) {
            return false;
        }
        proof {
            lemma_append(start, acc, self.spec_participant_guid_bytes(e));
            acc = acc + self.spec_participant_guid_bytes(e);
        }
        let ghost before = out@;
        if !self.add_metatraffic_unicast_locators(out, e) {
            return false;
        }
        proof {
            lemma_append(start, acc, self.spec_metatraffic_unicast_locators_bytes(e));
            acc = acc + self.spec_metatraffic_unicast_locators_bytes(e);
        }
        let ghost before = out@;
        if !self.add_metatraffic_multicast_locators(out, e) {
            return false;
        }
        proof {
            lemma_append(start, acc, self.spec_metatraffic_multicast_locators_bytes(e));
            acc = acc + self.spec_metatraffic_multicast_locators_bytes(e);
        }
        let ghost before = out@;
        if !self.add_default_unicast_locators(out, e) {
            return false;
        }
        proof {
            lemma_append(start, acc, self.spec_default_unicast_locators_bytes(e));
            acc = acc + self.spec_default_unicast_locators_bytes(e);
        }
        let ghost before = out@;
        if !self.add_default_multicast_locators(out, e) {
            return false;
        }
        proof {
            lemma_append(start, acc, self.spec_default_multicast_locators_bytes(e));
            acc = acc + self.spec_default_multicast_locators_bytes(e);
        }
        assert(acc =~= self.spec_protocol_version_bytes(e) + self.spec_vendor_id_bytes(e) + self.spec_expects_inline_qos_bytes(e) + self.spec_participant_guid_bytes(e) + self.spec_metatraffic_unicast_locators_bytes(e) + self.spec_metatraffic_multicast_locators_bytes(e) + self.spec_default_unicast_locators_bytes(e) + self.spec_default_multicast_locators_bytes(e));
        true
    }

    /// The parameters of the remaining fields of a participant, and the fields of a proxy.
    pub open spec fn spec_bytes_2(&self, e: Endianness) -> Seq<u8> {
        self.spec_available_builtin_endpoints_bytes(e)
            + self.spec_lease_duration_bytes(e)
            + self.spec_manual_liveliness_count_bytes(e)
            + self.spec_builtin_endpoint_qos_bytes(e)
            + self.spec_entity_name_bytes(e)
            + self.spec_endpoint_guid_bytes(e)
            + self.spec_unicast_locator_list_bytes(e)
            + self.spec_multicast_locator_list_bytes(e)
    }

    /// Whether the parameters of the remaining fields of a participant, and the fields of a proxy can be written.
    pub open spec fn spec_fits_2(&self, e: Endianness) -> bool {
        &&& self.spec_available_builtin_endpoints_fits(e)
        &&& self.spec_lease_duration_fits(e)
        &&& self.spec_manual_liveliness_count_fits(e)
        &&& self.spec_builtin_endpoint_qos_fits(e)
        &&& self.spec_entity_name_fits(e)
        &&& self.spec_endpoint_guid_fits(e)
        &&& self.spec_unicast_locator_list_fits(e)
        &&& self.spec_multicast_locator_list_fits(e)
    }

    /// Appends the parameters of the remaining fields of a participant, and the fields of a proxy.
    #[verifier::rlimit(50)]
    fn add_group_2(&self, out: &mut Vec<u8>, e: Endianness) -> (ok: bool)
        ensures
            ok == self.spec_fits_2(e),
            ok ==> final(out)@ == old(out)@ + self.spec_bytes_2(e),
    {
        let ghost start = out@;
        let ghost mut acc: Seq<u8> = Seq::empty();
        assert(out@ =~= start + acc);
        let ghost before = out@;
        if !self.add_available_builtin_endpoints(out, e) {
            return false;
        }
        proof {
            lemma_append(start, acc, self.spec_available_builtin_endpoints_bytes(e));
            acc = acc + self.spec_available_builtin_endpoints_bytes(e);
        }
        let ghost before = out@;
        if !self.add_lease_duration(out, e) {
            return false;
        }
        proof {
            lemma_append(start, acc, self.spec_lease_duration_bytes(e));
            acc = acc + self.spec_lease_duration_bytes(e);
        }
        let ghost before = out@;
        if !self.add_manual_liveliness_count(out, e) {
            return false;
        }
        proof {
            lemma_append(start, acc, self.spec_manual_liveliness_count_bytes(e));
            acc = acc + self.spec_manual_liveliness_count_bytes(e);
        }
        let ghost before = out@;
        if !self.add_builtin_endpoint_qos(out, e) {
            return false;
        }
        proof {
            lemma_append(start, acc, self.spec_builtin_endpoint_qos_bytes(e));
            acc = acc + self.spec_builtin_endpoint_qos_bytes(e);
        }
        let ghost before = out@;
        if !self.add_entity_name(out, e) {
            return false;
        }
        proof {
            lemma_append(start, acc, self.spec_entity_name_bytes(e));
            acc = acc + self.spec_entity_name_bytes(e);
        }
        let ghost before = out@;
        if !self.add_endpoint_guid(out, e) {
            return false;
        }
        proof {
            lemma_append(start, acc, self.spec_endpoint_guid_bytes(e));
            acc = acc + self.spec_endpoint_guid_bytes(e);
        }
        let ghost before = out@;
        if !self.add_unicast_locator_list(out, e) {
            return false;
        }
        proof {
            lemma_append(start, acc, self.spec_unicast_locator_list_bytes(e));
            acc = acc + self.spec_unicast_locator_list_bytes(e);
        }
        let ghost before = out@;
        if !self.add_multicast_locator_list(out, e) {
            return false;
        }
        proof {
            lemma_append(start, acc, self.spec_multicast_locator_list_bytes(e));
            acc = acc + self.spec_multicast_locator_list_bytes(e);
        }
        assert(acc =~= self.spec_available_builtin_endpoints_bytes(e) + self.spec_lease_duration_bytes(e) + self.spec_manual_liveliness_count_bytes(e) + self.spec_builtin_endpoint_qos_bytes(e) + self.spec_entity_name_bytes(e) + self.spec_endpoint_guid_bytes(e) + self.spec_unicast_locator_list_bytes(e) + self.spec_multicast_locator_list_bytes(e));
        true
    }

    /// The parameters of the fields of a topic up to its reliability.
    pub open spec fn spec_bytes_3(&self, e: Endianness) -> Seq<u8> {
        self.spec_data_max_size_serialized_bytes(e)
            + self.spec_topic_name_bytes(e)
            + self.spec_data_type_name_bytes(e)
            + self.spec_durability_bytes(e)
            + self.spec_deadline_bytes(e)
            + self.spec_latency_budget_bytes(e)
            + self.spec_liveliness_bytes(e)
            + self.spec_reliability_bytes(e)
    }

    /// Whether the parameters of the fields of a topic up to its reliability can be written.
    pub open spec fn spec_fits_3(&self, e: Endianness) -> bool {
        &&& self.spec_data_max_size_serialized_fits(e)
        &&& self.spec_topic_name_fits(e)
        &&& self.spec_data_type_name_fits(e)
        &&& self.spec_durability_fits(e)
        &&& self.spec_deadline_fits(e)
        &&& self.spec_latency_budget_fits(e)
        &&& self.spec_liveliness_fits(e)
        &&& self.spec_reliability_fits(e)
    }

    /// Appends the parameters of the fields of a topic up to its reliability.
    #[verifier::rlimit(50)]
    fn add_group_3(&self, out: &mut Vec<u8>, e: Endianness) -> (ok: bool)
        ensures
            ok == self.spec_fits_3(e),
            ok ==> final(out)@ == old(out)@ + self.spec_bytes_3(e),
    {
        let ghost start = out@;
        let ghost mut acc: Seq<u8> = Seq::empty();
        assert(out@ =~= start + acc);
        let ghost before = out@;
        if !self.add_data_max_size_serialized(out, e) {
            return false;
        }
        proof {
            lemma_append(start, acc, self.spec_data_max_size_serialized_bytes(e));
            acc = acc + self.spec_data_max_size_serialized_bytes(e);
        }
        let ghost before = out@;
        if !self.add_topic_name(out, e) {
            return false;
        }
        proof {
            lemma_append(start, acc, self.spec_topic_name_bytes(e));
            acc = acc + self.spec_topic_name_bytes(e);
        }
        let ghost before = out@;
        if !self.add_data_type_name(out, e) {
            return false;
        }
        proof {
            lemma_append(start, acc, self.spec_data_type_name_bytes(e));
            acc = acc + self.spec_data_type_name_bytes(e);
        }
        let ghost before = out@;
        if !self.add_durability(out, e) {
            return false;
        }
        proof {
            lemma_append(start, acc, self.spec_durability_bytes(e));
            acc = acc + self.spec_durability_bytes(e);
        }
        let ghost before = out@;
        if !self.add_deadline(out, e) {
            return false;
        }
        proof {
            lemma_append(start, acc, self.spec_deadline_bytes(e));
            acc = acc + self.spec_deadline_bytes(e);
        }
        let ghost before = out@;
        if !self.add_latency_budget(out, e) {
            return false;
        }
        proof {
            lemma_append(start, acc, self.spec_latency_budget_bytes(e));
            acc = acc + self.spec_latency_budget_bytes(e);
        }
        let ghost before = out@;
        if !self.add_liveliness(out, e) {
            return false;
        }
        proof {
            lemma_append(start, acc, self.spec_liveliness_bytes(e));
            acc = acc + self.spec_liveliness_bytes(e);
        }
        let ghost before = out@;
        if !self.add_reliability(out, e) {
            return false;
        }
        proof {
            lemma_append(start, acc, self.spec_reliability_bytes(e));
            acc = acc + self.spec_reliability_bytes(e);
        }
        assert(acc =~= self.spec_data_max_size_serialized_bytes(e) + self.spec_topic_name_bytes(e) + self.spec_data_type_name_bytes(e) + self.spec_durability_bytes(e) + self.spec_deadline_bytes(e) + self.spec_latency_budget_bytes(e) + self.spec_liveliness_bytes(e) + self.spec_reliability_bytes(e));
        true
    }

    /// The parameters of the remaining policies and the content filter.
    pub open spec fn spec_bytes_4(&self, e: Endianness) -> Seq<u8> {
        self.spec_ownership_bytes(e)
            + self.spec_destination_order_bytes(e)
            + self.spec_time_based_filter_bytes(e)
            + self.spec_presentation_bytes(e)
            + self.spec_lifespan_bytes(e)
            + self.spec_history_bytes(e)
            + self.spec_resource_limits_bytes(e)
            + self.spec_content_filter_property_bytes(e)
    }

    /// Whether the parameters of the remaining policies and the content filter can be written.
    pub open spec fn spec_fits_4(&self, e: Endianness) -> bool {
        &&& self.spec_ownership_fits(e)
        &&& self.spec_destination_order_fits(e)
        &&& self.spec_time_based_filter_fits(e)
        &&& self.spec_presentation_fits(e)
        &&& self.spec_lifespan_fits(e)
        &&& self.spec_history_fits(e)
        &&& self.spec_resource_limits_fits(e)
        &&& self.spec_content_filter_property_fits(e)
    }

    /// Appends the parameters of the remaining policies and the content filter.
    #[verifier::rlimit(50)]
    fn add_group_4(&self, out: &mut Vec<u8>, e: Endianness) -> (ok: bool)
        ensures
            ok == self.spec_fits_4(e),
            ok ==> final(out)@ == old(out)@ + self.spec_bytes_4(e),
    {
        let ghost start = out@;
        let ghost mut acc: Seq<u8> = Seq::empty();
        assert(out@ =~= start + acc);
        let ghost before = out@;
        if !self.add_ownership(out, e) {
            return false;
        }
        proof {
            lemma_append(start, acc, self.spec_ownership_bytes(e));
            acc = acc + self.spec_ownership_bytes(e);
        }
        let ghost before = out@;
        if !self.add_destination_order(out, e) {
            return false;
        }
        proof {
            lemma_append(start, acc, self.spec_destination_order_bytes(e));
            acc = acc + self.spec_destination_order_bytes(e);
        }
        let ghost before = out@;
        if !self.add_time_based_filter(out, e) {
            return false;
        }
        proof {
            lemma_append(start, acc, self.spec_time_based_filter_bytes(e));
            acc = acc + self.spec_time_based_filter_bytes(e);
        }
        let ghost before = out@;
        if !self.add_presentation(out, e) {
            return false;
        }
        proof {
            lemma_append(start, acc, self.spec_presentation_bytes(e));
            acc = acc + self.spec_presentation_bytes(e);
        }
        let ghost before = out@;
        if !self.add_lifespan(out, e) {
            return false;
        }
        proof {
            lemma_append(start, acc, self.spec_lifespan_bytes(e));
            acc = acc + self.spec_lifespan_bytes(e);
        }
        let ghost before = out@;
        if !self.add_history(out, e) {
            return false;
        }
        proof {
            lemma_append(start, acc, self.spec_history_bytes(e));
            acc = acc + self.spec_history_bytes(e);
        }
        let ghost before = out@;
        if !self.add_resource_limits(out, e) {
            return false;
        }
        proof {
            lemma_append(start, acc, self.spec_resource_limits_bytes(e));
            acc = acc + self.spec_resource_limits_bytes(e);
        }
        let ghost before = out@;
        if !self.add_content_filter_property(out, e) {
            return false;
        }
        proof {
            lemma_append(start, acc, self.spec_content_filter_property_bytes(e));
            acc = acc + self.spec_content_filter_property_bytes(e);
        }
        assert(acc =~= self.spec_ownership_bytes(e) + self.spec_destination_order_bytes(e) + self.spec_time_based_filter_bytes(e) + self.spec_presentation_bytes(e) + self.spec_lifespan_bytes(e) + self.spec_history_bytes(e) + self.spec_resource_limits_bytes(e) + self.spec_content_filter_property_bytes(e));
        true
    }

    /// The bytes of the sentinel, where one is asked for.
    pub open spec fn spec_sentinel(add_sentinel: bool, e: Endianness) -> Seq<u8> {
        if add_sentinel {
            spec_parameter(PID_SENTINEL, Seq::empty(), e)
        } else {
            Seq::empty()
        }
    }

    /// The parameter list of the fields that the serializer states, in the
    /// order of the fields, with a sentinel at the end where one is asked
    /// for.
    pub open spec fn spec_serialize(&self, e: Endianness, add_sentinel: bool) -> Seq<u8> {
        self.spec_bytes_1(e) + self.spec_bytes_2(e) + self.spec_bytes_3(e) + self.spec_bytes_4(e)
            + BuiltinDataSerializer::spec_sentinel(add_sentinel, e)
    }

    /// Whether all fields can be written: every value fits the length
    /// field of its parameter.
    pub open spec fn spec_fits(&self, e: Endianness) -> bool {
        &&& self.spec_fits_1(e)
        &&& self.spec_fits_2(e)
        &&& self.spec_fits_3(e)
        &&& self.spec_fits_4(e)
    }

    /// Writes the fields that the serializer states as a parameter list in
    /// the byte order `e`. Gives `None` where a value does not fit the
    /// length field of its parameter.
    pub fn serialize(&self, e: Endianness, add_sentinel: bool) -> (r: Option<Vec<u8>>)
        ensures
            r is Some <==> self.spec_fits(e),
            r matches Some(bytes) ==> bytes@ == self.spec_serialize(e, add_sentinel),
    {
        let mut out: Vec<u8> = Vec::new();
        if !self.add_group_1(&mut out, e) {
            return None;
        }
        if !self.add_group_2(&mut out, e) {
            return None;
        }
        if !self.add_group_3(&mut out, e) {
            return None;
        }
        if !self.add_group_4(&mut out, e) {
            return None;
        }
        let ghost fields = out@;
        if add_sentinel {
            let empty: Vec<u8> = Vec::new();
            let _ok = put_parameter(&mut out, PID_SENTINEL, &empty, e);
            assert(empty@ =~= Seq::<u8>::empty());
        }
        assert(out@ =~= self.spec_serialize(e, add_sentinel));
        Some(out)
    }

    /// The parameter list of the key of the record: the identifier of the
    /// participant and that of the endpoint, where stated.
    pub open spec fn spec_serialize_key(&self, e: Endianness, add_sentinel: bool) -> Seq<u8> {
        self.spec_participant_guid_bytes(e) + self.spec_endpoint_guid_bytes(e)
            + BuiltinDataSerializer::spec_sentinel(add_sentinel, e)
    }

    /// Writes the key of the record as a parameter list in the byte order
    /// `e`.
    pub fn serialize_key(&self, e: Endianness, add_sentinel: bool) -> (bytes: Vec<u8>)
        ensures
            bytes@ == self.spec_serialize_key(e, add_sentinel),
    {
        let mut out: Vec<u8> = Vec::new();
        proof {
            if self.participant_guid is Some {
                lemma_guid_length(self.participant_guid->0);
            }
            if self.endpoint_guid is Some {
                lemma_guid_length(self.endpoint_guid->0);
            }
        }
        let _a = self.add_participant_guid(&mut out, e);
        let _b = self.add_endpoint_guid(&mut out, e);
        if add_sentinel {
            let empty: Vec<u8> = Vec::new();
            let _ok = put_parameter(&mut out, PID_SENTINEL, &empty, e);
            assert(empty@ =~= Seq::<u8>::empty());
        }
        assert(out@ =~= self.spec_serialize_key(e, add_sentinel));
        out
    }
}

/// An identifier has sixteen bytes.
pub proof fn lemma_guid_length(g: GUID)
    ensures
        spec_guid_value(g).len() == 16,
{
    crate::serialization::byte_order::lemma_le_bytes_len(g.guid_prefix.host_id as nat, 4);
    crate::serialization::byte_order::lemma_le_bytes_len(g.guid_prefix.app_id as nat, 4);
    crate::serialization::byte_order::lemma_le_bytes_len(g.guid_prefix.instance_id as nat, 4);
    crate::serialization::byte_order::lemma_le_bytes_len(g.entity_id.value as nat, 4);
}

impl BuiltinDataSerializerKey {
    /// The parameter list of the key of a participant: its identifier.
    pub open spec fn spec_serialize(&self, e: Endianness, add_sentinel: bool) -> Seq<u8> {
        spec_parameter(PID_PARTICIPANT_GUID, spec_guid_value(self.participant_guid), e) + (
        if add_sentinel {
            spec_parameter(PID_SENTINEL, Seq::empty(), e)
        } else {
            Seq::empty()
        })
    }

    /// Writes the key of a participant as a parameter list in the byte
    /// order `e`.
    pub fn serialize(&self, e: Endianness, add_sentinel: bool) -> (bytes: Vec<u8>)
        ensures
            bytes@ == self.spec_serialize(e, add_sentinel),
    {
        let mut out: Vec<u8> = Vec::new();
        let mut value: Vec<u8> = Vec::new();
        put_guid(&mut value, self.participant_guid);
        assert(value@ =~= spec_guid_value(self.participant_guid));
        proof {
            lemma_guid_length(self.participant_guid);
        }
        let _ok = put_parameter(&mut out, PID_PARTICIPANT_GUID, &value, e);
        if add_sentinel {
            let empty: Vec<u8> = Vec::new();
            let _ok = put_parameter(&mut out, PID_SENTINEL, &empty, e);
            assert(empty@ =~= Seq::<u8>::empty());
        }
        assert(out@ =~= self.spec_serialize(e, add_sentinel));
        out
    }
}

} // verus!
