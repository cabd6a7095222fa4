use crate::dds::qos::policy::Deadline;
use crate::dds::qos::policy::DestinationOrder;
use crate::dds::qos::policy::Durability;
use crate::dds::qos::policy::History;
use crate::dds::qos::policy::LatencyBudget;
use crate::dds::qos::policy::Lifespan;
use crate::dds::qos::policy::Liveliness;
use crate::dds::qos::policy::Ownership;
use crate::dds::qos::policy::Presentation;
use crate::dds::qos::policy::Reliability;
use crate::dds::qos::policy::ResourceLimits;
use crate::dds::qos::policy::TimeBasedFilter;
use crate::discovery::content_filter_property::ContentFilterProperty;
use crate::discovery::data_types::spdp_participant_data::SpdpDiscoveredParticipantData;
use crate::discovery::data_types::spdp_participant_data::SpdpDiscoveredParticipantDataKey;
use crate::discovery::data_types::topic_data::DiscoveredReaderData;
use crate::discovery::data_types::topic_data::DiscoveredReaderDataKey;
use crate::discovery::data_types::topic_data::DiscoveredWriterData;
use crate::discovery::data_types::topic_data::DiscoveredWriterDataKey;
use crate::discovery::data_types::topic_data::PublicationBuiltinTopicData;
use crate::discovery::data_types::topic_data::ReaderProxy;
use crate::discovery::data_types::topic_data::SubscriptionBuiltinTopicData;
use crate::discovery::data_types::topic_data::TopicBuiltinTopicData;
use crate::discovery::data_types::topic_data::WriterProxy;
use crate::messages::protocol_version::ProtocolVersion;
use crate::messages::vendor_id::VendorId;
use crate::structure::builtin_endpoint::BuiltinEndpointQos;
use crate::structure::builtin_endpoint::BuiltinEndpointSet;
use crate::structure::duration::Duration;
use crate::structure::guid::GUID;
use crate::structure::locator::LocatorList;
use crate::structure::parameter_id::ParameterId;
use vstd::prelude::*;

verus! {

/// The length of the parameter that carries a string of `len` bytes: the
/// length prefix, the text, and the terminator with the padding up to a
/// multiple of four bytes.
pub open spec fn spec_string_parameter_length(len: nat) -> nat {
    (len + (4 - len % 4) + 4) as nat
}

/// A string as a parameter of a parameter list.
pub struct StringData {
    pub parameter_id: ParameterId,
    pub parameter_length: u16,
    pub string_data: String,
}

impl StringData {
    /// The parameter with the tag `parameter_id` that carries
    /// `string_data`. The length has to fit its 16-bit field.
    pub fn new(parameter_id: ParameterId, string_data: String) -> (d: StringData)
        requires
            vstd::utf8::encode_utf8(string_data@).len() + 8 <= u16::MAX,
        ensures
            d.parameter_id == parameter_id,
            d.string_data == string_data,
            d.parameter_length as nat == spec_string_parameter_length(
                vstd::utf8::encode_utf8(string_data@).len(),
            ),
    {
        let len = string_data.as_str().len();
        let parameter_length: u16 = (len + (4 - len % 4) + 4) as u16;
        StringData { parameter_id, parameter_length, string_data }
    }
}

/// An unsigned 32-bit number as a parameter of a parameter list.
#[derive(Clone, Copy, Debug, PartialEq, Eq, Structural)]
pub struct U32Data {
    pub parameter_id: ParameterId,
    pub parameter_length: u16,
    pub data: u32,
}

impl U32Data {
    /// The parameter with the tag `parameter_id` that carries `data`.
    pub fn new(parameter_id: ParameterId, data: u32) -> (d: U32Data)
        ensures
            d == (U32Data { parameter_id, parameter_length: 4, data }),
    {
        U32Data { parameter_id, parameter_length: 4, data }
    }
}

/// A signed 32-bit number as a parameter of a parameter list.
#[derive(Clone, Copy, Debug, PartialEq, Eq, Structural)]
pub struct I32Data {
    pub parameter_id: ParameterId,
    pub parameter_length: u16,
    pub data: i32,
}

impl I32Data {
    /// The parameter with the tag `parameter_id` that carries `data`.
    pub fn new(parameter_id: ParameterId, data: i32) -> (d: I32Data)
        ensures
            d == (I32Data { parameter_id, parameter_length: 4, data }),
    {
        I32Data { parameter_id, parameter_length: 4, data }
    }
}

/// Serializes the key of a participant announcement.
#[derive(Clone, Copy, Debug, PartialEq, Eq, Structural)]
pub struct BuiltinDataSerializerKey {
    pub participant_guid: GUID,
}

impl BuiltinDataSerializerKey {
    /// The serializer of the given key.
    pub fn from_data(participant_data: SpdpDiscoveredParticipantDataKey) -> (k:
        BuiltinDataSerializerKey)
        ensures
            k.participant_guid == participant_data.0,
    {
        BuiltinDataSerializerKey { participant_guid: participant_data.0 }
    }
}

/// Collects what a discovery record states, field by field, so that it can
/// be written as a parameter list. A field that is absent is not written.
pub struct BuiltinDataSerializer<'a> {
    pub protocol_version: Option<ProtocolVersion>,
    pub vendor_id: Option<VendorId>,
    pub expects_inline_qos: Option<bool>,
    pub participant_guid: Option<GUID>,
    pub metatraffic_unicast_locators: Option<&'a LocatorList>,
    pub metatraffic_multicast_locators: Option<&'a LocatorList>,
    pub default_unicast_locators: Option<&'a LocatorList>,
    pub default_multicast_locators: Option<&'a LocatorList>,
    pub available_builtin_endpoints: Option<BuiltinEndpointSet>,
    pub lease_duration: Option<Duration>,
    pub manual_liveliness_count: Option<i32>,
    pub builtin_endpoint_qos: Option<BuiltinEndpointQos>,
    pub entity_name: Option<&'a String>,
    pub endpoint_guid: Option<GUID>,
    pub unicast_locator_list: Option<&'a LocatorList>,
    pub multicast_locator_list: Option<&'a LocatorList>,
    pub data_max_size_serialized: Option<u32>,
    pub topic_name: Option<&'a String>,
    pub data_type_name: Option<&'a String>,
    pub durability: Option<Durability>,
    pub deadline: Option<Deadline>,
    pub latency_budget: Option<LatencyBudget>,
    pub liveliness: Option<Liveliness>,
    pub reliability: Option<Reliability>,
    pub ownership: Option<Ownership>,
    pub destination_order: Option<DestinationOrder>,
    pub time_based_filter: Option<TimeBasedFilter>,
    pub presentation: Option<Presentation>,
    pub lifespan: Option<Lifespan>,
    pub history: Option<History>,
    pub resource_limits: Option<ResourceLimits>,
    pub content_filter_property: Option<&'a ContentFilterProperty>,
}

/// Number of locators of a list that may be absent.
pub open spec fn spec_locator_count(list: Option<&LocatorList>) -> nat {
    match list {
        Some(l) => l@.len(),
        None => 0,
    }
}

/// One for a field that is present, zero for one that is absent.
pub open spec fn spec_one_if(present: bool) -> nat {
    if present {
        1
    } else {
        0
    }
}

/// The second value where it is present, else the first.
pub open spec fn spec_prefer<T>(ours: Option<T>, theirs: Option<T>) -> Option<T> {
    if theirs is Some {
        theirs
    } else {
        ours
    }
}

/// One for a field that is present, zero for one that is absent.
fn count_one(present: bool) -> (n: u128)
    ensures
        n == spec_one_if(present),
        n <= 1,
{
    if present {
        1
    } else {
        0
    }
}

/// Number of locators of a list that may be absent.
fn count_locators(list: Option<&LocatorList>) -> (n: u128)
    ensures
        n == spec_locator_count(list),
        n <= usize::MAX,
{
    match list {
        Some(l) => l.len() as u128,
        None => 0,
    }
}

impl<'a> BuiltinDataSerializer<'a> {
    /// The serializer that states nothing.
    pub open spec fn spec_empty() -> BuiltinDataSerializer<'a> {
        BuiltinDataSerializer {
            protocol_version: None,
            vendor_id: None,
            expects_inline_qos: None,
            participant_guid: None,
            metatraffic_unicast_locators: None,
            metatraffic_multicast_locators: None,
            default_unicast_locators: None,
            default_multicast_locators: None,
            available_builtin_endpoints: None,
            lease_duration: None,
            manual_liveliness_count: None,
            builtin_endpoint_qos: None,
            entity_name: None,
            endpoint_guid: None,
            unicast_locator_list: None,
            multicast_locator_list: None,
            data_max_size_serialized: None,
            topic_name: None,
            data_type_name: None,
            durability: None,
            deadline: None,
            latency_budget: None,
            liveliness: None,
            reliability: None,
            ownership: None,
            destination_order: None,
            time_based_filter: None,
            presentation: None,
            lifespan: None,
            history: None,
            resource_limits: None,
            content_filter_property: None,
        }
    }

    /// The serializer that states nothing.
    pub fn empty() -> (s: BuiltinDataSerializer<'a>)
        ensures
            s == BuiltinDataSerializer::spec_empty(),
    {
        BuiltinDataSerializer {
            protocol_version: None,
            vendor_id: None,
            expects_inline_qos: None,
            participant_guid: None,
            metatraffic_unicast_locators: None,
            metatraffic_multicast_locators: None,
            default_unicast_locators: None,
            default_multicast_locators: None,
            available_builtin_endpoints: None,
            lease_duration: None,
            manual_liveliness_count: None,
            builtin_endpoint_qos: None,
            entity_name: None,
            endpoint_guid: None,
            unicast_locator_list: None,
            multicast_locator_list: None,
            data_max_size_serialized: None,
            topic_name: None,
            data_type_name: None,
            durability: None,
            deadline: None,
            latency_budget: None,
            liveliness: None,
            reliability: None,
            ownership: None,
            destination_order: None,
            time_based_filter: None,
            presentation: None,
            lifespan: None,
            history: None,
            resource_limits: None,
            content_filter_property: None,
        }
    }

    /// This serializer with every field that `other` states taken from
    /// `other`.
    pub open spec fn spec_merge(self, other: BuiltinDataSerializer<'a>) -> BuiltinDataSerializer<
        'a,
    > {
        BuiltinDataSerializer {
            protocol_version: spec_prefer(self.protocol_version, other.protocol_version),
            vendor_id: spec_prefer(self.vendor_id, other.vendor_id),
            expects_inline_qos: spec_prefer(self.expects_inline_qos, other.expects_inline_qos),
            participant_guid: spec_prefer(self.participant_guid, other.participant_guid),
            metatraffic_unicast_locators: spec_prefer(self.metatraffic_unicast_locators, other.metatraffic_unicast_locators),
            metatraffic_multicast_locators: spec_prefer(self.metatraffic_multicast_locators, other.metatraffic_multicast_locators),
            default_unicast_locators: spec_prefer(self.default_unicast_locators, other.default_unicast_locators),
            default_multicast_locators: spec_prefer(self.default_multicast_locators, other.default_multicast_locators),
            available_builtin_endpoints: spec_prefer(self.available_builtin_endpoints, other.available_builtin_endpoints),
            lease_duration: spec_prefer(self.lease_duration, other.lease_duration),
            manual_liveliness_count: spec_prefer(self.manual_liveliness_count, other.manual_liveliness_count),
            builtin_endpoint_qos: spec_prefer(self.builtin_endpoint_qos, other.builtin_endpoint_qos),
            entity_name: spec_prefer(self.entity_name, other.entity_name),
            endpoint_guid: spec_prefer(self.endpoint_guid, other.endpoint_guid),
            unicast_locator_list: spec_prefer(self.unicast_locator_list, other.unicast_locator_list),
            multicast_locator_list: spec_prefer(self.multicast_locator_list, other.multicast_locator_list),
            data_max_size_serialized: spec_prefer(self.data_max_size_serialized, other.data_max_size_serialized),
            topic_name: spec_prefer(self.topic_name, other.topic_name),
            data_type_name: spec_prefer(self.data_type_name, other.data_type_name),
            durability: spec_prefer(self.durability, other.durability),
            deadline: spec_prefer(self.deadline, other.deadline),
            latency_budget: spec_prefer(self.latency_budget, other.latency_budget),
            liveliness: spec_prefer(self.liveliness, other.liveliness),
            reliability: spec_prefer(self.reliability, other.reliability),
            ownership: spec_prefer(self.ownership, other.ownership),
            destination_order: spec_prefer(self.destination_order, other.destination_order),
            time_based_filter: spec_prefer(self.time_based_filter, other.time_based_filter),
            presentation: spec_prefer(self.presentation, other.presentation),
            lifespan: spec_prefer(self.lifespan, other.lifespan),
            history: spec_prefer(self.history, other.history),
            resource_limits: spec_prefer(self.resource_limits, other.resource_limits),
            content_filter_property: spec_prefer(self.content_filter_property, other.content_filter_property),
        }
    }

    /// Merges two serializers: a field that `other` states wins over the
    /// same field of this serializer.
    pub fn merge(self, other: BuiltinDataSerializer<'a>) -> (merged: BuiltinDataSerializer<'a>)
        ensures
            merged == self.spec_merge(other),
    {
        let mut merged = self;
        merged.protocol_version = match other.protocol_version {
            Some(v) => Some(v),
            None => merged.protocol_version,
        };
        merged.vendor_id = match other.vendor_id {
            Some(v) => Some(v),
            None => merged.vendor_id,
        };
        merged.expects_inline_qos = match other.expects_inline_qos {
            Some(v) => Some(v),
            None => merged.expects_inline_qos,
        };
        merged.participant_guid = match other.participant_guid {
            Some(v) => Some(v),
            None => merged.participant_guid,
        };
        merged.metatraffic_unicast_locators = match other.metatraffic_unicast_locators {
            Some(v) => Some(v),
            None => merged.metatraffic_unicast_locators,
        };
        merged.metatraffic_multicast_locators = match other.metatraffic_multicast_locators {
            Some(v) => Some(v),
            None => merged.metatraffic_multicast_locators,
        };
        merged.default_unicast_locators = match other.default_unicast_locators {
            Some(v) => Some(v),
            None => merged.default_unicast_locators,
        };
        merged.default_multicast_locators = match other.default_multicast_locators {
            Some(v) => Some(v),
            None => merged.default_multicast_locators,
        };
        merged.available_builtin_endpoints = match other.available_builtin_endpoints {
            Some(v) => Some(v),
            None => merged.available_builtin_endpoints,
        };
        merged.lease_duration = match other.lease_duration {
            Some(v) => Some(v),
            None => merged.lease_duration,
        };
        merged.manual_liveliness_count = match other.manual_liveliness_count {
            Some(v) => Some(v),
            None => merged.manual_liveliness_count,
        };
        merged.builtin_endpoint_qos = match other.builtin_endpoint_qos {
            Some(v) => Some(v),
            None => merged.builtin_endpoint_qos,
        };
        merged.entity_name = match other.entity_name {
            Some(v) => Some(v),
            None => merged.entity_name,
        };
        merged.endpoint_guid = match other.endpoint_guid {
            Some(v) => Some(v),
            None => merged.endpoint_guid,
        };
        merged.unicast_locator_list = match other.unicast_locator_list {
            Some(v) => Some(v),
            None => merged.unicast_locator_list,
        };
        merged.multicast_locator_list = match other.multicast_locator_list {
            Some(v) => Some(v),
            None => merged.multicast_locator_list,
        };
        merged.data_max_size_serialized = match other.data_max_size_serialized {
            Some(v) => Some(v),
            None => merged.data_max_size_serialized,
        };
        merged.topic_name = match other.topic_name {
            Some(v) => Some(v),
            None => merged.topic_name,
        };
        merged.data_type_name = match other.data_type_name {
            Some(v) => Some(v),
            None => merged.data_type_name,
        };
        merged.durability = match other.durability {
            Some(v) => Some(v),
            None => merged.durability,
        };
        merged.deadline = match other.deadline {
            Some(v) => Some(v),
            None => merged.deadline,
        };
        merged.latency_budget = match other.latency_budget {
            Some(v) => Some(v),
            None => merged.latency_budget,
        };
        merged.liveliness = match other.liveliness {
            Some(v) => Some(v),
            None => merged.liveliness,
        };
        merged.reliability = match other.reliability {
            Some(v) => Some(v),
            None => merged.reliability,
        };
        merged.ownership = match other.ownership {
            Some(v) => Some(v),
            None => merged.ownership,
        };
        merged.destination_order = match other.destination_order {
            Some(v) => Some(v),
            None => merged.destination_order,
        };
        merged.time_based_filter = match other.time_based_filter {
            Some(v) => Some(v),
            None => merged.time_based_filter,
        };
        merged.presentation = match other.presentation {
            Some(v) => Some(v),
            None => merged.presentation,
        };
        merged.lifespan = match other.lifespan {
            Some(v) => Some(v),
            None => merged.lifespan,
        };
        merged.history = match other.history {
            Some(v) => Some(v),
            None => merged.history,
        };
        merged.resource_limits = match other.resource_limits {
            Some(v) => Some(v),
            None => merged.resource_limits,
        };
        merged.content_filter_property = match other.content_filter_property {
            Some(v) => Some(v),
            None => merged.content_filter_property,
        };
        merged
    }

    /// What a participant announcement states.
    pub open spec fn spec_from_participant_data(participant_data: &'a SpdpDiscoveredParticipantData) -> BuiltinDataSerializer<'a> {
        BuiltinDataSerializer {
            protocol_version: Some(participant_data.protocol_version),
            vendor_id: Some(participant_data.vendor_id),
            expects_inline_qos: Some(participant_data.expects_inline_qos),
            participant_guid: Some(participant_data.participant_guid),
            metatraffic_unicast_locators: Some(&participant_data.metatraffic_unicast_locators),
            metatraffic_multicast_locators: Some(&participant_data.metatraffic_multicast_locators),
            default_unicast_locators: Some(&participant_data.default_unicast_locators),
            default_multicast_locators: Some(&participant_data.default_multicast_locators),
            available_builtin_endpoints: Some(participant_data.available_builtin_endpoints),
            lease_duration: participant_data.lease_duration,
            manual_liveliness_count: Some(participant_data.manual_liveliness_count),
            builtin_endpoint_qos: participant_data.builtin_endpoint_qos,
            entity_name: match participant_data.entity_name {
                Some(name) => Some(&name),
                None => None,
            },
            ..BuiltinDataSerializer::spec_empty()
        }
    }

    /// What a participant announcement states.
    pub fn from_participant_data(participant_data: &'a SpdpDiscoveredParticipantData) -> (s: BuiltinDataSerializer<'a>)
        ensures
            s == BuiltinDataSerializer::spec_from_participant_data(participant_data),
    {
        BuiltinDataSerializer {
            protocol_version: Some(participant_data.protocol_version),
            vendor_id: Some(participant_data.vendor_id),
            expects_inline_qos: Some(participant_data.expects_inline_qos),
            participant_guid: Some(participant_data.participant_guid),
            metatraffic_unicast_locators: Some(&participant_data.metatraffic_unicast_locators),
            metatraffic_multicast_locators: Some(&participant_data.metatraffic_multicast_locators),
            default_unicast_locators: Some(&participant_data.default_unicast_locators),
            default_multicast_locators: Some(&participant_data.default_multicast_locators),
            available_builtin_endpoints: Some(participant_data.available_builtin_endpoints),
            lease_duration: participant_data.lease_duration,
            manual_liveliness_count: Some(participant_data.manual_liveliness_count),
            builtin_endpoint_qos: participant_data.builtin_endpoint_qos,
            entity_name: participant_data.entity_name.as_ref(),
            ..BuiltinDataSerializer::empty()
        }
    }

    /// What the proxy of a reader states.
    pub open spec fn spec_from_reader_proxy(reader_proxy: &'a ReaderProxy) -> BuiltinDataSerializer<'a> {
        BuiltinDataSerializer {
            expects_inline_qos: Some(reader_proxy.expects_inline_qos),
            endpoint_guid: Some(reader_proxy.remote_reader_guid),
            unicast_locator_list: Some(&reader_proxy.unicast_locator_list),
            multicast_locator_list: Some(&reader_proxy.multicast_locator_list),
            ..BuiltinDataSerializer::spec_empty()
        }
    }

    /// What the proxy of a reader states.
    pub fn from_reader_proxy(reader_proxy: &'a ReaderProxy) -> (s: BuiltinDataSerializer<'a>)
        ensures
            s == BuiltinDataSerializer::spec_from_reader_proxy(reader_proxy),
    {
        BuiltinDataSerializer {
            expects_inline_qos: Some(reader_proxy.expects_inline_qos),
            endpoint_guid: Some(reader_proxy.remote_reader_guid),
            unicast_locator_list: Some(&reader_proxy.unicast_locator_list),
            multicast_locator_list: Some(&reader_proxy.multicast_locator_list),
            ..BuiltinDataSerializer::empty()
        }
    }

    /// What the proxy of a writer states.
    pub open spec fn spec_from_writer_proxy(writer_proxy: &'a WriterProxy) -> BuiltinDataSerializer<'a> {
        BuiltinDataSerializer {
            endpoint_guid: Some(writer_proxy.remote_writer_guid),
            unicast_locator_list: Some(&writer_proxy.unicast_locator_list),
            multicast_locator_list: Some(&writer_proxy.multicast_locator_list),
            data_max_size_serialized: writer_proxy.data_max_size_serialized,
            ..BuiltinDataSerializer::spec_empty()
        }
    }

    /// What the proxy of a writer states.
    pub fn from_writer_proxy(writer_proxy: &'a WriterProxy) -> (s: BuiltinDataSerializer<'a>)
        ensures
            s == BuiltinDataSerializer::spec_from_writer_proxy(writer_proxy),
    {
        BuiltinDataSerializer {
            endpoint_guid: Some(writer_proxy.remote_writer_guid),
            unicast_locator_list: Some(&writer_proxy.unicast_locator_list),
            multicast_locator_list: Some(&writer_proxy.multicast_locator_list),
            data_max_size_serialized: writer_proxy.data_max_size_serialized,
            ..BuiltinDataSerializer::empty()
        }
    }

    /// What the topic data of a subscription states.
    pub open spec fn spec_from_subscription_topic_data(subscription_topic_data: &'a SubscriptionBuiltinTopicData) -> BuiltinDataSerializer<'a> {
        BuiltinDataSerializer {
            participant_guid: subscription_topic_data.participant_key,
            endpoint_guid: Some(subscription_topic_data.key),
            topic_name: Some(&subscription_topic_data.topic_name),
            data_type_name: Some(&subscription_topic_data.data_type_name),
            durability: subscription_topic_data.durability,
            deadline: subscription_topic_data.deadline,
            latency_budget: subscription_topic_data.latency_budget,
            liveliness: subscription_topic_data.liveliness,
            reliability: subscription_topic_data.reliability,
            ownership: subscription_topic_data.ownership,
            destination_order: subscription_topic_data.destination_order,
            time_based_filter: subscription_topic_data.time_based_filter,
            presentation: subscription_topic_data.presentation,
            lifespan: subscription_topic_data.lifespan,
            ..BuiltinDataSerializer::spec_empty()
        }
    }

    /// What the topic data of a subscription states.
    pub fn from_subscription_topic_data(subscription_topic_data: &'a SubscriptionBuiltinTopicData) -> (s: BuiltinDataSerializer<'a>)
        ensures
            s == BuiltinDataSerializer::spec_from_subscription_topic_data(subscription_topic_data),
    {
        BuiltinDataSerializer {
            participant_guid: subscription_topic_data.participant_key,
            endpoint_guid: Some(subscription_topic_data.key),
            topic_name: Some(&subscription_topic_data.topic_name),
            data_type_name: Some(&subscription_topic_data.data_type_name),
            durability: subscription_topic_data.durability,
            deadline: subscription_topic_data.deadline,
            latency_budget: subscription_topic_data.latency_budget,
            liveliness: subscription_topic_data.liveliness,
            reliability: subscription_topic_data.reliability,
            ownership: subscription_topic_data.ownership,
            destination_order: subscription_topic_data.destination_order,
            time_based_filter: subscription_topic_data.time_based_filter,
            presentation: subscription_topic_data.presentation,
            lifespan: subscription_topic_data.lifespan,
            ..BuiltinDataSerializer::empty()
        }
    }

    /// What the topic data of a publication states.
    pub open spec fn spec_from_publication_topic_data(publication_topic_data: &'a PublicationBuiltinTopicData) -> BuiltinDataSerializer<'a> {
        BuiltinDataSerializer {
            participant_guid: publication_topic_data.participant_key,
            endpoint_guid: Some(publication_topic_data.key),
            topic_name: Some(&publication_topic_data.topic_name),
            data_type_name: Some(&publication_topic_data.data_type_name),
            durability: publication_topic_data.durability,
            deadline: publication_topic_data.deadline,
            latency_budget: publication_topic_data.latency_budget,
            liveliness: publication_topic_data.liveliness,
            reliability: publication_topic_data.reliability,
            ownership: publication_topic_data.ownership,
            destination_order: publication_topic_data.destination_order,
            time_based_filter: publication_topic_data.time_based_filter,
            presentation: publication_topic_data.presentation,
            lifespan: publication_topic_data.lifespan,
            ..BuiltinDataSerializer::spec_empty()
        }
    }

    /// What the topic data of a publication states.
    pub fn from_publication_topic_data(publication_topic_data: &'a PublicationBuiltinTopicData) -> (s: BuiltinDataSerializer<'a>)
        ensures
            s == BuiltinDataSerializer::spec_from_publication_topic_data(publication_topic_data),
    {
        BuiltinDataSerializer {
            participant_guid: publication_topic_data.participant_key,
            endpoint_guid: Some(publication_topic_data.key),
            topic_name: Some(&publication_topic_data.topic_name),
            data_type_name: Some(&publication_topic_data.data_type_name),
            durability: publication_topic_data.durability,
            deadline: publication_topic_data.deadline,
            latency_budget: publication_topic_data.latency_budget,
            liveliness: publication_topic_data.liveliness,
            reliability: publication_topic_data.reliability,
            ownership: publication_topic_data.ownership,
            destination_order: publication_topic_data.destination_order,
            time_based_filter: publication_topic_data.time_based_filter,
            presentation: publication_topic_data.presentation,
            lifespan: publication_topic_data.lifespan,
            ..BuiltinDataSerializer::empty()
        }
    }

    /// The identifier of an endpoint alone.
    pub open spec fn spec_from_endpoint_guid(guid: &'a GUID) -> BuiltinDataSerializer<'a> {
        BuiltinDataSerializer {
            endpoint_guid: Some(*guid),
            ..BuiltinDataSerializer::spec_empty()
        }
    }

    /// The identifier of an endpoint alone.
    pub fn from_endpoint_guid(guid: &'a GUID) -> (s: BuiltinDataSerializer<'a>)
        ensures
            s == BuiltinDataSerializer::spec_from_endpoint_guid(guid),
    {
        BuiltinDataSerializer {
            endpoint_guid: Some(*guid),
            ..BuiltinDataSerializer::empty()
        }
    }

    /// What the data of a topic states.
    pub open spec fn spec_from_topic_data(topic_data: &'a TopicBuiltinTopicData) -> BuiltinDataSerializer<'a> {
        BuiltinDataSerializer {
            endpoint_guid: topic_data.key,
            topic_name: Some(&topic_data.name),
            data_type_name: Some(&topic_data.data_type_name),
            durability: topic_data.durability,
            deadline: topic_data.deadline,
            latency_budget: topic_data.latency_budget,
            liveliness: topic_data.liveliness,
            reliability: topic_data.reliability,
            ownership: topic_data.ownership,
            destination_order: topic_data.destination_order,
            presentation: topic_data.presentation,
            lifespan: topic_data.lifespan,
            history: topic_data.history,
            resource_limits: topic_data.resource_limits,
            ..BuiltinDataSerializer::spec_empty()
        }
    }

    /// What the data of a topic states.
    pub fn from_topic_data(topic_data: &'a TopicBuiltinTopicData) -> (s: BuiltinDataSerializer<'a>)
        ensures
            s == BuiltinDataSerializer::spec_from_topic_data(topic_data),
    {
        BuiltinDataSerializer {
            endpoint_guid: topic_data.key,
            topic_name: Some(&topic_data.name),
            data_type_name: Some(&topic_data.data_type_name),
            durability: topic_data.durability,
            deadline: topic_data.deadline,
            latency_budget: topic_data.latency_budget,
            liveliness: topic_data.liveliness,
            reliability: topic_data.reliability,
            ownership: topic_data.ownership,
            destination_order: topic_data.destination_order,
            presentation: topic_data.presentation,
            lifespan: topic_data.lifespan,
            history: topic_data.history,
            resource_limits: topic_data.resource_limits,
            ..BuiltinDataSerializer::empty()
        }
    }

    /// What the record of a discovered reader states: what its proxy
    /// states, overridden by what its topic data states, and its content
    /// filter.
    pub open spec fn spec_from_discovered_reader_data(
        discovered_reader_data: &'a DiscoveredReaderData,
    ) -> BuiltinDataSerializer<'a> {
        BuiltinDataSerializer {
            content_filter_property: match discovered_reader_data.content_filter {
                Some(filter) => Some(&filter),
                None => None,
            },
            ..BuiltinDataSerializer::spec_from_reader_proxy(
                &discovered_reader_data.reader_proxy,
            ).spec_merge(
                BuiltinDataSerializer::spec_from_subscription_topic_data(
                    &discovered_reader_data.subscription_topic_data,
                ),
            )
        }
    }

    /// What the record of a discovered reader states.
    pub fn from_discovered_reader_data(discovered_reader_data: &'a DiscoveredReaderData) -> (s:
        BuiltinDataSerializer<'a>)
        ensures
            s == BuiltinDataSerializer::spec_from_discovered_reader_data(discovered_reader_data),
    {
        let bds_rp = BuiltinDataSerializer::from_reader_proxy(&discovered_reader_data.reader_proxy);
        let bds_std = BuiltinDataSerializer::from_subscription_topic_data(
            &discovered_reader_data.subscription_topic_data,
        );
        let mut bds_merged = bds_rp.merge(bds_std);
        bds_merged.content_filter_property = discovered_reader_data.content_filter.as_ref();
        bds_merged
    }

    /// What the record of a discovered writer states: what its proxy
    /// states, overridden by what its topic data states.
    pub open spec fn spec_from_discovered_writer_data(
        discovered_writer_data: &'a DiscoveredWriterData,
    ) -> BuiltinDataSerializer<'a> {
        BuiltinDataSerializer::spec_from_writer_proxy(
            &discovered_writer_data.writer_proxy,
        ).spec_merge(
            BuiltinDataSerializer::spec_from_publication_topic_data(
                &discovered_writer_data.publication_topic_data,
            ),
        )
    }

    /// What the record of a discovered writer states.
    pub fn from_discovered_writer_data(discovered_writer_data: &'a DiscoveredWriterData) -> (s:
        BuiltinDataSerializer<'a>)
        ensures
            s == BuiltinDataSerializer::spec_from_discovered_writer_data(discovered_writer_data),
    {
        let bds_wp = BuiltinDataSerializer::from_writer_proxy(&discovered_writer_data.writer_proxy);
        let bds_ptd = BuiltinDataSerializer::from_publication_topic_data(
            &discovered_writer_data.publication_topic_data,
        );
        bds_wp.merge(bds_ptd)
    }

    /// What the key of a discovered reader states: its identifier.
    pub fn from_discovered_reader_data_key(discovered_reader_data: &'a DiscoveredReaderDataKey) -> (s:
        BuiltinDataSerializer<'a>)
        ensures
            s == BuiltinDataSerializer::spec_from_endpoint_guid(&discovered_reader_data.0),
    {
        BuiltinDataSerializer::from_endpoint_guid(&discovered_reader_data.0)
    }

    /// What the key of a discovered writer states: its identifier.
    pub fn from_discovered_writer_data_key(discovered_writer_data: &'a DiscoveredWriterDataKey) -> (s:
        BuiltinDataSerializer<'a>)
        ensures
            s == BuiltinDataSerializer::spec_from_endpoint_guid(&discovered_writer_data.0),
    {
        BuiltinDataSerializer::from_endpoint_guid(&discovered_writer_data.0)
    }

    /// Number of fields stated among the fields of a participant up to its default multicast locators.
    pub open spec fn spec_fields_amount_1(&self) -> nat {
        spec_one_if(self.protocol_version is Some)
            + spec_one_if(self.vendor_id is Some)
            + spec_one_if(self.expects_inline_qos is Some)
            + spec_one_if(self.participant_guid is Some)
            + spec_locator_count(self.metatraffic_unicast_locators)
            + spec_locator_count(self.metatraffic_multicast_locators)
            + spec_locator_count(self.default_unicast_locators)
            + spec_locator_count(self.default_multicast_locators)
    }

    /// Counts the fields stated among the fields of a participant up to its default multicast locators.
    fn fields_amount_1(&self) -> (n: u128)
        ensures
            n == self.spec_fields_amount_1(),
            n <= 8 * usize::MAX,
    {
        count_one(self.protocol_version.is_some())
            + count_one(self.vendor_id.is_some())
            + count_one(self.expects_inline_qos.is_some())
            + count_one(self.participant_guid.is_some())
            + count_locators(self.metatraffic_unicast_locators)
            + count_locators(self.metatraffic_multicast_locators)
            + count_locators(self.default_unicast_locators)
            + count_locators(self.default_multicast_locators)
    }

    /// Number of fields stated among the remaining fields of a participant, and the fields of a proxy.
    pub open spec fn spec_fields_amount_2(&self) -> nat {
        spec_one_if(self.available_builtin_endpoints is Some)
            + spec_one_if(self.lease_duration is Some)
            + spec_one_if(self.manual_liveliness_count is Some)
            + spec_one_if(self.builtin_endpoint_qos is Some)
            + spec_one_if(self.entity_name is Some)
            + spec_one_if(self.endpoint_guid is Some)
            + spec_locator_count(self.unicast_locator_list)
            + spec_locator_count(self.multicast_locator_list)
    }

    /// Counts the fields stated among the remaining fields of a participant, and the fields of a proxy.
    fn fields_amount_2(&self) -> (n: u128)
        ensures
            n == self.spec_fields_amount_2(),
            n <= 8 * usize::MAX,
    {
        count_one(self.available_builtin_endpoints.is_some())
            + count_one(self.lease_duration.is_some())
            + count_one(self.manual_liveliness_count.is_some())
            + count_one(self.builtin_endpoint_qos.is_some())
            + count_one(self.entity_name.is_some())
            + count_one(self.endpoint_guid.is_some())
            + count_locators(self.unicast_locator_list)
            + count_locators(self.multicast_locator_list)
    }

    /// Number of fields stated among the fields of a topic up to its ownership.
    pub open spec fn spec_fields_amount_3(&self) -> nat {
        spec_one_if(self.data_max_size_serialized is Some)
            + spec_one_if(self.topic_name is Some)
            + spec_one_if(self.data_type_name is Some)
            + spec_one_if(self.durability is Some)
            + spec_one_if(self.deadline is Some)
            + spec_one_if(self.latency_budget is Some)
            + spec_one_if(self.liveliness is Some)
            + spec_one_if(self.reliability is Some)
    }

    /// Counts the fields stated among the fields of a topic up to its ownership.
    fn fields_amount_3(&self) -> (n: u128)
        ensures
            n == self.spec_fields_amount_3(),
            n <= 8 * usize::MAX,
    {
        count_one(self.data_max_size_serialized.is_some())
            + count_one(self.topic_name.is_some())
            + count_one(self.data_type_name.is_some())
            + count_one(self.durability.is_some())
            + count_one(self.deadline.is_some())
            + count_one(self.latency_budget.is_some())
            + count_one(self.liveliness.is_some())
            + count_one(self.reliability.is_some())
    }

    /// Number of fields stated among the remaining policies and the content filter.
    pub open spec fn spec_fields_amount_4(&self) -> nat {
        spec_one_if(self.ownership is Some)
            + spec_one_if(self.destination_order is Some)
            + spec_one_if(self.time_based_filter is Some)
            + spec_one_if(self.presentation is Some)
            + spec_one_if(self.lifespan is Some)
            + spec_one_if(self.history is Some)
            + spec_one_if(self.resource_limits is Some)
            + spec_one_if(self.content_filter_property is Some)
    }

    /// Counts the fields stated among the remaining policies and the content filter.
    fn fields_amount_4(&self) -> (n: u128)
        ensures
            n == self.spec_fields_amount_4(),
            n <= 8 * usize::MAX,
    {
        count_one(self.ownership.is_some())
            + count_one(self.destination_order.is_some())
            + count_one(self.time_based_filter.is_some())
            + count_one(self.presentation.is_some())
            + count_one(self.lifespan.is_some())
            + count_one(self.history.is_some())
            + count_one(self.resource_limits.is_some())
            + count_one(self.content_filter_property.is_some())
    }

    /// Number of fields that the serializer states: one for each field
    /// that is present, and one for each locator of a list that is
    /// present.
    pub open spec fn spec_fields_amount(&self) -> nat {
        self.spec_fields_amount_1() + self.spec_fields_amount_2() + self.spec_fields_amount_3()
            + self.spec_fields_amount_4()
    }

    /// Number of fields that the serializer states. A number beyond the
    /// range of `usize` is reported as the largest `usize`.
    pub fn fields_amount(&self) -> (count: usize)
        ensures
            self.spec_fields_amount() <= usize::MAX ==> count == self.spec_fields_amount(),
            self.spec_fields_amount() > usize::MAX ==> count == usize::MAX,
    {
        let total: u128 = self.fields_amount_1() + self.fields_amount_2()
            + self.fields_amount_3() + self.fields_amount_4();
        if total > usize::MAX as u128 {
            usize::MAX
        } else {
            total as usize
        }
    }
}

} // verus!
