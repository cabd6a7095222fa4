use crate::dds::traits::key::Key;
use crate::dds::traits::key::KeyHash;
use crate::dds::traits::key::Keyed;
use crate::dds::qos::policy::Deadline;
use crate::dds::qos::policy::DestinationOrder;
use crate::dds::qos::policy::Durability;
use crate::dds::qos::policy::History;
use crate::dds::qos::policy::LatencyBudget;
use crate::dds::qos::policy::Lifespan;
use crate::dds::qos::policy::Liveliness;
use crate::dds::qos::policy::Ownership;
use crate::dds::qos::policy::Presentation;
use crate::dds::qos::policy::Reliability;
use crate::dds::qos::policy::ResourceLimits;
use crate::dds::qos::policy::TimeBasedFilter;
use crate::dds::qos::QosPolicies;
use crate::discovery::content_filter_property::ContentFilterProperty;
use crate::structure::guid::GuidPrefix;
use crate::structure::guid::GUID;
use crate::structure::locator::LocatorList;
use crate::structure::time::Timestamp;
use vstd::prelude::*;

verus! {

/// Where and how a remote reader can be reached.
#[derive(Debug, Clone)]
pub struct ReaderProxy {
    pub remote_reader_guid: GUID,
    pub expects_inline_qos: bool,
    pub unicast_locator_list: LocatorList,
    pub multicast_locator_list: LocatorList,
}

impl ReaderProxy {
    /// The proxy of the reader `guid`, without locators.
    pub fn new(guid: GUID) -> (p: ReaderProxy)
        ensures
            p.remote_reader_guid == guid,
            !p.expects_inline_qos,
            p.unicast_locator_list@.len() == 0,
            p.multicast_locator_list@.len() == 0,
    {
        ReaderProxy {
            remote_reader_guid: guid,
            expects_inline_qos: false,
            unicast_locator_list: Vec::new(),
            multicast_locator_list: Vec::new(),
        }
    }
}

/// Where a remote writer can be reached.
#[derive(Debug, Clone)]
pub struct WriterProxy {
    pub remote_writer_guid: GUID,
    pub unicast_locator_list: LocatorList,
    pub multicast_locator_list: LocatorList,
    pub data_max_size_serialized: Option<u32>,
}

impl WriterProxy {
    /// The proxy of the writer `guid` with the given locators.
    pub fn new(
        guid: GUID,
        unicast_locator_list: LocatorList,
        multicast_locator_list: LocatorList,
    ) -> (p: WriterProxy)
        ensures
            p.remote_writer_guid == guid,
            p.unicast_locator_list == unicast_locator_list,
            p.multicast_locator_list == multicast_locator_list,
            p.data_max_size_serialized is None,
    {
        WriterProxy {
            remote_writer_guid: guid,
            unicast_locator_list,
            multicast_locator_list,
            data_max_size_serialized: None,
        }
    }
}

/// Whether two locator lists hold the same locators in the same order.
pub fn locators_equal(a: &LocatorList, b: &LocatorList) -> (same: bool)
    ensures
        same == (a@ == b@),
{
    if a.len() != b.len() {
        return false;
    }
    let mut i: usize = 0;
    while i < a.len()
        invariant
            i <= a.len(),
            a.len() == b.len(),
            forall|k: int| 0 <= k < i ==> a@[k] == b@[k],
        decreases a.len() - i,
    {
        if a[i] != b[i] {
            return false;
        }
        i += 1;
    }
    assert(a@ =~= b@);
    true
}

impl ReaderProxy {
    /// Whether two proxies state the same.
    pub open spec fn spec_same(&self, other: &ReaderProxy) -> bool {
        &&& self.remote_reader_guid == other.remote_reader_guid
        &&& self.expects_inline_qos == other.expects_inline_qos
        &&& self.unicast_locator_list@ == other.unicast_locator_list@
        &&& self.multicast_locator_list@ == other.multicast_locator_list@
    }

    /// Whether two proxies state the same.
    pub fn same_as(&self, other: &ReaderProxy) -> (same: bool)
        ensures
            same == self.spec_same(other),
    {
        self.remote_reader_guid == other.remote_reader_guid && self.expects_inline_qos
            == other.expects_inline_qos && locators_equal(
            &self.unicast_locator_list,
            &other.unicast_locator_list,
        ) && locators_equal(&self.multicast_locator_list, &other.multicast_locator_list)
    }

    /// A copy of the proxy.
    pub fn duplicate(&self) -> (copy: ReaderProxy)
        ensures
            copy.spec_same(self),
    {
        ReaderProxy {
            remote_reader_guid: self.remote_reader_guid,
            expects_inline_qos: self.expects_inline_qos,
            unicast_locator_list: crate::structure::locator::copy_locators(
                &self.unicast_locator_list,
            ),
            multicast_locator_list: crate::structure::locator::copy_locators(
                &self.multicast_locator_list,
            ),
        }
    }
}

impl WriterProxy {
    /// Whether two proxies state the same.
    pub open spec fn spec_same(&self, other: &WriterProxy) -> bool {
        &&& self.remote_writer_guid == other.remote_writer_guid
        &&& self.unicast_locator_list@ == other.unicast_locator_list@
        &&& self.multicast_locator_list@ == other.multicast_locator_list@
        &&& self.data_max_size_serialized == other.data_max_size_serialized
    }

    /// Whether two proxies state the same.
    pub fn same_as(&self, other: &WriterProxy) -> (same: bool)
        ensures
            same == self.spec_same(other),
    {
        let same_size = match (self.data_max_size_serialized, other.data_max_size_serialized) {
            (Some(a), Some(b)) => a == b,
            (None, None) => true,
            _ => false,
        };
        self.remote_writer_guid == other.remote_writer_guid && same_size && locators_equal(
            &self.unicast_locator_list,
            &other.unicast_locator_list,
        ) && locators_equal(&self.multicast_locator_list, &other.multicast_locator_list)
    }

    /// A copy of the proxy.
    pub fn duplicate(&self) -> (copy: WriterProxy)
        ensures
            copy.spec_same(self),
    {
        WriterProxy {
            remote_writer_guid: self.remote_writer_guid,
            unicast_locator_list: crate::structure::locator::copy_locators(
                &self.unicast_locator_list,
            ),
            multicast_locator_list: crate::structure::locator::copy_locators(
                &self.multicast_locator_list,
            ),
            data_max_size_serialized: self.data_max_size_serialized,
        }
    }
}

/// Whether two identifiers that may be absent are the same.
pub fn same_guid(a: Option<GUID>, b: Option<GUID>) -> (same: bool)
    ensures
        same == (a == b),
{
    match (a, b) {
        (Some(x), Some(y)) => x == y,
        (None, None) => true,
        _ => false,
    }
}

/// What a subscription tells of its topic and of the policies it asks for.
#[derive(Debug, Clone)]
pub struct SubscriptionBuiltinTopicData {
    pub key: GUID,
    pub participant_key: Option<GUID>,
    pub topic_name: String,
    pub data_type_name: String,
    pub durability: Option<Durability>,
    pub deadline: Option<Deadline>,
    pub latency_budget: Option<LatencyBudget>,
    pub liveliness: Option<Liveliness>,
    pub reliability: Option<Reliability>,
    pub ownership: Option<Ownership>,
    pub destination_order: Option<DestinationOrder>,
    pub time_based_filter: Option<TimeBasedFilter>,
    pub presentation: Option<Presentation>,
    pub lifespan: Option<Lifespan>,
}

impl SubscriptionBuiltinTopicData {
    /// The data of the subscription `key` to the topic `topic_name` of type
    /// `data_type_name` under the policies `qos`.
    pub fn new(key: GUID, topic_name: String, data_type_name: String, qos: &QosPolicies) -> (d:
        SubscriptionBuiltinTopicData)
        ensures
            d.key == key,
            d.participant_key is None,
            d.topic_name == topic_name,
            d.data_type_name == data_type_name,
            d.spec_qos() == (QosPolicies { history: None, resource_limits: None, ..*qos }),
    {
        SubscriptionBuiltinTopicData {
            key,
            participant_key: None,
            topic_name,
            data_type_name,
            durability: qos.durability,
            deadline: qos.deadline,
            latency_budget: qos.latency_budget,
            liveliness: qos.liveliness,
            reliability: qos.reliability,
            ownership: qos.ownership,
            destination_order: qos.destination_order,
            time_based_filter: qos.time_based_filter,
            presentation: qos.presentation,
            lifespan: qos.lifespan,
        }
    }

    /// The policies that the subscription asks for.
    pub open spec fn spec_qos(&self) -> QosPolicies {
        QosPolicies {
            durability: self.durability,
            presentation: self.presentation,
            deadline: self.deadline,
            latency_budget: self.latency_budget,
            ownership: self.ownership,
            liveliness: self.liveliness,
            time_based_filter: self.time_based_filter,
            reliability: self.reliability,
            destination_order: self.destination_order,
            history: None,
            resource_limits: None,
            lifespan: self.lifespan,
        }
    }

    /// The policies that the subscription asks for.
    pub fn qos(&self) -> (q: QosPolicies)
        ensures
            q == self.spec_qos(),
    {
        QosPolicies {
            durability: self.durability,
            presentation: self.presentation,
            deadline: self.deadline,
            latency_budget: self.latency_budget,
            ownership: self.ownership,
            liveliness: self.liveliness,
            time_based_filter: self.time_based_filter,
            reliability: self.reliability,
            destination_order: self.destination_order,
            history: None,
            resource_limits: None,
            lifespan: self.lifespan,
        }
    }
}

impl SubscriptionBuiltinTopicData {
    /// Whether two records state the same.
    pub open spec fn spec_same(&self, other: &SubscriptionBuiltinTopicData) -> bool {
        &&& self.key == other.key
        &&& self.participant_key == other.participant_key
        &&& self.topic_name@ == other.topic_name@
        &&& self.data_type_name@ == other.data_type_name@
        &&& self.spec_qos() == other.spec_qos()
    }

    /// Whether two records state the same.
    pub fn same_as(&self, other: &SubscriptionBuiltinTopicData) -> (same: bool)
        ensures
            same == self.spec_same(other),
    {
        self.key == other.key && same_guid(self.participant_key, other.participant_key)
            && self.topic_name == other.topic_name && self.data_type_name == other.data_type_name
            && self.qos() == other.qos()
    }

    /// A copy of the record.
    pub fn duplicate(&self) -> (copy: SubscriptionBuiltinTopicData)
        ensures
            copy.spec_same(self),
    {
        SubscriptionBuiltinTopicData {
            key: self.key,
            participant_key: self.participant_key,
            topic_name: self.topic_name.clone(),
            data_type_name: self.data_type_name.clone(),
            durability: self.durability,
            deadline: self.deadline,
            latency_budget: self.latency_budget,
            liveliness: self.liveliness,
            reliability: self.reliability,
            ownership: self.ownership,
            destination_order: self.destination_order,
            time_based_filter: self.time_based_filter,
            presentation: self.presentation,
            lifespan: self.lifespan,
        }
    }
}

/// What a publication tells of its topic and of the policies it offers.
#[derive(Debug, Clone)]
pub struct PublicationBuiltinTopicData {
    pub key: GUID,
    pub participant_key: Option<GUID>,
    pub topic_name: String,
    pub data_type_name: String,
    pub durability: Option<Durability>,
    pub deadline: Option<Deadline>,
    pub latency_budget: Option<LatencyBudget>,
    pub liveliness: Option<Liveliness>,
    pub reliability: Option<Reliability>,
    pub lifespan: Option<Lifespan>,
    pub time_based_filter: Option<TimeBasedFilter>,
    pub ownership: Option<Ownership>,
    pub destination_order: Option<DestinationOrder>,
    pub presentation: Option<Presentation>,
}

impl PublicationBuiltinTopicData {
    /// The data of the publication `guid` of the participant
    /// `participant_guid` to the topic `topic_name` of type `data_type_name`,
    /// with no policy stated.
    pub fn new(guid: GUID, participant_guid: GUID, topic_name: String, data_type_name: String) -> (d:
        PublicationBuiltinTopicData)
        ensures
            d.key == guid,
            d.participant_key == Some(participant_guid),
            d.topic_name == topic_name,
            d.data_type_name == data_type_name,
            d.spec_qos() == QosPolicies::spec_qos_none(),
    {
        PublicationBuiltinTopicData {
            key: guid,
            participant_key: Some(participant_guid),
            topic_name,
            data_type_name,
            durability: None,
            deadline: None,
            latency_budget: None,
            liveliness: None,
            reliability: None,
            lifespan: None,
            time_based_filter: None,
            ownership: None,
            destination_order: None,
            presentation: None,
        }
    }

    /// The policies that the publication offers.
    pub open spec fn spec_qos(&self) -> QosPolicies {
        QosPolicies {
            durability: self.durability,
            presentation: self.presentation,
            deadline: self.deadline,
            latency_budget: self.latency_budget,
            ownership: self.ownership,
            liveliness: self.liveliness,
            time_based_filter: self.time_based_filter,
            reliability: self.reliability,
            destination_order: self.destination_order,
            history: None,
            resource_limits: None,
            lifespan: self.lifespan,
        }
    }

    /// The policies that the publication offers.
    pub fn qos(&self) -> (q: QosPolicies)
        ensures
            q == self.spec_qos(),
    {
        QosPolicies {
            durability: self.durability,
            presentation: self.presentation,
            deadline: self.deadline,
            latency_budget: self.latency_budget,
            ownership: self.ownership,
            liveliness: self.liveliness,
            time_based_filter: self.time_based_filter,
            reliability: self.reliability,
            destination_order: self.destination_order,
            history: None,
            resource_limits: None,
            lifespan: self.lifespan,
        }
    }
}

impl PublicationBuiltinTopicData {
    /// Whether two records state the same.
    pub open spec fn spec_same(&self, other: &PublicationBuiltinTopicData) -> bool {
        &&& self.key == other.key
        &&& self.participant_key == other.participant_key
        &&& self.topic_name@ == other.topic_name@
        &&& self.data_type_name@ == other.data_type_name@
        &&& self.spec_qos() == other.spec_qos()
    }

    /// Whether two records state the same.
    pub fn same_as(&self, other: &PublicationBuiltinTopicData) -> (same: bool)
        ensures
            same == self.spec_same(other),
    {
        self.key == other.key && same_guid(self.participant_key, other.participant_key)
            && self.topic_name == other.topic_name && self.data_type_name == other.data_type_name
            && self.qos() == other.qos()
    }

    /// A copy of the record.
    pub fn duplicate(&self) -> (copy: PublicationBuiltinTopicData)
        ensures
            copy.spec_same(self),
    {
        PublicationBuiltinTopicData {
            key: self.key,
            participant_key: self.participant_key,
            topic_name: self.topic_name.clone(),
            data_type_name: self.data_type_name.clone(),
            durability: self.durability,
            deadline: self.deadline,
            latency_budget: self.latency_budget,
            liveliness: self.liveliness,
            reliability: self.reliability,
            lifespan: self.lifespan,
            time_based_filter: self.time_based_filter,
            ownership: self.ownership,
            destination_order: self.destination_order,
            presentation: self.presentation,
        }
    }
}

/// What is told of a topic.
#[derive(Debug, Clone)]
pub struct TopicBuiltinTopicData {
    pub key: Option<GUID>,
    pub name: String,
    pub data_type_name: String,
    pub durability: Option<Durability>,
    pub deadline: Option<Deadline>,
    pub latency_budget: Option<LatencyBudget>,
    pub liveliness: Option<Liveliness>,
    pub reliability: Option<Reliability>,
    pub lifespan: Option<Lifespan>,
    pub destination_order: Option<DestinationOrder>,
    pub presentation: Option<Presentation>,
    pub history: Option<History>,
    pub resource_limits: Option<ResourceLimits>,
    pub ownership: Option<Ownership>,
}

impl TopicBuiltinTopicData {
    /// The policies of the topic.
    pub open spec fn spec_qos(&self) -> QosPolicies {
        QosPolicies {
            durability: self.durability,
            presentation: self.presentation,
            deadline: self.deadline,
            latency_budget: self.latency_budget,
            ownership: self.ownership,
            liveliness: self.liveliness,
            time_based_filter: None,
            reliability: self.reliability,
            destination_order: self.destination_order,
            history: self.history,
            resource_limits: self.resource_limits,
            lifespan: self.lifespan,
        }
    }

    /// The policies of the topic.
    pub fn qos(&self) -> (q: QosPolicies)
        ensures
            q == self.spec_qos(),
    {
        QosPolicies {
            durability: self.durability,
            presentation: self.presentation,
            deadline: self.deadline,
            latency_budget: self.latency_budget,
            ownership: self.ownership,
            liveliness: self.liveliness,
            time_based_filter: None,
            reliability: self.reliability,
            destination_order: self.destination_order,
            history: self.history,
            resource_limits: self.resource_limits,
            lifespan: self.lifespan,
        }
    }

    /// The data of the topic `name` of type `data_type_name` under the
    /// policies `qos`.
    pub fn new(key: Option<GUID>, name: String, data_type_name: String, qos: &QosPolicies) -> (d:
        TopicBuiltinTopicData)
        ensures
            d.key == key,
            d.name == name,
            d.data_type_name == data_type_name,
            d.spec_qos() == (QosPolicies { time_based_filter: None, ..*qos }),
    {
        TopicBuiltinTopicData {
            key,
            name,
            data_type_name,
            durability: qos.durability,
            deadline: qos.deadline,
            latency_budget: qos.latency_budget,
            liveliness: qos.liveliness,
            reliability: qos.reliability,
            lifespan: qos.lifespan,
            destination_order: qos.destination_order,
            presentation: qos.presentation,
            history: qos.history,
            resource_limits: qos.resource_limits,
            ownership: qos.ownership,
        }
    }

    /// Whether two records state the same.
    pub open spec fn spec_same(&self, other: &TopicBuiltinTopicData) -> bool {
        &&& self.key == other.key
        &&& self.name@ == other.name@
        &&& self.data_type_name@ == other.data_type_name@
        &&& self.spec_qos() == other.spec_qos()
    }

    /// Whether two records state the same.
    pub fn same_as(&self, other: &TopicBuiltinTopicData) -> (same: bool)
        ensures
            same == self.spec_same(other),
    {
        same_guid(self.key, other.key) && self.name == other.name && self.data_type_name
            == other.data_type_name && self.qos() == other.qos()
    }
}

/// What discovery knows of a reader.
#[derive(Debug, Clone)]
pub struct DiscoveredReaderData {
    pub reader_proxy: ReaderProxy,
    pub subscription_topic_data: SubscriptionBuiltinTopicData,
    pub content_filter: Option<ContentFilterProperty>,
}

/// Whether two lists of strings hold the same strings in the same order.
pub open spec fn spec_same_strings(a: Seq<String>, b: Seq<String>) -> bool {
    &&& a.len() == b.len()
    &&& forall|i: int| 0 <= i < a.len() ==> (#[trigger] a[i])@ == b[i]@
}

/// Whether two lists of strings hold the same strings in the same order.
pub fn strings_equal(a: &Vec<String>, b: &Vec<String>) -> (same: bool)
    ensures
        same == spec_same_strings(a@, b@),
{
    if a.len() != b.len() {
        return false;
    }
    let mut i: usize = 0;
    while i < a.len()
        invariant
            i <= a.len(),
            a.len() == b.len(),
            forall|k: int| 0 <= k < i ==> (#[trigger] a@[k])@ == b@[k]@,
        decreases a.len() - i,
    {
        if a[i] != b[i] {
            return false;
        }
        i += 1;
    }
    true
}

/// A copy of a list of strings.
pub fn copy_strings(list: &Vec<String>) -> (copy: Vec<String>)
    ensures
        spec_same_strings(copy@, list@),
{
    let mut copy: Vec<String> = Vec::new();
    let mut i: usize = 0;
    while i < list.len()
        invariant
            i <= list.len(),
            copy@.len() == i,
            forall|k: int| 0 <= k < i ==> (#[trigger] copy@[k])@ == list@[k]@,
        decreases list.len() - i,
    {
        copy.push(list[i].clone());
        i += 1;
    }
    copy
}

/// Whether two content filters that may be absent state the same.
pub open spec fn spec_same_filter(
    a: Option<ContentFilterProperty>,
    b: Option<ContentFilterProperty>,
) -> bool {
    match (a, b) {
        (Some(x), Some(y)) => {
            &&& x.content_filtered_topic_name@ == y.content_filtered_topic_name@
            &&& x.related_topic_name@ == y.related_topic_name@
            &&& x.filter_class_name@ == y.filter_class_name@
            &&& x.filter_expression@ == y.filter_expression@
            &&& spec_same_strings(x.expression_parameters@, y.expression_parameters@)
        },
        (None, None) => true,
        _ => false,
    }
}

/// Whether two content filters that may be absent state the same.
pub fn same_filter(a: &Option<ContentFilterProperty>, b: &Option<ContentFilterProperty>) -> (same:
    bool)
    ensures
        same == spec_same_filter(*a, *b),
{
    match (a, b) {
        (Some(x), Some(y)) => x.content_filtered_topic_name == y.content_filtered_topic_name
            && x.related_topic_name == y.related_topic_name && x.filter_class_name
            == y.filter_class_name && x.filter_expression == y.filter_expression && strings_equal(
            &x.expression_parameters,
            &y.expression_parameters,
        ),
        (None, None) => true,
        _ => false,
    }
}

/// A copy of a content filter that may be absent.
pub fn copy_filter(a: &Option<ContentFilterProperty>) -> (copy: Option<ContentFilterProperty>)
    ensures
        spec_same_filter(copy, *a),
{
    match a {
        Some(x) => Some(
            ContentFilterProperty {
                content_filtered_topic_name: x.content_filtered_topic_name.clone(),
                related_topic_name: x.related_topic_name.clone(),
                filter_class_name: x.filter_class_name.clone(),
                filter_expression: x.filter_expression.clone(),
                expression_parameters: copy_strings(&x.expression_parameters),
            },
        ),
        None => None,
    }
}

impl DiscoveredReaderData {
    /// Whether two records state the same.
    pub open spec fn spec_same(&self, other: &DiscoveredReaderData) -> bool {
        &&& self.reader_proxy.spec_same(&other.reader_proxy)
        &&& self.subscription_topic_data.spec_same(&other.subscription_topic_data)
        &&& spec_same_filter(self.content_filter, other.content_filter)
    }

    /// Whether two records state the same.
    pub fn same_as(&self, other: &DiscoveredReaderData) -> (same: bool)
        ensures
            same == self.spec_same(other),
    {
        self.reader_proxy.same_as(&other.reader_proxy) && self.subscription_topic_data.same_as(
            &other.subscription_topic_data,
        ) && same_filter(&self.content_filter, &other.content_filter)
    }

    /// A copy of the record.
    pub fn duplicate(&self) -> (copy: DiscoveredReaderData)
        ensures
            copy.spec_same(self),
    {
        DiscoveredReaderData {
            reader_proxy: self.reader_proxy.duplicate(),
            subscription_topic_data: self.subscription_topic_data.duplicate(),
            content_filter: copy_filter(&self.content_filter),
        }
    }
}

impl DiscoveredWriterData {
    /// Whether two records state the same, but for the time at which they
    /// were heard of.
    pub open spec fn spec_same(&self, other: &DiscoveredWriterData) -> bool {
        &&& self.writer_proxy.spec_same(&other.writer_proxy)
        &&& self.publication_topic_data.spec_same(&other.publication_topic_data)
    }

    /// Whether two records state the same, but for the time at which they
    /// were heard of.
    pub fn same_as(&self, other: &DiscoveredWriterData) -> (same: bool)
        ensures
            same == self.spec_same(other),
    {
        self.writer_proxy.same_as(&other.writer_proxy) && self.publication_topic_data.same_as(
            &other.publication_topic_data,
        )
    }

    /// A copy of the record.
    pub fn duplicate(&self) -> (copy: DiscoveredWriterData)
        ensures
            copy.spec_same(self),
            copy.last_updated == self.last_updated,
    {
        DiscoveredWriterData {
            last_updated: self.last_updated,
            writer_proxy: self.writer_proxy.duplicate(),
            publication_topic_data: self.publication_topic_data.duplicate(),
        }
    }
}

/// The key of a discovered reader: its identifier.
#[derive(Debug, Clone, Copy, PartialEq, Eq, Structural, Hash)]
pub struct DiscoveredReaderDataKey(pub GUID);

/// What discovery knows of a writer.
#[derive(Debug, Clone)]
pub struct DiscoveredWriterData {
    /// When the writer was heard of last.
    pub last_updated: Timestamp,
    pub writer_proxy: WriterProxy,
    pub publication_topic_data: PublicationBuiltinTopicData,
}

/// The key of a discovered writer: its identifier.
#[derive(Debug, Clone, Copy, PartialEq, Eq, Structural, Hash)]
pub struct DiscoveredWriterDataKey(pub GUID);

/// What discovery knows of a topic.
#[derive(Debug, Clone)]
pub struct DiscoveredTopicData {
    /// When the topic was heard of last.
    pub updated_time: Timestamp,
    pub topic_data: TopicBuiltinTopicData,
}

impl DiscoveredTopicData {
    /// The record of a topic heard of at `now`.
    pub fn new(now: Timestamp, topic_data: TopicBuiltinTopicData) -> (d: DiscoveredTopicData)
        ensures
            d.updated_time == now,
            d.topic_data == topic_data,
    {
        DiscoveredTopicData { updated_time: now, topic_data }
    }
}

/// The key of a discovered topic: its name.
#[derive(Debug, Clone)]
pub struct DiscoveredTopicDataKey(pub String);

/// What a liveliness message asserts.
#[derive(Debug, Clone, Copy, PartialEq, Eq, Structural, Hash)]
pub enum ParticipantMessageDataKind {
    Unknown,
    AutomaticLivelinessUpdate,
    ManualLivelinessUpdate,
}

/// A liveliness message: the participant that is alive, and by which kind
/// of assertion.
#[derive(Debug, Clone)]
pub struct ParticipantMessageData {
    pub guid: GuidPrefix,
    pub kind: ParticipantMessageDataKind,
    pub data: Vec<u8>,
}

/// The keys of discovered readers are ordered by their identifiers.
impl Key for DiscoveredReaderDataKey {
    open spec fn spec_lt(&self, other: &Self) -> bool {
        self.0.spec_lt(&other.0)
    }

    open spec fn spec_hash_key(&self) -> KeyHash {
        self.0.spec_hash_key()
    }

    proof fn lemma_strict_total_order(a: Self, b: Self, c: Self) {
        GUID::lemma_strict_total_order(a.0, b.0, c.0);
    }

    fn key_eq(&self, other: &Self) -> (b: bool) {
        self.0 == other.0
    }

    fn key_lt(&self, other: &Self) -> (b: bool) {
        self.0.key_lt(&other.0)
    }

    fn clone_key(&self) -> (k: Self) {
        *self
    }

    fn into_hash_key(&self) -> (h: KeyHash) {
        self.0.into_hash_key()
    }
}

/// What is heard of one reader is one instance.
impl Keyed for DiscoveredReaderData {
    type K = DiscoveredReaderDataKey;

    open spec fn spec_key(&self) -> DiscoveredReaderDataKey {
        DiscoveredReaderDataKey(self.reader_proxy.remote_reader_guid)
    }

    fn get_key(&self) -> (k: DiscoveredReaderDataKey) {
        DiscoveredReaderDataKey(self.reader_proxy.remote_reader_guid)
    }
}

/// The keys of discovered writers are ordered by their identifiers.
impl Key for DiscoveredWriterDataKey {
    open spec fn spec_lt(&self, other: &Self) -> bool {
        self.0.spec_lt(&other.0)
    }

    open spec fn spec_hash_key(&self) -> KeyHash {
        self.0.spec_hash_key()
    }

    proof fn lemma_strict_total_order(a: Self, b: Self, c: Self) {
        GUID::lemma_strict_total_order(a.0, b.0, c.0);
    }

    fn key_eq(&self, other: &Self) -> (b: bool) {
        self.0 == other.0
    }

    fn key_lt(&self, other: &Self) -> (b: bool) {
        self.0.key_lt(&other.0)
    }

    fn clone_key(&self) -> (k: Self) {
        *self
    }

    fn into_hash_key(&self) -> (h: KeyHash) {
        self.0.into_hash_key()
    }
}

/// What is heard of one writer is one instance.
impl Keyed for DiscoveredWriterData {
    type K = DiscoveredWriterDataKey;

    open spec fn spec_key(&self) -> DiscoveredWriterDataKey {
        DiscoveredWriterDataKey(self.writer_proxy.remote_writer_guid)
    }

    fn get_key(&self) -> (k: DiscoveredWriterDataKey) {
        DiscoveredWriterDataKey(self.writer_proxy.remote_writer_guid)
    }
}

} // verus!
