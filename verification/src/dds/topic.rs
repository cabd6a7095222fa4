use crate::dds::qos::QosPolicies;
use crate::structure::dds_cache::TopicKind;
use vstd::prelude::*;

verus! {

/// A named stream of values of one type, with the policies that its
/// readers and writers start from.
#[derive(Debug, Clone, PartialEq, Eq)]
pub struct Topic {
    name: String,
    data_type_name: String,
    topic_kind: TopicKind,
    qos: QosPolicies,
}

impl Topic {
    /// The name of the topic.
    pub closed spec fn spec_name(&self) -> Seq<char> {
        self.name@
    }

    /// The name of the type of its values.
    pub closed spec fn spec_type(&self) -> Seq<char> {
        self.data_type_name@
    }

    /// Whether its values belong to instances named by a key.
    pub closed spec fn spec_kind(&self) -> TopicKind {
        self.topic_kind
    }

    /// The policies of the topic.
    pub closed spec fn spec_qos(&self) -> QosPolicies {
        self.qos
    }

    /// Whether two topics state the same.
    pub open spec fn spec_same(&self, other: &Topic) -> bool {
        &&& self.spec_name() == other.spec_name()
        &&& self.spec_type() == other.spec_type()
        &&& self.spec_kind() == other.spec_kind()
        &&& self.spec_qos() == other.spec_qos()
    }

    /// The topic `name` of values of the type `data_type_name`.
    pub fn new(name: String, data_type_name: String, qos: QosPolicies, topic_kind: TopicKind) -> (t:
        Topic)
        ensures
            t.spec_name() == name@,
            t.spec_type() == data_type_name@,
            t.spec_kind() == topic_kind,
            t.spec_qos() == qos,
    {
        Topic { name, data_type_name, topic_kind, qos }
    }

    /// The name of the topic.
    pub fn get_name(&self) -> (name: &String)
        ensures
            name@ == self.spec_name(),
    {
        &self.name
    }

    /// The name of the type of its values.
    pub fn get_type(&self) -> (name: &String)
        ensures
            name@ == self.spec_type(),
    {
        &self.data_type_name
    }

    /// Whether its values belong to instances named by a key.
    pub fn kind(&self) -> (kind: TopicKind)
        ensures
            kind == self.spec_kind(),
    {
        self.topic_kind
    }

    /// The policies of the topic.
    pub fn get_qos(&self) -> (qos: QosPolicies)
        ensures
            qos == self.spec_qos(),
    {
        self.qos
    }

    /// Whether two topics state the same.
    pub fn same_as(&self, other: &Topic) -> (same: bool)
        ensures
            same == self.spec_same(other),
    {
        self.name == other.name && self.data_type_name == other.data_type_name
            && self.topic_kind == other.topic_kind && self.qos == other.qos
    }
}

} // verus!
