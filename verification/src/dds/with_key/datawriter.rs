use crate::dds::ddsdata::DDSData;
use crate::dds::qos::policy::Liveliness;
use crate::dds::qos::policy::Reliability;
use crate::dds::qos::QosPolicies;
use crate::dds::topic::Topic;
use crate::dds::traits::key::Keyed;
use crate::dds::traits::serde_adapters::KeyedSerializerAdapter;
use crate::dds::values::result::Error;
use crate::dds::values::result::Result;
use crate::discovery::discovery::DiscoveryCommand;
use crate::messages::submessages::submessage_elements::serialized_payload::SerializedPayload;
use crate::structure::cache_change::ChangeKind;
use crate::structure::dds_cache::DDSCache;
use crate::structure::dds_cache::TopicKind;
use crate::structure::duration::Duration;
use crate::structure::guid::EntityId;
use crate::structure::guid::GuidPrefix;
use crate::structure::guid::GUID;
use crate::structure::time::Timestamp;
use core::marker::PhantomData;
use vstd::prelude::*;

verus! {

/// What a data writer asks of the writer of the event loop.
pub enum WriterCommand {
    /// Publish the change.
    DDSData { data: DDSData, source_timestamp: Option<Timestamp> },
    /// Tell when all that was written is acknowledged.
    WaitForAcknowledgments,
    /// Forget the deadlines missed so far.
    ResetOfferedDeadlineMissedStatus { writer_guid: GUID },
}

/// A command for the writer of the event loop, and for how long the data
/// writer may wait for room in the channel: the blocking time of a
/// reliable writer, no time else.
pub struct WriteRequest {
    pub command: WriterCommand,
    pub timeout: Option<Duration>,
}

/// What a data writer does to wait for acknowledgements.
#[derive(Clone, Copy, Debug, PartialEq, Eq, Structural)]
pub enum WaitDecision {
    /// Nothing is to be waited for: the writer is not reliable.
    Acknowledged,
    /// Ask the writer of the event loop, and wait for its reply.
    AskWriter,
}

/// The command that keeps the liveliness of a writer with the policies
/// `qos` asserted: the manual assertion for a participant where the
/// liveliness is manual by participant, none else.
pub open spec fn spec_refresh_command(qos: QosPolicies) -> Option<DiscoveryCommand> {
    match qos.liveliness {
        Some(Liveliness::ManualByParticipant { .. }) => Some(
            DiscoveryCommand::MANUAL_ASSERT_LIVELINESS,
        ),
        _ => None,
    }
}

/// The time that a write may block: the blocking time of a reliable
/// writer, none else.
pub open spec fn spec_write_timeout(qos: QosPolicies) -> Option<Duration> {
    match qos.reliability {
        Some(Reliability::Reliable { max_blocking_time }) => Some(max_blocking_time),
        _ => None,
    }
}

/// The application's handle for publishing values of a keyed topic. It
/// decides what is asked of the event loop and of discovery; the
/// application's side of the channels carries it out.
pub struct DataWriter<D: Keyed, SA: KeyedSerializerAdapter<D>> {
    my_topic: Topic,
    my_guid: GUID,
    qos_policy: QosPolicies,
    phantom: PhantomData<(D, SA)>,
}

impl<D: Keyed, SA: KeyedSerializerAdapter<D>> DataWriter<D, SA> {
    /// The identifier of the writer.
    pub closed spec fn guid(&self) -> GUID {
        self.my_guid
    }

    /// The policies of the writer.
    pub closed spec fn qos(&self) -> QosPolicies {
        self.qos_policy
    }

    /// The topic that the writer publishes.
    pub closed spec fn topic(&self) -> Topic {
        self.my_topic
    }

    /// A data writer of a participant for `topic`, with the policies of
    /// the topic, and the command to send to discovery at its creation, if
    /// any.
    ///
    /// The writer gets the prefix of its participant and the entity of
    /// `guid`, or the unknown entity where none is given, and the topic
    /// gets its history in the cache of the participant, where it has none
    /// yet. The history is one of serialized changes, whose keys it does
    /// not read. Fails with `PreconditionNotMet` where the participant is
    /// gone; the cache is then as it was.
    pub fn new(
        participant_prefix: Option<GuidPrefix>,
        topic: Topic,
        guid: Option<GUID>,
        dds_cache: &mut DDSCache,
    ) -> (r: Result<(DataWriter<D, SA>, Option<DiscoveryCommand>)>)
        requires
            old(dds_cache).wf(),
        ensures
            final(dds_cache).wf(),
            match r {
                Ok((writer, command)) => {
                    &&& participant_prefix matches Some(prefix) && writer.guid() == (GUID {
                        guid_prefix: prefix,
                        entity_id: match guid {
                            Some(g) => g.entity_id,
                            None => EntityId::spec_unknown(),
                        },
                    })
                    &&& writer.topic() == topic
                    &&& writer.qos() == topic.spec_qos()
                    &&& command == spec_refresh_command(topic.spec_qos())
                    &&& final(dds_cache).has_topic(topic.spec_name())
                    &&& old(dds_cache).has_topic(topic.spec_name()) ==> *final(dds_cache) == *old(
                        dds_cache,
                    )
                    &&& !old(dds_cache).has_topic(topic.spec_name()) ==> {
                        &&& final(dds_cache).topic(topic.spec_name()).kind() == TopicKind::NoKey
                        &&& final(dds_cache).topic(topic.spec_name()).data_type()
                            == topic.spec_type()
                        &&& final(dds_cache).topic(topic.spec_name()).changes().len() == 0
                        &&& forall|n: Seq<char>|
                            old(dds_cache).has_topic(n) ==> #[trigger] final(dds_cache).has_topic(n)
                                && final(dds_cache).topic(n) == old(dds_cache).topic(n)
                    }
                },
                Err(e) => e == Error::PreconditionNotMet && participant_prefix is None
                    && *final(dds_cache) == *old(dds_cache),
            },
    {
        let entity_id = match guid {
            Some(g) => g.entity_id,
            None => EntityId::unknown(),
        };
        let prefix = match participant_prefix {
            Some(prefix) => prefix,
            None => {
                return Err(Error::PreconditionNotMet);
            },
        };
        let my_guid = GUID::new_with_prefix_and_id(prefix, entity_id);
        dds_cache.add_topic(topic.get_name().clone(), TopicKind::NoKey, topic.get_type().clone());
        let qos = topic.get_qos();
        let writer = DataWriter { my_topic: topic, my_guid, qos_policy: qos, phantom: PhantomData };
        let command = writer.refresh_manual_liveliness();
        Ok((writer, command))
    }

    /// The topic that the writer publishes.
    pub fn get_topic(&self) -> (t: &Topic)
        ensures
            *t == self.topic(),
    {
        &self.my_topic
    }

    /// The identifier of the writer.
    pub fn get_guid(&self) -> (g: GUID)
        ensures
            g == self.guid(),
    {
        self.my_guid
    }

    /// The policies of the writer.
    pub fn get_qos(&self) -> (q: QosPolicies)
        ensures
            q == self.qos(),
    {
        self.qos_policy
    }

    /// The command that refreshes the liveliness of the writer, where its
    /// policies ask for one.
    pub fn refresh_manual_liveliness(&self) -> (command: Option<DiscoveryCommand>)
        ensures
            command == spec_refresh_command(self.qos()),
    {
        match self.qos_policy.liveliness {
            Some(Liveliness::ManualByParticipant { .. }) => Some(
                DiscoveryCommand::MANUAL_ASSERT_LIVELINESS,
            ),
            _ => None,
        }
    }

    /// The request that publishes the value given as serialized payload.
    pub fn write_request(&self, payload: SerializedPayload, source_timestamp: Option<Timestamp>) -> (request:
        WriteRequest)
        ensures
            request.command == (WriterCommand::DDSData {
                data: DDSData::Data { serialized_payload: payload },
                source_timestamp,
            }),
            request.timeout == spec_write_timeout(self.qos()),
    {
        let timeout = match self.qos_policy.reliability {
            Some(Reliability::Reliable { max_blocking_time }) => Some(max_blocking_time),
            _ => None,
        };
        WriteRequest {
            command: WriterCommand::DDSData { data: DDSData::new(payload), source_timestamp },
            timeout,
        }
    }

    /// Serializes a value and makes the request that publishes it: the
    /// payload holds the bytes that the adapter makes of the value, in the
    /// encoding of the adapter and without options. Fails with
    /// `Serialization` where the adapter has no bytes for the value.
    pub fn write(&self, data: D, source_timestamp: Option<Timestamp>) -> (r: Result<WriteRequest>)
        ensures
            match SA::spec_to_bytes(&data) {
                Ok(bytes) => r matches Ok(request) && request.timeout == spec_write_timeout(
                    self.qos(),
                ) && (request.command matches WriterCommand::DDSData {
                    data: DDSData::Data { serialized_payload },
                    source_timestamp: stamp,
                } && stamp == source_timestamp && serialized_payload.spec_view() == (
                    SA::spec_output_encoding().value,
                    0u16,
                    bytes,
                )),
                Err(_) => r matches Err(e) && e == Error::Serialization,
            },
    {
        let send_buffer = match SA::to_bytes(&data) {
            Ok(bytes) => bytes,
            Err(_) => {
                return Err(Error::Serialization);
            },
        };
        let payload = SerializedPayload::new_from_bytes(SA::output_encoding(), send_buffer);
        Ok(self.write_request(payload, source_timestamp))
    }

    /// What a write gives once the request was handed to the channel or
    /// the channel stayed full, and the command for discovery that follows
    /// a write that was handed over: `OutOfResources` where the channel
    /// stayed full, else success and the refresh of the liveliness.
    pub fn write_completed(&self, sent: bool) -> (r: (Result<()>, Option<DiscoveryCommand>))
        ensures
            sent ==> r.0 is Ok && r.1 == spec_refresh_command(self.qos()),
            !sent ==> r.0 == Err::<(), Error>(Error::OutOfResources) && r.1 is None,
    {
        if sent {
            (Ok(()), self.refresh_manual_liveliness())
        } else {
            (Err(Error::OutOfResources), None)
        }
    }

    /// The request that disposes the instance with the key given as
    /// serialized payload.
    pub fn dispose_request(&self, key: SerializedPayload, source_timestamp: Option<Timestamp>) -> (command:
        WriterCommand)
        ensures
            command == (WriterCommand::DDSData {
                data: DDSData::DisposeByKey { change_kind: ChangeKind::NotAliveDisposed, key },
                source_timestamp,
            }),
    {
        WriterCommand::DDSData {
            data: DDSData::new_disposed_by_key(ChangeKind::NotAliveDisposed, key),
            source_timestamp,
        }
    }

    /// Serializes a key and makes the request that disposes its instance:
    /// the payload holds the bytes that the adapter makes of the key, in
    /// the encoding of the adapter and without options. Fails with
    /// `Serialization` where the adapter has no bytes for the key.
    pub fn dispose(&self, key: D::K, source_timestamp: Option<Timestamp>) -> (r: Result<
        WriterCommand,
    >)
        ensures
            match SA::spec_key_to_bytes(&key) {
                Ok(bytes) => r matches Ok(command) && (command matches WriterCommand::DDSData {
                    data: DDSData::DisposeByKey { change_kind, key: payload },
                    source_timestamp: stamp,
                } && change_kind == ChangeKind::NotAliveDisposed && stamp == source_timestamp
                    && payload.spec_view() == (SA::spec_output_encoding().value, 0u16, bytes)),
                Err(_) => r matches Err(e) && e == Error::Serialization,
            },
    {
        let send_buffer = match SA::key_to_bytes(&key) {
            Ok(bytes) => bytes,
            Err(_) => {
                return Err(Error::Serialization);
            },
        };
        let payload = SerializedPayload::new_from_bytes(SA::output_encoding(), send_buffer);
        Ok(self.dispose_request(payload, source_timestamp))
    }

    /// What a dispose gives once the request was handed to the channel or
    /// the channel failed: `Internal` where it failed, else success and
    /// the refresh of the liveliness.
    pub fn dispose_completed(&self, sent: bool) -> (r: (Result<()>, Option<DiscoveryCommand>))
        ensures
            sent ==> r.0 is Ok && r.1 == spec_refresh_command(self.qos()),
            !sent ==> r.0 == Err::<(), Error>(Error::Internal) && r.1 is None,
    {
        if sent {
            (Ok(()), self.refresh_manual_liveliness())
        } else {
            (Err(Error::Internal), None)
        }
    }

    /// How to wait for the acknowledgement of all that was written: a
    /// writer that is not reliable has nothing to wait for.
    pub fn wait_for_acknowledgments(&self) -> (decision: WaitDecision)
        ensures
            decision == match self.qos().reliability {
                Some(Reliability::Reliable { .. }) => WaitDecision::AskWriter,
                _ => WaitDecision::Acknowledged,
            },
    {
        match self.qos_policy.reliability {
            Some(Reliability::Reliable { .. }) => WaitDecision::AskWriter,
            _ => WaitDecision::Acknowledged,
        }
    }

    /// The commands that assert the liveliness of the writer by hand: the
    /// refresh that its policies ask for, and for liveliness manual by
    /// topic the assertion for its topic.
    pub fn assert_liveliness(&self) -> (commands: Vec<DiscoveryCommand>)
        ensures
            commands@ == match self.qos().liveliness {
                Some(Liveliness::ManualByParticipant { .. }) => seq![
                    DiscoveryCommand::MANUAL_ASSERT_LIVELINESS,
                ],
                Some(Liveliness::ManualByTopic { .. }) => seq![
                    DiscoveryCommand::ASSERT_TOPIC_LIVELINESS {
                        writer_guid: self.guid(),
                        manual_assertion: true,
                    },
                ],
                _ => Seq::empty(),
            },
    {
        let mut commands: Vec<DiscoveryCommand> = Vec::new();
        match self.refresh_manual_liveliness() {
            Some(command) => {
                commands.push(command);
            },
            None => {},
        }
        match self.qos_policy.liveliness {
            Some(Liveliness::ManualByTopic { .. }) => {
                commands.push(
                    DiscoveryCommand::ASSERT_TOPIC_LIVELINESS {
                        writer_guid: self.my_guid,
                        manual_assertion: true,
                    },
                );
            },
            _ => {},
        }
        proof {
            match self.qos().liveliness {
                Some(Liveliness::ManualByParticipant { .. }) => {
                    assert(commands@ =~= seq![DiscoveryCommand::MANUAL_ASSERT_LIVELINESS]);
                },
                Some(Liveliness::ManualByTopic { .. }) => {
                    assert(commands@ =~= seq![
                        DiscoveryCommand::ASSERT_TOPIC_LIVELINESS {
                            writer_guid: self.guid(),
                            manual_assertion: true,
                        },
                    ]);
                },
                _ => {
                    assert(commands@ =~= Seq::<DiscoveryCommand>::empty());
                },
            }
        }
        commands
    }

    /// The command that tells discovery that the writer is gone.
    pub fn removal_command(&self) -> (command: DiscoveryCommand)
        ensures
            command == (DiscoveryCommand::REMOVE_LOCAL_WRITER { guid: self.guid() }),
    {
        DiscoveryCommand::REMOVE_LOCAL_WRITER { guid: self.my_guid }
    }
}

} // verus!
