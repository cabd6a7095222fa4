use crate::dds::datasample::DataSample;
use crate::dds::datasample_cache::spec_evict;
use crate::dds::datasample_cache::spec_insert_sample;
use crate::dds::datasample_cache::spec_key_by_hash;
use crate::dds::datasample_cache::spec_instances_after;
use crate::dds::datasample_cache::spec_sample_key;
use crate::dds::datasample_cache::spec_sample_state;
use crate::dds::datasample_cache::DataSampleCache;
use crate::dds::datasample_cache::SampleWithMetaData;
use crate::dds::ddsdata::DDSData;
use crate::dds::qos::QosPolicies;
use crate::dds::readcondition::ReadCondition;
use crate::dds::traits::key::Keyed;
use crate::dds::traits::serde_adapters::KeyedDeserializerAdapter;
use crate::messages::submessages::submessage_elements::serialized_payload::bytes_as_slice;
use crate::messages::submessages::submessage_elements::serialized_payload::bytes_content;
use crate::structure::cache_change::CacheChange;
use crate::structure::guid::GUID;
use crate::structure::time::Timestamp;
use vstd::prelude::*;

verus! {

/// Whether the cache `after` is the cache `before` with the sample `sample`
/// of the writer `writer_guid` added at `receive_timestamp`: the instance
/// of the sample is recorded or updated, the sample stands in the order
/// of reception, and the oldest samples of its instance beyond the keep
/// count are gone.
pub open spec fn spec_received<D: Keyed>(
    before: DataSampleCache<D>,
    after: DataSampleCache<D>,
    sample: Result<D, D::K>,
    writer_guid: GUID,
    receive_timestamp: Timestamp,
    source_timestamp: Option<Timestamp>,
) -> bool {
    let key = spec_sample_key(sample);
    &&& after.contains_instance(key)
    &&& after.qos() == before.qos()
    &&& after.instances() == spec_instances_after(before.instances(), key, spec_sample_state(sample))
    &&& after.samples() == spec_evict(
        spec_insert_sample(
            before.samples(),
            SampleWithMetaData {
                receive_timestamp,
                generation_counts: after.instance(key).latest_generation_available,
                writer_guid,
                source_timestamp,
                sample_has_been_read: false,
                sample,
            },
        ),
        key,
        before.qos().spec_keep_count(),
    )
}

/// The sample that the change data `data` carries for a reader with the
/// cache `cache`, as the adapter `DA` reads it: the value that the
/// adapter reads from a payload, the key that it reads from a key
/// payload, or the key of the instance that the cache recorded last under
/// a key hash. There is none where the adapter reads nothing, or the
/// cache knows no instance under the hash.
pub open spec fn spec_sample_of<D: Keyed, DA: KeyedDeserializerAdapter<D>>(
    cache: DataSampleCache<D>,
    data: DDSData,
) -> Option<Result<D, D::K>> {
    match data {
        DDSData::Data { serialized_payload } => match DA::spec_from_bytes(
            bytes_content(serialized_payload.value),
            serialized_payload.representation_identifier,
        ) {
            Ok(value) => Some(Ok(value)),
            Err(_) => None,
        },
        DDSData::DisposeByKey { key, .. } => match DA::spec_key_from_bytes(
            bytes_content(key.value),
            key.representation_identifier,
        ) {
            Ok(k) => Some(Err(k)),
            Err(_) => None,
        },
        DDSData::DisposeByKeyHash { key_hash, .. } => match spec_key_by_hash(
            cache.instances(),
            key_hash,
            cache.instances().len() as int,
        ) {
            Some(k) => Some(Err(k)),
            None => None,
        },
    }
}

/// The application's view of a keyed topic: received samples wait in a
/// sample cache until the application reads or takes them.
pub struct DataReader<D: Keyed> {
    datasample_cache: DataSampleCache<D>,
}

impl<D: Keyed> DataReader<D> {
    /// The sample cache of the reader.
    pub closed spec fn cache(&self) -> DataSampleCache<D> {
        self.datasample_cache
    }

    /// The invariant of the reader: that of its cache.
    pub open spec fn wf(&self) -> bool {
        self.cache().wf()
    }

    /// A reader with an empty cache under the given policies.
    pub fn new(qos: QosPolicies) -> (r: DataReader<D>)
        ensures
            r.wf(),
            r.cache().qos() == qos,
            r.cache().samples().len() == 0,
            r.cache().instances().len() == 0,
    {
        DataReader { datasample_cache: DataSampleCache::new(qos) }
    }

    /// Replaces the policies of the reader.
    pub fn set_qos(&mut self, policy: QosPolicies)
        ensures
            final(self).cache().qos() == policy,
            final(self).cache().samples() == old(self).cache().samples(),
            final(self).cache().instances() == old(self).cache().instances(),
    {
        self.datasample_cache.set_qos_policy(policy);
    }

    /// The sample that change data carries, as the adapter `DA` reads it:
    /// the value of a payload, the key of a key payload, or the key that
    /// the cache knows under a key hash. There is none where the adapter
    /// cannot read the payload, or the cache knows no instance under the
    /// hash.
    pub fn sample_of<DA: KeyedDeserializerAdapter<D>>(&self, data: &DDSData) -> (r: Option<
        Result<D, D::K>,
    >)
        ensures
            r == spec_sample_of::<D, DA>(self.cache(), *data),
    {
        match data {
            DDSData::Data { serialized_payload } => {
                match DA::from_bytes(
                    bytes_as_slice(&serialized_payload.value),
                    serialized_payload.representation_identifier,
                ) {
                    Ok(value) => Some(Ok(value)),
                    Err(_) => None,
                }
            },
            DDSData::DisposeByKey { key, .. } => {
                match DA::key_from_bytes(bytes_as_slice(&key.value), key.representation_identifier) {
                    Ok(k) => Some(Err(k)),
                    Err(_) => None,
                }
            },
            DDSData::DisposeByKeyHash { key_hash, .. } => {
                match self.datasample_cache.get_key_by_hash(*key_hash) {
                    Some(k) => Some(Err(k)),
                    None => None,
                }
            },
        }
    }

    /// Takes in a change that arrived at `receive_timestamp`, and tells
    /// whether its sample went into the cache. It does where the adapter
    /// `DA` reads a sample from the change, and the cache holds no sample
    /// of that reception timestamp yet: the sample is then added as one of
    /// the writer of the change, with the source timestamp of the change.
    /// Else the cache stays as it is.
    pub fn receive_change<DA: KeyedDeserializerAdapter<D>>(
        &mut self,
        change: &CacheChange,
        receive_timestamp: Timestamp,
    ) -> (accepted: bool)
        requires
            old(self).wf(),
        ensures
            final(self).wf(),
            accepted == (spec_sample_of::<D, DA>(old(self).cache(), change.data_value) is Some
                && !old(self).cache().contains_sample(receive_timestamp)),
            !accepted ==> final(self).cache() == old(self).cache(),
            accepted ==> spec_received(
                old(self).cache(),
                final(self).cache(),
                spec_sample_of::<D, DA>(old(self).cache(), change.data_value)->0,
                change.writer_guid,
                receive_timestamp,
                change.source_timestamp,
            ),
    {
        match self.sample_of::<DA>(&change.data_value) {
            Some(sample) => self.receive_sample(
                sample,
                change.writer_guid,
                receive_timestamp,
                change.source_timestamp,
            ),
            None => false,
        }
    }

    /// The policies of the reader.
    pub fn get_qos(&self) -> (q: QosPolicies)
        ensures
            q == self.cache().qos(),
    {
        self.datasample_cache.get_qos()
    }

    /// Takes note that the writer `writer_guid` is lost: the instances
    /// that it wrote last and that are alive have no writers from now on,
    /// which the application sees at its next access.
    pub fn writer_lost(&mut self, writer_guid: GUID)
        requires
            old(self).wf(),
        ensures
            final(self).wf(),
            final(self).cache().qos() == old(self).cache().qos(),
            final(self).cache().samples() == old(self).cache().samples(),
            final(self).cache().instances().len() == old(self).cache().instances().len(),
            forall|j: int|
                0 <= j < old(self).cache().instances().len() ==> (
                #[trigger] final(self).cache().instances()[j]).key
                    == old(self).cache().instances()[j].key && final(self).cache().instances()[j].meta
                    == (crate::dds::datasample_cache::InstanceMetaData {
                    instance_state: crate::dds::datasample_cache::spec_state_after_loss(
                        old(self).cache().samples(),
                        old(self).cache().instances()[j],
                        writer_guid,
                    ),
                    ..old(self).cache().instances()[j].meta
                }),
    {
        self.datasample_cache.writer_lost(writer_guid);
    }

    /// Hands a received sample to the cache. A sample whose reception
    /// timestamp the cache holds already is refused, and `false` returned.
    pub fn receive_sample(
        &mut self,
        new_sample: Result<D, D::K>,
        writer_guid: GUID,
        receive_timestamp: Timestamp,
        source_timestamp: Option<Timestamp>,
    ) -> (accepted: bool)
        requires
            old(self).wf(),
        ensures
            final(self).wf(),
            accepted == !old(self).cache().contains_sample(receive_timestamp),
            !accepted ==> final(self).cache() == old(self).cache(),
            accepted ==> spec_received(
                old(self).cache(),
                final(self).cache(),
                new_sample,
                writer_guid,
                receive_timestamp,
                source_timestamp,
            ),
    {
        match self.datasample_cache.find_sample(receive_timestamp) {
            Some(_) => false,
            None => {
                self.datasample_cache.add_sample(
                    new_sample,
                    writer_guid,
                    receive_timestamp,
                    source_timestamp,
                );
                true
            },
        }
    }

    /// Reads at most `max_samples` of the samples that pass
    /// `read_condition`, the oldest first. They stay in the cache, marked
    /// as read.
    pub fn read(&mut self, max_samples: usize, read_condition: ReadCondition) -> (r: Vec<
        DataSample<&D, D::K>,
    >)
        requires
            old(self).wf(),
        ensures
            final(self).wf(),
            ({
                let keys = spec_first_keys(
                    old(self).cache().spec_select(read_condition),
                    max_samples as nat,
                );
                &&& final(self).cache().is_after_read(old(self).cache(), keys)
                &&& r.len() == keys.len()
                &&& forall|n: int|
                    0 <= n < keys.len() ==> (#[trigger] r[n]).sample_info == old(self).cache().spec_sample_info(keys, n) && r[n].value
                        == crate::dds::datasample_cache::spec_as_ref(
                        &old(self).cache().sample_at(keys[n].0).sample,
                    )
            }),
    {
        let mut keys = self.datasample_cache.select_keys_for_access(read_condition);
        let ghost selected = keys@;
        keys.truncate(max_samples);
        proof {
            assert(keys@ =~= spec_first_keys(selected, max_samples as nat));
            assert(self.datasample_cache.keys_valid(keys@));
        }
        self.datasample_cache.read_by_keys(keys.as_slice())
    }

    /// Takes at most `max_samples` of the samples that pass
    /// `read_condition` out of the cache, the oldest first.
    pub fn take(&mut self, max_samples: usize, read_condition: ReadCondition) -> (r: Vec<
        DataSample<D, D::K>,
    >)
        requires
            old(self).wf(),
        ensures
            final(self).wf(),
            ({
                let keys = spec_first_keys(
                    old(self).cache().spec_select(read_condition),
                    max_samples as nat,
                );
                &&& final(self).cache().is_after_take(old(self).cache(), keys)
                &&& r.len() == keys.len()
                &&& forall|n: int|
                    0 <= n < keys.len() ==> (#[trigger] r[n]).sample_info == old(self).cache().spec_sample_info(keys, n) && r[n].value == old(self).cache().sample_at(keys[n].0).sample
            }),
    {
        let mut keys = self.datasample_cache.select_keys_for_access(read_condition);
        let ghost selected = keys@;
        keys.truncate(max_samples);
        proof {
            assert(keys@ =~= spec_first_keys(selected, max_samples as nat));
            assert(self.datasample_cache.keys_valid(keys@));
        }
        self.datasample_cache.take_by_keys(keys.as_slice())
    }

    /// Reads the oldest sample that was not read before, if there is one.
    pub fn read_next_sample(&mut self) -> (r: Option<DataSample<&D, D::K>>)
        requires
            old(self).wf(),
        ensures
            final(self).wf(),
            ({
                let keys = spec_first_keys(
                    old(self).cache().spec_select(ReadCondition::spec_not_read()),
                    1,
                );
                &&& final(self).cache().is_after_read(old(self).cache(), keys)
                &&& r is Some <==> keys.len() == 1
                &&& r matches Some(s) ==> s.sample_info == old(self).cache().spec_sample_info(
                    keys,
                    0,
                ) && s.value == crate::dds::datasample_cache::spec_as_ref(
                    &old(self).cache().sample_at(keys[0].0).sample,
                )
            }),
    {
        let mut ds = self.read(1, ReadCondition::not_read());
        ds.pop()
    }

    /// Takes the oldest sample that was not read before, if there is one.
    pub fn take_next_sample(&mut self) -> (r: Option<DataSample<D, D::K>>)
        requires
            old(self).wf(),
        ensures
            final(self).wf(),
            ({
                let keys = spec_first_keys(
                    old(self).cache().spec_select(ReadCondition::spec_not_read()),
                    1,
                );
                &&& final(self).cache().is_after_take(old(self).cache(), keys)
                &&& r is Some <==> keys.len() == 1
                &&& r matches Some(s) ==> s.sample_info == old(self).cache().spec_sample_info(
                    keys,
                    0,
                ) && s.value == old(self).cache().sample_at(keys[0].0).sample
            }),
    {
        let mut ds = self.take(1, ReadCondition::not_read());
        ds.pop()
    }
}

/// The first `max` entries of a batch.
pub open spec fn spec_first_keys<K>(keys: Seq<(Timestamp, K)>, max: nat) -> Seq<(Timestamp, K)> {
    if keys.len() <= max {
        keys
    } else {
        keys.subrange(0, max as int)
    }
}

} // verus!
