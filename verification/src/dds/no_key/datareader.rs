use crate::dds::datasample::DataSample as KeyedDataSample;
use crate::dds::datasample_cache::spec_as_ref;
use crate::dds::datasample_cache::spec_evict;
use crate::dds::datasample_cache::spec_insert_sample;
use crate::dds::datasample_cache::SampleWithMetaData;
use crate::dds::datasample_cache::DataSampleCache;
use crate::dds::with_key::datareader::spec_first_keys;
use crate::dds::no_key::datasample::DataSample;
use crate::dds::no_key::wrappers::NoKeyWrapper;
use crate::dds::qos::QosPolicies;
use crate::dds::readcondition::ReadCondition;
use crate::dds::sampleinfo::SampleInfo;
use crate::dds::with_key::datareader::DataReader as KeyedDataReader;
use crate::structure::guid::GUID;
use crate::structure::time::Timestamp;
use vstd::prelude::*;

verus! {

/// The values among the first `n` keyed samples, each with its sample
/// info. A sample that carries a key in place of a value is left out.
pub open spec fn spec_values_of<'a, D>(
    keyed: Seq<KeyedDataSample<&'a NoKeyWrapper<D>, ()>>,
    n: int,
) -> Seq<(SampleInfo, D)>
    decreases n,
{
    if n <= 0 {
        Seq::empty()
    } else {
        match keyed[n - 1].value {
            Ok(w) => spec_values_of(keyed, n - 1).push((keyed[n - 1].sample_info, w.d)),
            Err(_) => spec_values_of(keyed, n - 1),
        }
    }
}

/// The values among the first `n` keyed samples that were taken, each
/// with its sample info. A sample that carries a key in place of a value
/// is left out.
pub open spec fn spec_taken_values_of<D>(keyed: Seq<KeyedDataSample<NoKeyWrapper<D>, ()>>, n: int) -> Seq<
    (SampleInfo, D),
>
    decreases n,
{
    if n <= 0 {
        Seq::empty()
    } else {
        match keyed[n - 1].value {
            Ok(w) => spec_taken_values_of(keyed, n - 1).push((keyed[n - 1].sample_info, w.d)),
            Err(_) => spec_taken_values_of(keyed, n - 1),
        }
    }
}

/// The values that an access to the first `n` samples of the batch `keys`
/// delivers, each with its sample info, in the order of the batch.
pub open spec fn spec_values<D>(
    cache: DataSampleCache<NoKeyWrapper<D>>,
    keys: Seq<(Timestamp, ())>,
    n: int,
) -> Seq<(SampleInfo, D)>
    decreases n,
{
    if n <= 0 {
        Seq::empty()
    } else {
        match cache.sample_at(keys[n - 1].0).sample {
            Ok(w) => spec_values(cache, keys, n - 1).push((cache.spec_sample_info(keys, n - 1), w.d)),
            Err(_) => spec_values(cache, keys, n - 1),
        }
    }
}

/// What the keyed reader read holds the values that the access delivers.
pub proof fn lemma_values_read<'a, D>(
    keyed: Seq<KeyedDataSample<&'a NoKeyWrapper<D>, ()>>,
    cache: DataSampleCache<NoKeyWrapper<D>>,
    keys: Seq<(Timestamp, ())>,
    n: int,
)
    requires
        0 <= n <= keys.len(),
        keyed.len() == keys.len(),
        forall|i: int|
            0 <= i < keys.len() ==> (#[trigger] keyed[i]).sample_info == cache.spec_sample_info(keys, i)
                && keyed[i].value == spec_as_ref(&cache.sample_at(keys[i].0).sample),
    ensures
        spec_values_of(keyed, n) == spec_values(cache, keys, n),
    decreases n,
{
    if n > 0 {
        lemma_values_read(keyed, cache, keys, n - 1);
        assert(keyed[n - 1].sample_info == cache.spec_sample_info(keys, n - 1));
    }
}

/// What the keyed reader took holds the values that the access delivers.
pub proof fn lemma_values_taken<D>(
    keyed: Seq<KeyedDataSample<NoKeyWrapper<D>, ()>>,
    cache: DataSampleCache<NoKeyWrapper<D>>,
    keys: Seq<(Timestamp, ())>,
    n: int,
)
    requires
        0 <= n <= keys.len(),
        keyed.len() == keys.len(),
        forall|i: int|
            0 <= i < keys.len() ==> (#[trigger] keyed[i]).sample_info == cache.spec_sample_info(keys, i)
                && keyed[i].value == cache.sample_at(keys[i].0).sample,
    ensures
        spec_taken_values_of(keyed, n) == spec_values(cache, keys, n),
    decreases n,
{
    if n > 0 {
        lemma_values_taken(keyed, cache, keys, n - 1);
        assert(keyed[n - 1].sample_info == cache.spec_sample_info(keys, n - 1));
    }
}

/// The application's view of a topic without keys.
pub struct DataReader<D> {
    keyed_datareader: KeyedDataReader<NoKeyWrapper<D>>,
}

impl<D> DataReader<D> {
    /// The keyed reader that does the work.
    pub closed spec fn keyed(&self) -> KeyedDataReader<NoKeyWrapper<D>> {
        self.keyed_datareader
    }

    /// The invariant of the reader: that of the keyed reader.
    pub open spec fn wf(&self) -> bool {
        self.keyed().wf()
    }

    /// A reader with an empty cache under the given policies.
    pub fn new(qos: QosPolicies) -> (r: DataReader<D>)
        ensures
            r.wf(),
            r.keyed().cache().qos() == qos,
            r.keyed().cache().samples().len() == 0,
    {
        DataReader { keyed_datareader: KeyedDataReader::new(qos) }
    }

    /// The policies of the reader.
    pub fn get_qos(&self) -> (q: QosPolicies)
        ensures
            q == self.keyed().cache().qos(),
    {
        self.keyed_datareader.get_qos()
    }

    /// Replaces the policies of the reader.
    pub fn set_qos(&mut self, policy: QosPolicies)
        ensures
            final(self).keyed().cache().qos() == policy,
            final(self).keyed().cache().samples() == old(self).keyed().cache().samples(),
            final(self).keyed().cache().instances() == old(self).keyed().cache().instances(),
    {
        self.keyed_datareader.set_qos(policy);
    }

    /// Hands a received value to the cache. A value whose reception
    /// timestamp the cache holds already is refused, and `false` returned.
    pub fn receive_sample(
        &mut self,
        value: D,
        writer_guid: GUID,
        receive_timestamp: Timestamp,
        source_timestamp: Option<Timestamp>,
    ) -> (accepted: bool)
        requires
            old(self).wf(),
        ensures
            final(self).wf(),
            accepted == !old(self).keyed().cache().contains_sample(receive_timestamp),
            !accepted ==> final(self).keyed().cache() == old(self).keyed().cache(),
            accepted ==> {
                &&& final(self).keyed().cache().qos() == old(self).keyed().cache().qos()
                &&& final(self).keyed().cache().contains_instance(())
                &&& final(self).keyed().cache().samples() == spec_evict(
                    spec_insert_sample(
                        old(self).keyed().cache().samples(),
                        SampleWithMetaData {
                            receive_timestamp,
                            generation_counts: final(self).keyed().cache().instance(
                                (),
                            ).latest_generation_available,
                            writer_guid,
                            source_timestamp,
                            sample_has_been_read: false,
                            sample: Ok(NoKeyWrapper { d: value }),
                        },
                    ),
                    (),
                    old(self).keyed().cache().qos().spec_keep_count(),
                )
            },
    {
        self.keyed_datareader.receive_sample(
            Ok(NoKeyWrapper::from(value)),
            writer_guid,
            receive_timestamp,
            source_timestamp,
        )
    }

    /// Strips the wrapper and the key side off keyed samples.
    fn unwrap_samples<'a>(keyed: Vec<KeyedDataSample<&'a NoKeyWrapper<D>, ()>>) -> (r: Vec<
        DataSample<&'a D>,
    >)
        ensures
            r.len() == spec_values_of(keyed@, keyed@.len() as int).len(),
            forall|n: int|
                0 <= n < r.len() ==> (#[trigger] r[n]).sample_info == spec_values_of(
                    keyed@,
                    keyed@.len() as int,
                )[n].0 && *r[n].value == spec_values_of(keyed@, keyed@.len() as int)[n].1,
    {
        let mut r: Vec<DataSample<&'a D>> = Vec::new();
        for sample in it: keyed
            invariant
                it.seq() == keyed@,
                r.len() == spec_values_of(keyed@, it.index() as int).len(),
                forall|n: int|
                    0 <= n < r.len() ==> (#[trigger] r[n]).sample_info == spec_values_of(
                        keyed@,
                        it.index() as int,
                    )[n].0 && *r[n].value == spec_values_of(keyed@, it.index() as int)[n].1,
        {
            match sample.value {
                Ok(w) => {
                    r.push(DataSample { sample_info: sample.sample_info, value: &w.d });
                },
                Err(_) => {},
            }
        }
        r
    }

    /// Strips the wrapper and the key side off keyed samples that were
    /// taken.
    fn unwrap_taken(keyed: Vec<KeyedDataSample<NoKeyWrapper<D>, ()>>) -> (r: Vec<DataSample<D>>)
        ensures
            r.len() == spec_taken_values_of(keyed@, keyed@.len() as int).len(),
            forall|n: int|
                0 <= n < r.len() ==> (#[trigger] r[n]).sample_info == spec_taken_values_of(
                    keyed@,
                    keyed@.len() as int,
                )[n].0 && r[n].value == spec_taken_values_of(keyed@, keyed@.len() as int)[n].1,
    {
        let mut r: Vec<DataSample<D>> = Vec::new();
        for sample in it: keyed
            invariant
                it.seq() == keyed@,
                r.len() == spec_taken_values_of(keyed@, it.index() as int).len(),
                forall|n: int|
                    0 <= n < r.len() ==> (#[trigger] r[n]).sample_info == spec_taken_values_of(
                        keyed@,
                        it.index() as int,
                    )[n].0 && r[n].value == spec_taken_values_of(keyed@, it.index() as int)[n].1,
        {
            match sample.value {
                Ok(w) => {
                    r.push(DataSample { sample_info: sample.sample_info, value: w.unwrap() });
                },
                Err(_) => {},
            }
        }
        r
    }

    /// Reads at most `max_samples` of the values that pass
    /// `read_condition`, the oldest first. They stay in the cache, marked
    /// as read.
    pub fn read(&mut self, max_samples: usize, read_condition: ReadCondition) -> (r: Vec<
        DataSample<&D>,
    >)
        requires
            old(self).wf(),
        ensures
            final(self).wf(),
            ({
                let cache = old(self).keyed().cache();
                let keys = spec_first_keys(cache.spec_select(read_condition), max_samples as nat);
                let values = spec_values(cache, keys, keys.len() as int);
                &&& final(self).keyed().cache().is_after_read(cache, keys)
                &&& r.len() == values.len()
                &&& r.len() <= max_samples
                &&& forall|n: int|
                    0 <= n < r.len() ==> (#[trigger] r[n]).sample_info == values[n].0 && *r[n].value
                        == values[n].1
            }),
    {
        let keyed = self.keyed_datareader.read(max_samples, read_condition);
        proof {
            let cache = old(self).keyed().cache();
            let keys = spec_first_keys(cache.spec_select(read_condition), max_samples as nat);
            lemma_values_bound(keyed@, keyed@.len() as int);
            lemma_values_read(keyed@, cache, keys, keys.len() as int);
        }
        Self::unwrap_samples(keyed)
    }

    /// Takes at most `max_samples` of the values that pass
    /// `read_condition` out of the cache, the oldest first.
    pub fn take(&mut self, max_samples: usize, read_condition: ReadCondition) -> (r: Vec<DataSample<D>>)
        requires
            old(self).wf(),
        ensures
            final(self).wf(),
            ({
                let cache = old(self).keyed().cache();
                let keys = spec_first_keys(cache.spec_select(read_condition), max_samples as nat);
                let values = spec_values(cache, keys, keys.len() as int);
                &&& final(self).keyed().cache().is_after_take(cache, keys)
                &&& r.len() == values.len()
                &&& r.len() <= max_samples
                &&& forall|n: int|
                    0 <= n < r.len() ==> (#[trigger] r[n]).sample_info == values[n].0 && r[n].value
                        == values[n].1
            }),
    {
        let keyed = self.keyed_datareader.take(max_samples, read_condition);
        proof {
            let cache = old(self).keyed().cache();
            let keys = spec_first_keys(cache.spec_select(read_condition), max_samples as nat);
            lemma_taken_bound(keyed@, keyed@.len() as int);
            lemma_values_taken(keyed@, cache, keys, keys.len() as int);
        }
        Self::unwrap_taken(keyed)
    }

    /// Reads the oldest value that was not read before, if there is one.
    pub fn read_next_sample(&mut self) -> (r: Option<DataSample<&D>>)
        requires
            old(self).wf(),
        ensures
            final(self).wf(),
            ({
                let cache = old(self).keyed().cache();
                let keys = spec_first_keys(cache.spec_select(ReadCondition::spec_not_read()), 1);
                let values = spec_values(cache, keys, keys.len() as int);
                &&& final(self).keyed().cache().is_after_read(cache, keys)
                &&& r is Some == (values.len() > 0)
                &&& r matches Some(sample) ==> sample.sample_info == values.last().0
                    && *sample.value == values.last().1
            }),
    {
        let mut ds = self.read(1, ReadCondition::not_read());
        ds.pop()
    }

    /// Takes the oldest value that was not read before out of the cache,
    /// if there is one.
    pub fn take_next_sample(&mut self) -> (r: Option<DataSample<D>>)
        requires
            old(self).wf(),
        ensures
            final(self).wf(),
            ({
                let cache = old(self).keyed().cache();
                let keys = spec_first_keys(cache.spec_select(ReadCondition::spec_not_read()), 1);
                let values = spec_values(cache, keys, keys.len() as int);
                &&& final(self).keyed().cache().is_after_take(cache, keys)
                &&& r is Some == (values.len() > 0)
                &&& r matches Some(sample) ==> sample.sample_info == values.last().0 && sample.value
                    == values.last().1
            }),
    {
        let mut ds = self.take(1, ReadCondition::not_read());
        ds.pop()
    }
}

/// There are at most as many values as keyed samples that were taken.
pub proof fn lemma_taken_bound<D>(keyed: Seq<KeyedDataSample<NoKeyWrapper<D>, ()>>, n: int)
    requires
        0 <= n,
    ensures
        spec_taken_values_of(keyed, n).len() <= n,
    decreases n,
{
    if n > 0 {
        lemma_taken_bound(keyed, n - 1);
    }
}

/// There are at most as many values as keyed samples.
pub proof fn lemma_values_bound<'a, D>(
    keyed: Seq<KeyedDataSample<&'a NoKeyWrapper<D>, ()>>,
    n: int,
)
    requires
        0 <= n,
    ensures
        spec_values_of(keyed, n).len() <= n,
    decreases n,
{
    if n > 0 {
        lemma_values_bound(keyed, n - 1);
    }
}

} // verus!
