use crate::dds::datasample::DataSample;
use crate::dds::qos::QosPolicies;
use crate::dds::readcondition::ReadCondition;
use crate::dds::sampleinfo::InstanceState;
use crate::dds::sampleinfo::NotAliveGenerationCounts;
use crate::dds::sampleinfo::SampleInfo;
use crate::dds::sampleinfo::SampleState;
use crate::dds::sampleinfo::ViewState;
use crate::dds::sampleinfo::GENERATION_COUNT_MAX;
use crate::dds::traits::key::Key;
use crate::dds::traits::key::KeyHash;
use crate::dds::traits::key::Keyed;
use crate::structure::guid::GUID;
use crate::structure::time::Timestamp;
use vstd::prelude::*;

verus! {

/// One-sided view of a result: the value by reference, the key by copy.
pub fn result_ok_as_ref_err_clone<T, K: Key>(r: &Result<T, K>) -> (out: Result<&T, K>)
    ensures
        out == spec_as_ref(r),
{
    match r {
        Ok(x) => Ok(x),
        Err(k) => Err(k.clone_key()),
    }
}

/// What the cache records of an instance.
#[derive(Clone, Copy, Debug, PartialEq, Eq, Structural)]
pub struct InstanceMetaData {
    /// Latest known state of the instance.
    pub instance_state: InstanceState,
    /// Generation counts that a sample received now would carry.
    pub latest_generation_available: NotAliveGenerationCounts,
    /// Generation counts that the application saw at its last access.
    pub last_generation_accessed: NotAliveGenerationCounts,
}

/// An instance known to the cache: its key and what is recorded of it.
pub struct InstanceEntry<K> {
    pub key: K,
    pub meta: InstanceMetaData,
}

/// A cached sample with what the cache recorded when it arrived.
pub struct SampleWithMetaData<D: Keyed> {
    /// Time of reception: the unique key of the sample within the cache.
    pub receive_timestamp: Timestamp,
    /// Generation counts of the instance at the time of reception.
    pub generation_counts: NotAliveGenerationCounts,
    /// The writer that produced the sample.
    pub writer_guid: GUID,
    /// Time of production as stamped by the writer.
    pub source_timestamp: Option<Timestamp>,
    /// Whether the application has read the sample.
    pub sample_has_been_read: bool,
    /// The value, or the key of the instance that was disposed.
    pub sample: Result<D, D::K>,
}

impl<D: Keyed> SampleWithMetaData<D> {
    /// The key of the instance that the sample belongs to.
    pub open spec fn spec_key(&self) -> D::K {
        match self.sample {
            Ok(d) => d.spec_key(),
            Err(k) => k,
        }
    }

    /// The key of the instance that the sample belongs to.
    pub fn get_key(&self) -> (k: D::K)
        ensures
            k == self.spec_key(),
    {
        match &self.sample {
            Ok(d) => d.get_key(),
            Err(k) => k.clone_key(),
        }
    }

    /// Read or not read, by the flag of the sample.
    pub open spec fn spec_sample_state(&self) -> SampleState {
        if self.sample_has_been_read {
            SampleState::Read
        } else {
            SampleState::NotRead
        }
    }

    /// New exactly when the generation total of the sample exceeds the
    /// total that the application last accessed of the instance.
    pub open spec fn spec_view_state(&self, imd: InstanceMetaData) -> ViewState {
        if self.generation_counts.spec_total() > imd.last_generation_accessed.spec_total() {
            ViewState::New
        } else {
            ViewState::NotNew
        }
    }

    /// Whether the sample, as a sample of the instance recorded as `imd`,
    /// passes the read condition.
    pub open spec fn spec_passes(&self, rc: ReadCondition, imd: InstanceMetaData) -> bool {
        rc.accepts(self.spec_sample_state(), self.spec_view_state(imd), imd.instance_state)
    }
}

/// Whether the samples stand in strictly increasing order of reception.
pub open spec fn spec_samples_sorted<D: Keyed>(s: Seq<SampleWithMetaData<D>>) -> bool {
    forall|i: int, j: int|
        0 <= i < j < s.len() ==> (#[trigger] s[i]).receive_timestamp.ticks() < (
        #[trigger] s[j]).receive_timestamp.ticks()
}

/// Whether a sample received at `ts` is among the samples.
pub open spec fn spec_has_sample<D: Keyed>(s: Seq<SampleWithMetaData<D>>, ts: Timestamp) -> bool {
    exists|i: int| 0 <= i < s.len() && (#[trigger] s[i]).receive_timestamp == ts
}

/// Position of the sample received at `ts`.
pub open spec fn spec_sample_index<D: Keyed>(s: Seq<SampleWithMetaData<D>>, ts: Timestamp) -> int {
    choose|i: int| 0 <= i < s.len() && (#[trigger] s[i]).receive_timestamp == ts
}

/// Whether an instance with key `key` is among the entries.
pub open spec fn spec_has_instance<K>(e: Seq<InstanceEntry<K>>, key: K) -> bool {
    exists|j: int| 0 <= j < e.len() && (#[trigger] e[j]).key == key
}

/// Position of the instance with key `key`.
pub open spec fn spec_instance_index<K>(e: Seq<InstanceEntry<K>>, key: K) -> int {
    choose|j: int| 0 <= j < e.len() && (#[trigger] e[j]).key == key
}

/// Whether no key occurs twice among the entries.
pub open spec fn spec_keys_distinct<K>(e: Seq<InstanceEntry<K>>) -> bool {
    forall|i: int, j: int|
        0 <= i < e.len() && 0 <= j < e.len() && i != j ==> (#[trigger] e[i]).key != (
        #[trigger] e[j]).key
}

/// Number of samples among `s` that belong to the instance `key`.
pub open spec fn spec_count_of_key<D: Keyed>(s: Seq<SampleWithMetaData<D>>, key: D::K) -> nat
    decreases s.len(),
{
    if s.len() == 0 {
        0
    } else {
        spec_count_of_key(s.drop_last(), key) + if s.last().spec_key() == key {
            1nat
        } else {
            0nat
        }
    }
}

/// Whether position `m` holds the latest of the samples of the instance
/// `key`.
pub open spec fn spec_is_latest_of<D: Keyed>(s: Seq<SampleWithMetaData<D>>, key: D::K, m: int) -> bool {
    &&& 0 <= m < s.len()
    &&& s[m].spec_key() == key
    &&& forall|x: int| m < x < s.len() ==> (#[trigger] s[x]).spec_key() != key
}

/// Whether the latest of the samples of the instance `key` comes from the
/// writer `writer`.
pub open spec fn spec_last_written_by<D: Keyed>(
    s: Seq<SampleWithMetaData<D>>,
    key: D::K,
    writer: GUID,
) -> bool {
    exists|m: int| #[trigger] spec_is_latest_of(s, key, m) && s[m].writer_guid == writer
}

/// The state of an instance after the writer `writer` was lost: an
/// instance that is alive, and whose latest sample came from that writer,
/// has no writers; every other instance is as it was.
pub open spec fn spec_state_after_loss<D: Keyed>(
    s: Seq<SampleWithMetaData<D>>,
    entry: InstanceEntry<D::K>,
    writer: GUID,
) -> InstanceState {
    if entry.meta.instance_state == InstanceState::Alive && spec_last_written_by(s, entry.key, writer) {
        InstanceState::NotAliveNoWriters
    } else {
        entry.meta.instance_state
    }
}

/// The key of the last among the first `n` instances whose hash is
/// `key_hash`, if there is one.
pub open spec fn spec_key_by_hash<K: Key>(e: Seq<InstanceEntry<K>>, key_hash: KeyHash, n: int) -> Option<
    K,
>
    decreases n,
{
    if n <= 0 {
        None
    } else if e[n - 1].key.spec_hash_key() == key_hash {
        Some(e[n - 1].key)
    } else {
        spec_key_by_hash(e, key_hash, n - 1)
    }
}

/// A generation counter after one more return to life. It stops at the
/// largest count.
pub open spec fn spec_bump(count: i32) -> i32 {
    if count < GENERATION_COUNT_MAX {
        (count + 1) as i32
    } else {
        count
    }
}

/// The generation counts of an instance after a sample in state
/// `new_state` has arrived: a return to life from the disposed state counts
/// as a disposed generation, one from the state without writers as a
/// no-writers generation; nothing else changes the counts.
pub open spec fn spec_generation_after(
    prior: InstanceMetaData,
    new_state: InstanceState,
) -> NotAliveGenerationCounts {
    let g = prior.latest_generation_available;
    if new_state == InstanceState::Alive && prior.instance_state
        == InstanceState::NotAliveDisposed {
        NotAliveGenerationCounts {
            disposed_generation_count: spec_bump(g.disposed_generation_count),
            no_writers_generation_count: g.no_writers_generation_count,
        }
    } else if new_state == InstanceState::Alive && prior.instance_state
        == InstanceState::NotAliveNoWriters {
        NotAliveGenerationCounts {
            disposed_generation_count: g.disposed_generation_count,
            no_writers_generation_count: spec_bump(g.no_writers_generation_count),
        }
    } else {
        g
    }
}

/// The record of an instance after a sample in state `new_state` has
/// arrived; `prior` is its record before, if it was known.
pub open spec fn spec_meta_after(
    prior: Option<InstanceMetaData>,
    new_state: InstanceState,
) -> InstanceMetaData {
    match prior {
        None => InstanceMetaData {
            instance_state: new_state,
            latest_generation_available: NotAliveGenerationCounts::spec_zero(),
            last_generation_accessed: NotAliveGenerationCounts::spec_sub_zero(),
        },
        Some(p) => InstanceMetaData {
            instance_state: new_state,
            latest_generation_available: spec_generation_after(p, new_state),
            last_generation_accessed: p.last_generation_accessed,
        },
    }
}

/// The instance records after a sample of `key` in state `new_state` has
/// arrived: the record of `key` is updated in place, or added at the end.
pub open spec fn spec_instances_after<K>(
    e: Seq<InstanceEntry<K>>,
    key: K,
    new_state: InstanceState,
) -> Seq<InstanceEntry<K>> {
    if spec_has_instance(e, key) {
        let j = spec_instance_index(e, key);
        e.update(j, InstanceEntry { key, meta: spec_meta_after(Some(e[j].meta), new_state) })
    } else {
        e.push(InstanceEntry { key, meta: spec_meta_after(None, new_state) })
    }
}

/// Whether `p` is the place of a sample received at `ts` among the sorted
/// samples `s`.
pub open spec fn spec_is_insert_position<D: Keyed>(
    s: Seq<SampleWithMetaData<D>>,
    ts: Timestamp,
    p: int,
) -> bool {
    &&& 0 <= p <= s.len()
    &&& forall|i: int| 0 <= i < p ==> (#[trigger] s[i]).receive_timestamp.ticks() < ts.ticks()
    &&& forall|i: int| p <= i < s.len() ==> ts.ticks() < (#[trigger] s[i]).receive_timestamp.ticks()
}

/// The samples `s` with `rec` put at its place in the order of reception.
pub open spec fn spec_insert_sample<D: Keyed>(
    s: Seq<SampleWithMetaData<D>>,
    rec: SampleWithMetaData<D>,
) -> Seq<SampleWithMetaData<D>> {
    s.insert(choose|p: int| spec_is_insert_position(s, rec.receive_timestamp, p), rec)
}

/// Whether position `i` holds the oldest sample of the instance `key`.
pub open spec fn spec_is_first_of_key<D: Keyed>(
    s: Seq<SampleWithMetaData<D>>,
    key: D::K,
    i: int,
) -> bool {
    &&& 0 <= i < s.len()
    &&& s[i].spec_key() == key
    &&& forall|j: int| 0 <= j < i ==> (#[trigger] s[j]).spec_key() != key
}

/// The samples without the oldest sample of the instance `key`.
pub open spec fn spec_drop_first<D: Keyed>(
    s: Seq<SampleWithMetaData<D>>,
    key: D::K,
) -> Seq<SampleWithMetaData<D>> {
    if exists|i: int| spec_is_first_of_key(s, key, i) {
        s.remove(choose|i: int| spec_is_first_of_key(s, key, i))
    } else {
        s
    }
}

/// The samples without the `n` oldest samples of the instance `key`.
pub open spec fn spec_drop_oldest<D: Keyed>(
    s: Seq<SampleWithMetaData<D>>,
    key: D::K,
    n: nat,
) -> Seq<SampleWithMetaData<D>>
    decreases n,
{
    if n == 0 {
        s
    } else {
        spec_drop_first(spec_drop_oldest(s, key, (n - 1) as nat), key)
    }
}

/// How many samples an instance with `count` samples holds beyond what the
/// keep count allows. A keep count below zero allows none.
pub open spec fn spec_excess(count: nat, keep: Option<i32>) -> nat {
    match keep {
        None => 0,
        Some(k) => if k <= 0 {
            count
        } else if count > k {
            (count - k) as nat
        } else {
            0
        },
    }
}

/// The samples after eviction for the instance `key`: its oldest samples
/// beyond the keep count are gone.
pub open spec fn spec_evict<D: Keyed>(
    s: Seq<SampleWithMetaData<D>>,
    key: D::K,
    keep: Option<i32>,
) -> Seq<SampleWithMetaData<D>> {
    spec_drop_oldest(s, key, spec_excess(spec_count_of_key(s, key), keep))
}

/// The place of a new timestamp among sorted samples is unique.
pub proof fn lemma_insert_position_unique<D: Keyed>(
    s: Seq<SampleWithMetaData<D>>,
    ts: Timestamp,
    p: int,
)
    requires
        spec_is_insert_position(s, ts, p),
    ensures
        (choose|q: int| spec_is_insert_position(s, ts, q)) == p,
{
    let q = choose|q: int| spec_is_insert_position(s, ts, q);
    if q < p {
        assert(s[q].receive_timestamp.ticks() < ts.ticks());
    } else if p < q {
        assert(s[p].receive_timestamp.ticks() < ts.ticks());
    }
}

/// The oldest sample of an instance has one position.
pub proof fn lemma_first_of_key_unique<D: Keyed>(
    s: Seq<SampleWithMetaData<D>>,
    key: D::K,
    i: int,
)
    requires
        spec_is_first_of_key(s, key, i),
    ensures
        spec_drop_first(s, key) == s.remove(i),
{
    let j = choose|j: int| spec_is_first_of_key(s, key, j);
    if j < i {
        assert(s[j].spec_key() != key);
    } else if i < j {
        assert(s[i].spec_key() != key);
    }
}

/// Counting over a sequence with one more sample at the end.
pub proof fn lemma_count_push<D: Keyed>(
    s: Seq<SampleWithMetaData<D>>,
    rec: SampleWithMetaData<D>,
    key: D::K,
)
    ensures
        spec_count_of_key(s.push(rec), key) == spec_count_of_key(s, key) + if rec.spec_key()
            == key {
            1nat
        } else {
            0nat
        },
{
    assert(s.push(rec).drop_last() == s);
}

/// Inserting a sample adds one to the count of its instance only.
pub proof fn lemma_count_insert<D: Keyed>(
    s: Seq<SampleWithMetaData<D>>,
    p: int,
    rec: SampleWithMetaData<D>,
    key: D::K,
)
    requires
        0 <= p <= s.len(),
    ensures
        spec_count_of_key(s.insert(p, rec), key) == spec_count_of_key(s, key) + if rec.spec_key()
            == key {
            1nat
        } else {
            0nat
        },
    decreases s.len(),
{
    if p == s.len() {
        assert(s.insert(p, rec) == s.push(rec));
        lemma_count_push(s, rec, key);
    } else {
        assert(s.insert(p, rec).drop_last() == s.drop_last().insert(p, rec));
        assert(s.insert(p, rec).last() == s.last());
        lemma_count_insert(s.drop_last(), p, rec, key);
    }
}

/// Removing a sample takes one from the count of its instance only.
pub proof fn lemma_count_remove<D: Keyed>(s: Seq<SampleWithMetaData<D>>, i: int, key: D::K)
    requires
        0 <= i < s.len(),
    ensures
        spec_count_of_key(s.remove(i), key) == spec_count_of_key(s, key) - if s[i].spec_key()
            == key {
            1int
        } else {
            0int
        },
    decreases s.len(),
{
    if i == s.len() - 1 {
        assert(s.remove(i) == s.drop_last());
    } else {
        assert(s.remove(i).drop_last() == s.drop_last().remove(i));
        assert(s.remove(i).last() == s.last());
        lemma_count_remove(s.drop_last(), i, key);
    }
}

/// Where no sample belongs to an instance, its count is zero.
pub proof fn lemma_count_zero<D: Keyed>(s: Seq<SampleWithMetaData<D>>, key: D::K)
    requires
        forall|i: int| 0 <= i < s.len() ==> (#[trigger] s[i]).spec_key() != key,
    ensures
        spec_count_of_key(s, key) == 0,
    decreases s.len(),
{
    if s.len() > 0 {
        assert(s.last() == s[s.len() - 1]);
        assert forall|i: int| 0 <= i < s.drop_last().len() implies (
        #[trigger] s.drop_last()[i]).spec_key() != key by {
            assert(s.drop_last()[i] == s[i]);
        }
        lemma_count_zero(s.drop_last(), key);
    }
}

/// An instance has at most as many samples as there are samples.
pub proof fn lemma_count_bound<D: Keyed>(s: Seq<SampleWithMetaData<D>>, key: D::K)
    ensures
        spec_count_of_key(s, key) <= s.len(),
    decreases s.len(),
{
    if s.len() > 0 {
        lemma_count_bound(s.drop_last(), key);
    }
}

/// Removing a sample keeps the order of the others.
pub proof fn lemma_remove_sorted<D: Keyed>(s: Seq<SampleWithMetaData<D>>, i: int)
    requires
        spec_samples_sorted(s),
        0 <= i < s.len(),
    ensures
        spec_samples_sorted(s.remove(i)),
{
    let r = s.remove(i);
    assert forall|a: int, b: int| 0 <= a < b < r.len() implies (
    #[trigger] r[a]).receive_timestamp.ticks() < (#[trigger] r[b]).receive_timestamp.ticks() by {
        let a0 = if a < i {
            a
        } else {
            a + 1
        };
        let b0 = if b < i {
            b
        } else {
            b + 1
        };
        assert(r[a] == s[a0]);
        assert(r[b] == s[b0]);
    }
}

/// A sample put at its place keeps the order.
pub proof fn lemma_insert_sorted<D: Keyed>(
    s: Seq<SampleWithMetaData<D>>,
    p: int,
    rec: SampleWithMetaData<D>,
)
    requires
        spec_samples_sorted(s),
        spec_is_insert_position(s, rec.receive_timestamp, p),
    ensures
        spec_samples_sorted(s.insert(p, rec)),
{
    let r = s.insert(p, rec);
    assert forall|a: int, b: int| 0 <= a < b < r.len() implies (
    #[trigger] r[a]).receive_timestamp.ticks() < (#[trigger] r[b]).receive_timestamp.ticks() by {
        if a < p {
            assert(r[a] == s[a]);
        } else if a > p {
            assert(r[a] == s[a - 1]);
        }
        if b < p {
            assert(r[b] == s[b]);
        } else if b > p {
            assert(r[b] == s[b - 1]);
        }
    }
}

/// The key of the instance that a new sample belongs to.
pub open spec fn spec_sample_key<D: Keyed>(sample: Result<D, D::K>) -> D::K {
    match sample {
        Ok(d) => d.spec_key(),
        Err(k) => k,
    }
}

/// The state that a new sample puts its instance in: alive for a value,
/// disposed for a key alone.
pub open spec fn spec_sample_state<D: Keyed>(sample: Result<D, D::K>) -> InstanceState {
    match sample {
        Ok(_) => InstanceState::Alive,
        Err(_) => InstanceState::NotAliveDisposed,
    }
}

/// A number forced into the range of `i32`.
pub open spec fn spec_clamp_i32(x: int) -> i32 {
    if x > i32::MAX {
        i32::MAX
    } else if x < i32::MIN {
        i32::MIN
    } else {
        x as i32
    }
}

/// Number of entries of the batch at positions `from` and later that name
/// the instance `key`.
pub open spec fn spec_key_occurrences<K>(keys: Seq<(Timestamp, K)>, key: K, from: int) -> nat
    decreases keys.len() - from,
{
    if from < 0 || from >= keys.len() {
        0
    } else {
        spec_key_occurrences(keys, key, from + 1) + if keys[from].1 == key {
            1nat
        } else {
            0nat
        }
    }
}

/// Whether position `m` holds the last entry of the batch that names the
/// instance `key`.
pub open spec fn spec_is_last_of_key<K>(keys: Seq<(Timestamp, K)>, key: K, m: int) -> bool {
    &&& 0 <= m < keys.len()
    &&& keys[m].1 == key
    &&& forall|x: int| m < x < keys.len() ==> (#[trigger] keys[x]).1 != key
}

/// Position of the last entry of the batch that names the instance `key`.
pub open spec fn spec_last_of_key<K>(keys: Seq<(Timestamp, K)>, key: K) -> int {
    choose|m: int| spec_is_last_of_key(keys, key, m)
}

/// The last entry that names an instance has one position.
pub proof fn lemma_last_of_key_unique<K>(keys: Seq<(Timestamp, K)>, key: K, m: int)
    requires
        spec_is_last_of_key(keys, key, m),
    ensures
        spec_last_of_key(keys, key) == m,
{
    let c = choose|c: int| spec_is_last_of_key(keys, key, c);
    if c < m {
        assert(keys[m].1 != key);
    } else if m < c {
        assert(keys[c].1 != key);
    }
}

/// Whether the batch names the timestamp `ts`.
pub open spec fn spec_keys_hold<K>(keys: Seq<(Timestamp, K)>, ts: Timestamp) -> bool {
    exists|n: int| 0 <= n < keys.len() && (#[trigger] keys[n]).0 == ts
}

/// The generation counts recorded as viewed for `key`, if any.
pub open spec fn spec_lookup_viewed<K>(
    v: Seq<(K, NotAliveGenerationCounts)>,
    key: K,
) -> Option<NotAliveGenerationCounts> {
    if exists|a: int| 0 <= a < v.len() && (#[trigger] v[a]).0 == key {
        Some(v[choose|a: int| 0 <= a < v.len() && (#[trigger] v[a]).0 == key].1)
    } else {
        None
    }
}

/// Whether no key is recorded twice as viewed.
pub open spec fn spec_viewed_distinct<K>(v: Seq<(K, NotAliveGenerationCounts)>) -> bool {
    forall|a: int, b: int|
        0 <= a < v.len() && 0 <= b < v.len() && a != b ==> (#[trigger] v[a]).0 != (#[trigger] v[b]).0
}

/// The counts viewed of an instance after one more access to counts `g`:
/// the counts with the larger total, the earlier ones on a tie.
pub open spec fn spec_merge_viewed(
    prior: Option<NotAliveGenerationCounts>,
    g: NotAliveGenerationCounts,
) -> NotAliveGenerationCounts {
    match prior {
        Some(p) => if g.spec_total() > p.spec_total() {
            g
        } else {
            p
        },
        None => g,
    }
}

/// The sample info of a sample of an instance: the states of the sample,
/// its generation counts, its rank in the batch, and its generation
/// distance to the most recent sample of its instance in the batch (whose
/// generation total is `mrsic_generations`) and to the most recent sample of
/// the cache (`mrs_generations`).
pub open spec fn spec_make_sample_info<D: Keyed>(
    dswm: SampleWithMetaData<D>,
    imd: InstanceMetaData,
    sample_rank: nat,
    mrs_generations: int,
    mrsic_generations: int,
) -> SampleInfo {
    SampleInfo {
        sample_state: dswm.spec_sample_state(),
        view_state: dswm.spec_view_state(imd),
        instance_state: imd.instance_state,
        generation_counts: dswm.generation_counts,
        sample_rank: spec_clamp_i32(sample_rank as int),
        generation_rank: spec_clamp_i32(mrsic_generations - dswm.generation_counts.spec_total()),
        absolute_generation_rank: spec_clamp_i32(
            mrs_generations - dswm.generation_counts.spec_total(),
        ),
        source_timestamp: dswm.source_timestamp,
        publication_handle: dswm.writer_guid,
    }
}

/// Forces a wide number into the range of `i32`.
pub fn clamp_i32(x: i128) -> (r: i32)
    ensures
        r == spec_clamp_i32(x as int),
{
    if x > 0x7fff_ffffi128 {
        0x7fff_ffffi32
    } else if x < -0x8000_0000i128 {
        -0x8000_0000i32
    } else {
        x as i32
    }
}

/// The record of viewed generations after an access to counts `g` of the
/// instance `key`.
pub open spec fn spec_record_viewed<K>(
    v: Seq<(K, NotAliveGenerationCounts)>,
    g: NotAliveGenerationCounts,
    key: K,
) -> Seq<(K, NotAliveGenerationCounts)> {
    if exists|a: int| 0 <= a < v.len() && (#[trigger] v[a]).0 == key {
        let a = choose|a: int| 0 <= a < v.len() && (#[trigger] v[a]).0 == key;
        v.update(a, (key, spec_merge_viewed(Some(v[a].1), g)))
    } else {
        v.push((key, g))
    }
}

/// Recording an access changes what is viewed of its instance alone, and
/// keeps every instance recorded once.
pub proof fn lemma_record_viewed<K>(
    v: Seq<(K, NotAliveGenerationCounts)>,
    g: NotAliveGenerationCounts,
    key: K,
)
    requires
        spec_viewed_distinct(v),
    ensures
        spec_viewed_distinct(spec_record_viewed(v, g, key)),
        spec_lookup_viewed(spec_record_viewed(v, g, key), key) == Some(
            spec_merge_viewed(spec_lookup_viewed(v, key), g),
        ),
        forall|other: K|
            other != key ==> spec_lookup_viewed(spec_record_viewed(v, g, key), other)
                == spec_lookup_viewed(v, other),
{
    let r = spec_record_viewed(v, g, key);
    if exists|a: int| 0 <= a < v.len() && (#[trigger] v[a]).0 == key {
        let a = choose|a: int| 0 <= a < v.len() && (#[trigger] v[a]).0 == key;
        assert(r[a].0 == key);
        let c = choose|c: int| 0 <= c < r.len() && (#[trigger] r[c]).0 == key;
        assert(r[c].0 == key);
        if c != a {
            assert(r[c] == v[c]);
        }
        assert forall|other: K| other != key implies spec_lookup_viewed(r, other)
            == spec_lookup_viewed(v, other) by {
            if exists|b: int| 0 <= b < v.len() && (#[trigger] v[b]).0 == other {
                let b = choose|b: int| 0 <= b < v.len() && (#[trigger] v[b]).0 == other;
                assert(r[b] == v[b]);
                let d = choose|d: int| 0 <= d < r.len() && (#[trigger] r[d]).0 == other;
                assert(r[d].0 == other);
                assert(r[d] == v[d]);
            } else {
                if exists|d: int| 0 <= d < r.len() && (#[trigger] r[d]).0 == other {
                    let d = choose|d: int| 0 <= d < r.len() && (#[trigger] r[d]).0 == other;
                    assert(r[d] == v[d]);
                }
            }
        }
    } else {
        assert(r[v.len() as int].0 == key);
        let c = choose|c: int| 0 <= c < r.len() && (#[trigger] r[c]).0 == key;
        assert(r[c].0 == key);
        if c < v.len() {
            assert(r[c] == v[c]);
        }
        assert forall|a: int, b: int|
            0 <= a < r.len() && 0 <= b < r.len() && a != b implies (#[trigger] r[a]).0 != (
        #[trigger] r[b]).0 by {
            if a < v.len() {
                assert(r[a] == v[a]);
            }
            if b < v.len() {
                assert(r[b] == v[b]);
            }
        }
        assert forall|other: K| other != key implies spec_lookup_viewed(r, other)
            == spec_lookup_viewed(v, other) by {
            if exists|b: int| 0 <= b < v.len() && (#[trigger] v[b]).0 == other {
                let b = choose|b: int| 0 <= b < v.len() && (#[trigger] v[b]).0 == other;
                assert(r[b] == v[b]);
                let d = choose|d: int| 0 <= d < r.len() && (#[trigger] r[d]).0 == other;
                assert(r[d].0 == other);
                assert(r[d] == v[d]);
            } else {
                if exists|d: int| 0 <= d < r.len() && (#[trigger] r[d]).0 == other {
                    let d = choose|d: int| 0 <= d < r.len() && (#[trigger] r[d]).0 == other;
                    assert(r[d] == v[d]);
                }
            }
        }
    }
}

/// The record of an instance after an access that viewed `viewed` of it.
pub open spec fn spec_meta_viewed(
    meta: InstanceMetaData,
    viewed: Option<NotAliveGenerationCounts>,
) -> InstanceMetaData {
    match viewed {
        Some(g) => InstanceMetaData {
            instance_state: meta.instance_state,
            latest_generation_available: meta.latest_generation_available,
            last_generation_accessed: g,
        },
        None => meta,
    }
}

/// Whether two samples agree in all but the read flag.
pub open spec fn spec_same_but_read<D: Keyed>(
    a: SampleWithMetaData<D>,
    b: SampleWithMetaData<D>,
) -> bool {
    &&& a.receive_timestamp == b.receive_timestamp
    &&& a.generation_counts == b.generation_counts
    &&& a.writer_guid == b.writer_guid
    &&& a.source_timestamp == b.source_timestamp
    &&& a.sample == b.sample
}

/// A result seen by reference on its value side.
pub open spec fn spec_as_ref<'a, T, K>(r: &'a Result<T, K>) -> Result<&'a T, K> {
    match r {
        Ok(x) => Ok(x),
        Err(k) => Err(*k),
    }
}

/// Whether one of the first `n` entries of the batch names `ts`.
pub open spec fn spec_named_among<K>(keys: Seq<(Timestamp, K)>, n: int, ts: Timestamp) -> bool {
    exists|x: int| 0 <= x < n && (#[trigger] keys[x]).0 == ts
}

/// Whether the position `i0` occurs among the positions `origin`.
pub open spec fn spec_position_kept(origin: Seq<int>, i0: int) -> bool {
    exists|i: int| 0 <= i < origin.len() && #[trigger] origin[i] == i0
}

/// A per-endpoint history of samples, ordered by time of reception, with
/// the lifecycle record of every instance that a sample has belonged to.
///
/// The samples of an instance are the cached samples that carry its key.
pub struct DataSampleCache<D: Keyed> {
    qos: QosPolicies,
    datasamples: Vec<SampleWithMetaData<D>>,
    instance_map: Vec<InstanceEntry<D::K>>,
}

impl<D: Keyed> DataSampleCache<D> {
    /// The policies that bound the cache.
    pub closed spec fn qos(&self) -> QosPolicies {
        self.qos
    }

    /// The cached samples, in order of reception.
    pub closed spec fn samples(&self) -> Seq<SampleWithMetaData<D>> {
        self.datasamples@
    }

    /// The known instances, in order of their first sample.
    pub closed spec fn instances(&self) -> Seq<InstanceEntry<D::K>> {
        self.instance_map@
    }

    /// Whether the cache holds a sample received at `ts`.
    pub open spec fn contains_sample(&self, ts: Timestamp) -> bool {
        spec_has_sample(self.samples(), ts)
    }

    /// The sample received at `ts`.
    pub open spec fn sample_at(&self, ts: Timestamp) -> SampleWithMetaData<D> {
        self.samples()[spec_sample_index(self.samples(), ts)]
    }

    /// Whether the cache knows the instance `key`.
    pub open spec fn contains_instance(&self, key: D::K) -> bool {
        spec_has_instance(self.instances(), key)
    }

    /// What is recorded of the instance `key`.
    pub open spec fn instance(&self, key: D::K) -> InstanceMetaData {
        self.instances()[spec_instance_index(self.instances(), key)].meta
    }

    /// Number of cached samples of the instance `key`.
    pub open spec fn instance_sample_count(&self, key: D::K) -> nat {
        spec_count_of_key(self.samples(), key)
    }

    /// The invariant of the cache: reception timestamps are a primary key
    /// and order the samples; no instance is recorded twice; every sample
    /// belongs to a recorded instance; all generation counts are in range.
    pub open spec fn wf(&self) -> bool {
        &&& spec_samples_sorted(self.samples())
        &&& spec_keys_distinct(self.instances())
        &&& forall|i: int|
            0 <= i < self.samples().len() ==> spec_has_instance(
                self.instances(),
                (#[trigger] self.samples()[i]).spec_key(),
            )
        &&& forall|i: int|
            0 <= i < self.samples().len() ==> (#[trigger] self.samples()[i]).generation_counts.within(
                0,
            )
        &&& forall|j: int|
            0 <= j < self.instances().len() ==> {
                &&& (#[trigger] self.instances()[j]).meta.latest_generation_available.within(0)
                &&& self.instances()[j].meta.last_generation_accessed.within(-1)
            }
    }

    /// Whether the sample at position `i` passes `rc`.
    pub open spec fn passes_at(&self, rc: ReadCondition, i: int) -> bool {
        self.samples()[i].spec_passes(rc, self.instance(self.samples()[i].spec_key()))
    }

    /// The timestamps and keys of those among the first `n` samples that
    /// pass `rc`, in order of reception.
    pub open spec fn spec_select_prefix(&self, rc: ReadCondition, n: int) -> Seq<
        (Timestamp, D::K),
    >
        decreases n,
    {
        if n <= 0 {
            Seq::empty()
        } else if self.passes_at(rc, n - 1) {
            self.spec_select_prefix(rc, n - 1).push(
                (self.samples()[n - 1].receive_timestamp, self.samples()[n - 1].spec_key()),
            )
        } else {
            self.spec_select_prefix(rc, n - 1)
        }
    }

    /// The timestamps and keys of the samples that pass `rc`, in order of
    /// reception.
    pub open spec fn spec_select(&self, rc: ReadCondition) -> Seq<(Timestamp, D::K)> {
        self.spec_select_prefix(rc, self.samples().len() as int)
    }

    /// An empty cache under the given policies.
    pub fn new(qos: QosPolicies) -> (cache: DataSampleCache<D>)
        ensures
            cache.wf(),
            cache.qos() == qos,
            cache.samples().len() == 0,
            cache.instances().len() == 0,
    {
        DataSampleCache { qos, datasamples: Vec::new(), instance_map: Vec::new() }
    }

    /// Replaces the policies. Samples already cached stay until the next
    /// sample of their instance arrives.
    pub fn set_qos_policy(&mut self, qos: QosPolicies)
        ensures
            final(self).qos() == qos,
            final(self).samples() == old(self).samples(),
            final(self).instances() == old(self).instances(),
    {
        self.qos = qos
    }

    /// Whether the latest of the samples of the instance `key` comes from
    /// the writer `writer_guid`.
    pub fn last_written_by(&self, key: &D::K, writer_guid: GUID) -> (b: bool)
        ensures
            b == spec_last_written_by(self.samples(), *key, writer_guid),
    {
        let mut i: usize = self.datasamples.len();
        while i > 0
            invariant
                i <= self.datasamples@.len(),
                forall|x: int|
                    i <= x < self.datasamples@.len() ==> (#[trigger] self.datasamples@[x]).spec_key()
                        != *key,
            decreases i,
        {
            i -= 1;
            if self.datasamples[i].get_key().key_eq(key) {
                let b = self.datasamples[i].writer_guid == writer_guid;
                proof {
                    assert(spec_is_latest_of(self.samples(), *key, i as int));
                    if !b && spec_last_written_by(self.samples(), *key, writer_guid) {
                        let m = choose|m: int| #[trigger]
                            spec_is_latest_of(self.samples(), *key, m) && self.samples()[m].writer_guid
                                == writer_guid;
                        if m < i {
                            assert(self.samples()[i as int].spec_key() != *key);
                        }
                        if i < m {
                            assert(self.samples()[m].spec_key() != *key);
                        }
                    }
                }
                return b;
            }
        }
        proof {
            if spec_last_written_by(self.samples(), *key, writer_guid) {
                let m = choose|m: int| #[trigger]
                    spec_is_latest_of(self.samples(), *key, m) && self.samples()[m].writer_guid
                        == writer_guid;
                assert(self.samples()[m].spec_key() != *key);
            }
        }
        false
    }

    /// Takes note that the writer `writer_guid` is lost: each instance
    /// that is alive, and whose latest sample came from that writer, has
    /// no writers from now on. Samples and generation counts stay as they
    /// are.
    pub fn writer_lost(&mut self, writer_guid: GUID)
        requires
            old(self).wf(),
        ensures
            final(self).wf(),
            final(self).qos() == old(self).qos(),
            final(self).samples() == old(self).samples(),
            final(self).instances().len() == old(self).instances().len(),
            forall|j: int|
                0 <= j < old(self).instances().len() ==> (#[trigger] final(self).instances()[j]).key
                    == old(self).instances()[j].key && final(self).instances()[j].meta
                    == (InstanceMetaData {
                    instance_state: spec_state_after_loss(
                        old(self).samples(),
                        old(self).instances()[j],
                        writer_guid,
                    ),
                    ..old(self).instances()[j].meta
                }),
    {
        let mut j: usize = 0;
        while j < self.instance_map.len()
            invariant
                j <= self.instance_map@.len(),
                self.qos == old(self).qos,
                self.datasamples@ == old(self).datasamples@,
                self.instance_map@.len() == old(self).instance_map@.len(),
                forall|k: int|
                    0 <= k < self.instance_map@.len() ==> (#[trigger] self.instance_map@[k]).key
                        == old(self).instance_map@[k].key,
                forall|k: int|
                    j <= k < self.instance_map@.len() ==> (#[trigger] self.instance_map@[k]).meta
                        == old(self).instance_map@[k].meta,
                forall|k: int|
                    0 <= k < j ==> (#[trigger] self.instance_map@[k]).meta == (InstanceMetaData {
                        instance_state: spec_state_after_loss(
                            old(self).samples(),
                            old(self).instances()[k],
                            writer_guid,
                        ),
                        ..old(self).instances()[k].meta
                    }),
            decreases self.instance_map@.len() - j,
        {
            let alive = match self.instance_map[j].meta.instance_state {
                InstanceState::Alive => true,
                _ => false,
            };
            if alive && self.last_written_by(&self.instance_map[j].key, writer_guid) {
                let meta = self.instance_map[j].meta;
                self.instance_map[j].meta = InstanceMetaData {
                    instance_state: InstanceState::NotAliveNoWriters,
                    ..meta
                };
            }
            j += 1;
        }
        proof {
            assert forall|a: int, b: int|
                0 <= a < self.instances().len() && 0 <= b < self.instances().len() && a
                    != b implies (#[trigger] self.instances()[a]).key != (
            #[trigger] self.instances()[b]).key by {
                assert(self.instances()[a].key == old(self).instances()[a].key);
                assert(self.instances()[b].key == old(self).instances()[b].key);
            }
            assert forall|i: int| 0 <= i < self.samples().len() implies spec_has_instance(
                self.instances(),
                (#[trigger] self.samples()[i]).spec_key(),
            ) by {
                let key = old(self).samples()[i].spec_key();
                assert(spec_has_instance(old(self).instances(), key));
                let k = spec_instance_index(old(self).instances(), key);
                assert(self.instances()[k].key == key);
            }
        }
    }

    /// The policies that bound the cache.
    pub fn get_qos(&self) -> (q: QosPolicies)
        ensures
            q == self.qos(),
    {
        self.qos
    }

    /// Number of cached samples.
    pub fn len(&self) -> (n: usize)
        ensures
            n == self.samples().len(),
    {
        self.datasamples.len()
    }

    /// Position of the sample received at `ts`, if the cache holds it.
    pub fn find_sample(&self, ts: Timestamp) -> (r: Option<usize>)
        requires
            self.wf(),
        ensures
            match r {
                Some(i) => i < self.samples().len() && self.samples()[i as int].receive_timestamp
                    == ts && self.contains_sample(ts) && spec_sample_index(self.samples(), ts)
                    == i,
                None => !self.contains_sample(ts),
            },
    {
        let mut lo: usize = 0;
        let mut hi: usize = self.datasamples.len();
        while lo < hi
            invariant
                self.wf(),
                lo <= hi <= self.datasamples.len(),
                forall|k: int|
                    0 <= k < lo ==> (#[trigger] self.datasamples@[k]).receive_timestamp.ticks()
                        < ts.ticks(),
                forall|k: int|
                    hi <= k < self.datasamples.len() ==> ts.ticks() < (
                    #[trigger] self.datasamples@[k]).receive_timestamp.ticks(),
            decreases hi - lo,
        {
            let mid: usize = lo + (hi - lo) / 2;
            let at: Timestamp = self.datasamples[mid].receive_timestamp;
            if at.lt(&ts) {
                assert forall|k: int| 0 <= k < mid + 1 implies (
                #[trigger] self.datasamples@[k]).receive_timestamp.ticks() < ts.ticks() by {
                    if k < mid {
                        assert(self.datasamples@[k].receive_timestamp.ticks()
                            < self.datasamples@[mid as int].receive_timestamp.ticks());
                    }
                }
                lo = mid + 1;
            } else if ts.lt(&at) {
                assert forall|k: int| mid <= k < self.datasamples.len() implies ts.ticks() < (
                #[trigger] self.datasamples@[k]).receive_timestamp.ticks() by {
                    if k > mid {
                        assert(self.datasamples@[mid as int].receive_timestamp.ticks()
                            < self.datasamples@[k].receive_timestamp.ticks());
                    }
                }
                hi = mid;
            } else {
                proof {
                    crate::structure::time::lemma_ticks_injective(at, ts);
                    self.lemma_sample_index_unique(mid as int, ts);
                }
                return Some(mid);
            }
        }
        None
    }

    /// In a well-formed cache a timestamp names at most one position.
    pub proof fn lemma_sample_index_unique(&self, i: int, ts: Timestamp)
        requires
            self.wf(),
            0 <= i < self.samples().len(),
            self.samples()[i].receive_timestamp == ts,
        ensures
            self.contains_sample(ts),
            spec_sample_index(self.samples(), ts) == i,
            self.sample_at(ts) == self.samples()[i],
    {
        let j = spec_sample_index(self.samples(), ts);
        assert(self.samples()[j].receive_timestamp == ts);
        if j < i {
            assert(self.samples()[j].receive_timestamp.ticks()
                < self.samples()[i].receive_timestamp.ticks());
        } else if i < j {
            assert(self.samples()[i].receive_timestamp.ticks()
                < self.samples()[j].receive_timestamp.ticks());
        }
    }

    /// In a well-formed cache a key names at most one instance.
    pub proof fn lemma_instance_index_unique(&self, j: int, key: D::K)
        requires
            self.wf(),
            0 <= j < self.instances().len(),
            self.instances()[j].key == key,
        ensures
            self.contains_instance(key),
            spec_instance_index(self.instances(), key) == j,
            self.instance(key) == self.instances()[j].meta,
    {
        let k = spec_instance_index(self.instances(), key);
        assert(self.instances()[k].key == key);
    }

    /// Position of the instance `key`, if the cache knows it.
    pub fn find_instance(&self, key: &D::K) -> (r: Option<usize>)
        requires
            self.wf(),
        ensures
            match r {
                Some(j) => j < self.instances().len() && self.instances()[j as int].key == *key
                    && self.contains_instance(*key) && spec_instance_index(self.instances(), *key)
                    == j,
                None => !self.contains_instance(*key),
            },
    {
        let mut j: usize = 0;
        while j < self.instance_map.len()
            invariant
                self.wf(),
                j <= self.instance_map.len(),
                forall|k: int| 0 <= k < j ==> (#[trigger] self.instance_map@[k]).key != *key,
            decreases self.instance_map.len() - j,
        {
            if self.instance_map[j].key.key_eq(key) {
                proof {
                    self.lemma_instance_index_unique(j as int, *key);
                }
                return Some(j);
            }
            j += 1;
        }
        None
    }

    /// Decides whether a sample of an instance passes a read condition.
    pub fn sample_selector(rc: &ReadCondition, imd: &InstanceMetaData, d: &SampleWithMetaData<D>) -> (b:
        bool)
        ensures
            b == d.spec_passes(*rc, *imd),
    {
        let sample_state = if d.sample_has_been_read {
            SampleState::Read
        } else {
            SampleState::NotRead
        };
        let is_new = d.generation_counts.total() > imd.last_generation_accessed.total();
        let view_state = if is_new {
            ViewState::New
        } else {
            ViewState::NotNew
        };
        rc.sample_state_mask.contains(sample_state) && rc.view_state_mask.contains(view_state)
            && rc.instance_state_mask.contains(imd.instance_state)
    }

    /// The timestamps and keys of the samples that pass `rc`, in order of
    /// reception. The cache is not changed.
    pub fn select_keys_for_access(&self, rc: ReadCondition) -> (r: Vec<(Timestamp, D::K)>)
        requires
            self.wf(),
        ensures
            r@ == self.spec_select(rc),
            self.keys_valid(r@),
            forall|a: int, b: int|
                0 <= a < b < r.len() ==> (#[trigger] r[a]).0.ticks() < (#[trigger] r[b]).0.ticks(),
            forall|a: int|
                0 <= a < r.len() ==> {
                    &&& self.contains_sample((#[trigger] r[a]).0)
                    &&& self.sample_at(r[a].0).spec_key() == r[a].1
                    &&& self.sample_at(r[a].0).spec_passes(rc, self.instance(r[a].1))
                },
            forall|i: int|
                0 <= i < self.samples().len() && self.passes_at(rc, i) ==> exists|a: int|
                    0 <= a < r.len() && #[trigger] r[a] == (
                        self.samples()[i].receive_timestamp,
                        self.samples()[i].spec_key(),
                    ),
    {
        let mut r: Vec<(Timestamp, D::K)> = Vec::new();
        let ghost mut idxs: Seq<int> = Seq::empty();
        let mut i: usize = 0;
        while i < self.datasamples.len()
            invariant
                self.wf(),
                i <= self.datasamples.len(),
                idxs.len() == r.len(),
                r@ == self.spec_select_prefix(rc, i as int),
                forall|a: int|
                    0 <= a < r.len() ==> {
                        &&& 0 <= (#[trigger] idxs[a]) < i
                        &&& r[a].0 == self.samples()[idxs[a]].receive_timestamp
                        &&& r[a].1 == self.samples()[idxs[a]].spec_key()
                        &&& self.passes_at(rc, idxs[a])
                    },
                forall|a: int, b: int| 0 <= a < b < r.len() ==> idxs[a] < idxs[b],
                forall|k: int|
                    0 <= k < i && self.passes_at(rc, k) ==> exists|a: int|
                        0 <= a < r.len() && #[trigger] r[a] == (
                            self.samples()[k].receive_timestamp,
                            self.samples()[k].spec_key(),
                        ),
            decreases self.datasamples.len() - i,
        {
            let key = self.datasamples[i].get_key();
            let found = self.find_instance(&key);
            assert(found is Some);
            let j = found.unwrap();
            if Self::sample_selector(&rc, &self.instance_map[j].meta, &self.datasamples[i]) {
                let ghost old_r = r@;
                r.push((self.datasamples[i].receive_timestamp, key));
                proof {
                    idxs = idxs.push(i as int);
                    assert forall|k: int| 0 <= k < i + 1 && self.passes_at(rc, k) implies exists|
                        a: int,
                    |
                        0 <= a < r.len() && #[trigger] r[a] == (
                            self.samples()[k].receive_timestamp,
                            self.samples()[k].spec_key(),
                        ) by {
                        if k < i {
                            let a = choose|a: int|
                                0 <= a < old_r.len() && #[trigger] old_r[a] == (
                                    self.samples()[k].receive_timestamp,
                                    self.samples()[k].spec_key(),
                                );
                            assert(r[a] == old_r[a]);
                        } else {
                            assert(r[r.len() - 1] == (
                                self.samples()[k].receive_timestamp,
                                self.samples()[k].spec_key(),
                            ));
                        }
                    }
                }
            }
            i += 1;
        }
        proof {
            assert forall|a: int| 0 <= a < r.len() implies {
                &&& self.contains_sample((#[trigger] r[a]).0)
                &&& self.sample_at(r[a].0).spec_key() == r[a].1
                &&& self.sample_at(r[a].0).spec_passes(rc, self.instance(r[a].1))
            } by {
                self.lemma_sample_index_unique(idxs[a], r[a].0);
            }
            assert forall|a: int, b: int| 0 <= a < b < r.len() implies (#[trigger] r[a]).0.ticks()
                < (#[trigger] r[b]).0.ticks() by {
                assert(idxs[a] < idxs[b]);
                assert(self.samples()[idxs[a]].receive_timestamp.ticks()
                    < self.samples()[idxs[b]].receive_timestamp.ticks());
            }
        }
        r
    }

    /// Counts the cached samples of the instance `key`.
    pub fn count_samples_of(&self, key: &D::K) -> (n: usize)
        ensures
            n == self.instance_sample_count(*key),
    {
        let mut n: usize = 0;
        let mut i: usize = 0;
        while i < self.datasamples.len()
            invariant
                i <= self.datasamples.len(),
                n == spec_count_of_key(self.datasamples@.subrange(0, i as int), *key),
                n <= i,
            decreases self.datasamples.len() - i,
        {
            let k = self.datasamples[i].get_key();
            proof {
                assert(self.datasamples@.subrange(0, i as int + 1).drop_last()
                    == self.datasamples@.subrange(0, i as int));
                assert(self.datasamples@.subrange(0, i as int + 1).last()
                    == self.datasamples@[i as int]);
            }
            if k.key_eq(key) {
                n += 1;
            }
            i += 1;
        }
        assert(self.datasamples@.subrange(0, self.datasamples@.len() as int) == self.datasamples@);
        n
    }

    /// Adds a sample received at `receive_timestamp`: a value of the data
    /// type, or the key of an instance that its writer disposed.
    ///
    /// The instance of the sample is recorded or updated, the sample takes
    /// its place in the order of reception with the generation counts of
    /// its instance, and the oldest samples of the instance beyond the keep
    /// count leave the cache. A reception timestamp may be used once.
    pub fn add_sample(
        &mut self,
        new_sample: Result<D, D::K>,
        writer_guid: GUID,
        receive_timestamp: Timestamp,
        source_timestamp: Option<Timestamp>,
    )
        requires
            old(self).wf(),
            !old(self).contains_sample(receive_timestamp),
        ensures
            final(self).wf(),
            final(self).qos() == old(self).qos(),
            final(self).instances() == spec_instances_after(
                old(self).instances(),
                spec_sample_key(new_sample),
                spec_sample_state(new_sample),
            ),
            final(self).contains_instance(spec_sample_key(new_sample)),
            final(self).instance(spec_sample_key(new_sample)) == spec_meta_after(
                if old(self).contains_instance(spec_sample_key(new_sample)) {
                    Some(old(self).instance(spec_sample_key(new_sample)))
                } else {
                    None
                },
                spec_sample_state(new_sample),
            ),
            final(self).samples() == spec_evict(
                spec_insert_sample(
                    old(self).samples(),
                    SampleWithMetaData {
                        receive_timestamp,
                        generation_counts: final(self).instance(
                            spec_sample_key(new_sample),
                        ).latest_generation_available,
                        writer_guid,
                        source_timestamp,
                        sample_has_been_read: false,
                        sample: new_sample,
                    },
                ),
                spec_sample_key(new_sample),
                old(self).qos().spec_keep_count(),
            ),
            old(self).qos().spec_keep_count() matches Some(k) ==> final(self).instance_sample_count(
                spec_sample_key(new_sample),
            ) <= if k > 0 {
                k as int
            } else {
                0
            },
            old(self).qos().spec_keep_count() is None ==> final(self).instance_sample_count(
                spec_sample_key(new_sample),
            ) == old(self).instance_sample_count(spec_sample_key(new_sample)) + 1,
            forall|other: D::K|
                other != spec_sample_key(new_sample) ==> final(self).instance_sample_count(other)
                    == old(self).instance_sample_count(other),
    {
        let instance_key = match &new_sample {
            Ok(d) => d.get_key(),
            Err(k) => k.clone_key(),
        };
        let new_instance_state = match &new_sample {
            Ok(_) => InstanceState::Alive,
            Err(_) => InstanceState::NotAliveDisposed,
        };
        let ghost key = spec_sample_key(new_sample);
        let ghost old_instances = self.instance_map@;
        let ghost old_samples = self.datasamples@;

        // Find or create the record of the instance, and update it.
        let found = self.find_instance(&instance_key);
        let generation_counts: NotAliveGenerationCounts;
        match found {
            Some(j) => {
                let prior = self.instance_map[j].meta;
                let mut latest = prior.latest_generation_available;
                match (prior.instance_state, new_instance_state) {
                    (InstanceState::NotAliveDisposed, InstanceState::Alive) => {
                        if latest.disposed_generation_count < GENERATION_COUNT_MAX {
                            latest.disposed_generation_count = latest.disposed_generation_count
                                + 1;
                        }
                    },
                    (InstanceState::NotAliveNoWriters, InstanceState::Alive) => {
                        if latest.no_writers_generation_count < GENERATION_COUNT_MAX {
                            latest.no_writers_generation_count = latest.no_writers_generation_count
                                + 1;
                        }
                    },
                    _ => {},
                }
                let meta = InstanceMetaData {
                    instance_state: new_instance_state,
                    latest_generation_available: latest,
                    last_generation_accessed: prior.last_generation_accessed,
                };
                self.instance_map[j].meta = meta;
                generation_counts = latest;
                proof {
                    assert(self.instance_map@ =~= old_instances.update(
                        j as int,
                        InstanceEntry { key, meta },
                    ));
                    assert(meta == spec_meta_after(Some(old_instances[j as int].meta), new_instance_state));
                    assert forall|i: int| 0 <= i < old_samples.len() implies spec_has_instance(
                        self.instance_map@,
                        (#[trigger] old_samples[i]).spec_key(),
                    ) by {
                        let k = spec_instance_index(old_instances, old_samples[i].spec_key());
                        assert(self.instance_map@[k].key == old_samples[i].spec_key());
                    }
                }
            },
            None => {
                let meta = InstanceMetaData {
                    instance_state: new_instance_state,
                    latest_generation_available: NotAliveGenerationCounts::zero(),
                    last_generation_accessed: NotAliveGenerationCounts::sub_zero(),
                };
                self.instance_map.push(InstanceEntry { key: instance_key.clone_key(), meta });
                generation_counts = NotAliveGenerationCounts::zero();
                proof {
                    assert forall|i: int| 0 <= i < old_samples.len() implies spec_has_instance(
                        self.instance_map@,
                        (#[trigger] old_samples[i]).spec_key(),
                    ) by {
                        let k = spec_instance_index(old_instances, old_samples[i].spec_key());
                        assert(self.instance_map@[k].key == old_samples[i].spec_key());
                    }
                    assert(self.instance_map@[old_instances.len() as int].key == key);
                    assert forall|a: int, b: int|
                        0 <= a < self.instance_map@.len() && 0 <= b < self.instance_map@.len() && a
                            != b implies (#[trigger] self.instance_map@[a]).key != (
                    #[trigger] self.instance_map@[b]).key by {
                        if a < old_instances.len() {
                            assert(self.instance_map@[a] == old_instances[a]);
                        }
                        if b < old_instances.len() {
                            assert(self.instance_map@[b] == old_instances[b]);
                        }
                    }
                }
            },
        }
        let ghost new_instances = self.instance_map@;
        proof {
            assert(new_instances == spec_instances_after(old_instances, key, new_instance_state));
            assert(self.wf());
            let j = choose|j: int| 0 <= j < new_instances.len() && (#[trigger] new_instances[j]).key == key;
            self.lemma_instance_index_unique(j, key);
            assert(self.instance(key).latest_generation_available == generation_counts);
        }

        // Put the sample at its place in the order of reception.
        let mut p: usize = self.datasamples.len();
        while p > 0 && receive_timestamp.lt(&self.datasamples[p - 1].receive_timestamp)
            invariant
                p <= self.datasamples.len(),
                self.datasamples@ == old_samples,
                self.instance_map@ == new_instances,
                self.qos == old(self).qos,
                forall|i: int|
                    p <= i < self.datasamples.len() ==> receive_timestamp.ticks() < (
                    #[trigger] self.datasamples@[i]).receive_timestamp.ticks(),
            decreases p,
        {
            p -= 1;
        }
        let ghost rec = SampleWithMetaData::<D> {
            receive_timestamp,
            generation_counts,
            writer_guid,
            source_timestamp,
            sample_has_been_read: false,
            sample: new_sample,
        };
        proof {
            if p > 0 {
                let before = old_samples[p - 1].receive_timestamp;
                crate::structure::time::lemma_ticks_injective(before, receive_timestamp);
                assert(before.ticks() < receive_timestamp.ticks());
                assert forall|i: int| 0 <= i < p implies (
                #[trigger] old_samples[i]).receive_timestamp.ticks()
                    < receive_timestamp.ticks() by {
                    if i < p - 1 {
                        assert(old_samples[i].receive_timestamp.ticks() < old_samples[p
                            - 1].receive_timestamp.ticks());
                    }
                }
            }
            assert(spec_is_insert_position(old_samples, receive_timestamp, p as int));
            lemma_insert_position_unique(old_samples, receive_timestamp, p as int);
            lemma_insert_sorted(old_samples, p as int, rec);
            lemma_count_insert(old_samples, p as int, rec, key);
            assert forall|other: D::K| other != key implies spec_count_of_key(
                old_samples.insert(p as int, rec),
                other,
            ) == spec_count_of_key(old_samples, other) by {
                lemma_count_insert(old_samples, p as int, rec, other);
            }
        }
        self.datasamples.insert(
            p,
            SampleWithMetaData {
                receive_timestamp,
                generation_counts,
                writer_guid,
                source_timestamp,
                sample_has_been_read: false,
                sample: new_sample,
            },
        );
        let ghost inserted = self.datasamples@;
        proof {
            assert(inserted == spec_insert_sample(old_samples, rec));
            assert forall|i: int| 0 <= i < inserted.len() implies spec_has_instance(
                new_instances,
                (#[trigger] inserted[i]).spec_key(),
            ) && inserted[i].generation_counts.within(0) by {
                if i < p {
                    assert(inserted[i] == old_samples[i]);
                } else if i > p {
                    assert(inserted[i] == old_samples[i - 1]);
                } else {
                    assert(inserted[i] == rec);
                }
            }
        }

        // Evict the oldest samples of the instance beyond the keep count.
        let keep = self.qos.keep_count();
        assert(spec_drop_oldest(inserted, key, 0) == inserted);
        if let Some(k) = keep {
            let total = self.count_samples_of(&instance_key);
            assert(total == spec_count_of_key(inserted, key));
            let limit: usize = if k <= 0 {
                0
            } else {
                k as usize
            };
            if total > limit {
                let excess: usize = total - limit;
                let mut removed: usize = 0;
                let mut from: usize = 0;
                while removed < excess
                    invariant
                        removed <= excess <= total,
                        total == spec_count_of_key(inserted, key),
                        instance_key == key,
                        self.instance_map@ == new_instances,
                        self.qos == old(self).qos,
                        self.datasamples@ == spec_drop_oldest(inserted, key, removed as nat),
                        spec_count_of_key(self.datasamples@, key) == total - removed,
                        spec_samples_sorted(self.datasamples@),
                        from <= self.datasamples.len(),
                        forall|j: int|
                            0 <= j < from ==> (#[trigger] self.datasamples@[j]).spec_key() != key,
                        forall|i: int|
                            0 <= i < self.datasamples@.len() ==> spec_has_instance(
                                new_instances,
                                (#[trigger] self.datasamples@[i]).spec_key(),
                            ) && self.datasamples@[i].generation_counts.within(0),
                        forall|other: D::K|
                            other != key ==> spec_count_of_key(self.datasamples@, other)
                                == spec_count_of_key(inserted, other),
                    ensures
                        removed == excess,
                    decreases excess - removed,
                {
                    let ghost cur = self.datasamples@;
                    let mut i: usize = from;
                    while i < self.datasamples.len() && !self.datasamples[i].get_key().key_eq(
                        &instance_key,
                    )
                        invariant
                            from <= i <= self.datasamples.len(),
                            self.datasamples@ == cur,
                            instance_key == key,
                            forall|j: int|
                                0 <= j < i ==> (#[trigger] self.datasamples@[j]).spec_key() != key,
                        decreases self.datasamples.len() - i,
                    {
                        i += 1;
                    }
                    if i >= self.datasamples.len() {
                        proof {
                            lemma_count_zero(cur, key);
                            assert(false);
                        }
                        break;
                    }
                    proof {
                        assert(spec_is_first_of_key(cur, key, i as int));
                        lemma_first_of_key_unique(cur, key, i as int);
                        lemma_remove_sorted(cur, i as int);
                        lemma_count_remove(cur, i as int, key);
                        assert forall|other: D::K| other != key implies spec_count_of_key(
                            cur.remove(i as int),
                            other,
                        ) == spec_count_of_key(inserted, other) by {
                            lemma_count_remove(cur, i as int, other);
                        }
                        assert(spec_drop_oldest(inserted, key, (removed + 1) as nat)
                            == spec_drop_first(
                            spec_drop_oldest(inserted, key, removed as nat),
                            key,
                        ));
                    }
                    self.datasamples.remove(i);
                    removed += 1;
                    from = i;
                    proof {
                        let now = self.datasamples@;
                        assert forall|a: int| 0 <= a < now.len() implies spec_has_instance(
                            new_instances,
                            (#[trigger] now[a]).spec_key(),
                        ) && now[a].generation_counts.within(0) by {
                            if a < i {
                                assert(now[a] == cur[a]);
                            } else {
                                assert(now[a] == cur[a + 1]);
                            }
                        }
                        assert forall|j: int| 0 <= j < from implies (#[trigger] now[j]).spec_key()
                            != key by {
                            assert(now[j] == cur[j]);
                        }
                    }
                }
            }
        }
    }

    /// Whether a batch of timestamps and keys may be handed to the read and
    /// take operations: every entry names a cached sample with the key of
    /// its instance, and the entries stand in order of reception.
    pub open spec fn keys_valid(&self, keys: Seq<(Timestamp, D::K)>) -> bool {
        &&& forall|n: int|
            0 <= n < keys.len() ==> self.contains_sample((#[trigger] keys[n]).0) && self.sample_at(
                keys[n].0,
            ).spec_key() == keys[n].1
        &&& forall|a: int, b: int|
            0 <= a < b < keys.len() ==> (#[trigger] keys[a]).0.ticks() < (
            #[trigger] keys[b]).0.ticks()
    }

    /// Decides whether a batch may be handed to the read and take
    /// operations.
    pub fn check_keys(&self, keys: &[(Timestamp, D::K)]) -> (b: bool)
        requires
            self.wf(),
        ensures
            b == self.keys_valid(keys@),
    {
        let mut n: usize = 0;
        while n < keys.len()
            invariant
                self.wf(),
                n <= keys.len(),
                forall|x: int|
                    0 <= x < n ==> self.contains_sample((#[trigger] keys@[x]).0) && self.sample_at(
                        keys@[x].0,
                    ).spec_key() == keys@[x].1,
                forall|a: int, b: int|
                    0 <= a < b < n ==> (#[trigger] keys@[a]).0.ticks() < (
                    #[trigger] keys@[b]).0.ticks(),
            decreases keys.len() - n,
        {
            let ts = keys[n].0;
            match self.find_sample(ts) {
                None => {
                    return false;
                },
                Some(i) => {
                    if !self.datasamples[i].get_key().key_eq(&keys[n].1) {
                        return false;
                    }
                },
            }
            if n > 0 {
                if !keys[n - 1].0.lt(&ts) {
                    assert(!(keys@[n - 1].0.ticks() < keys@[n as int].0.ticks()));
                    return false;
                }
                assert forall|a: int, b: int| 0 <= a < b < n + 1 implies (
                #[trigger] keys@[a]).0.ticks() < (#[trigger] keys@[b]).0.ticks() by {
                    if b == n && a < n - 1 {
                        assert(keys@[a].0.ticks() < keys@[n - 1].0.ticks());
                    }
                }
            }
            n += 1;
        }
        true
    }

    /// The sample info that an access with the batch `keys` reports for its
    /// entry `n`, as the cache stands before the access.
    pub open spec fn spec_sample_info(&self, keys: Seq<(Timestamp, D::K)>, n: int) -> SampleInfo {
        spec_make_sample_info(
            self.sample_at(keys[n].0),
            self.instance(keys[n].1),
            spec_key_occurrences(keys, keys[n].1, n + 1),
            self.samples().last().generation_counts.spec_total(),
            self.sample_at(
                keys[spec_last_of_key(keys, keys[n].1)].0,
            ).generation_counts.spec_total(),
        )
    }

    /// The generation counts that an access with the first `n` entries of
    /// the batch views of the instance `key`: those with the largest total
    /// among the samples of the instance in the batch, or `None` when the
    /// batch names no sample of the instance.
    pub open spec fn spec_viewed(
        &self,
        keys: Seq<(Timestamp, D::K)>,
        key: D::K,
        n: int,
    ) -> Option<NotAliveGenerationCounts>
        decreases n,
    {
        if n <= 0 {
            None
        } else {
            let prior = self.spec_viewed(keys, key, n - 1);
            if keys[n - 1].1 == key {
                Some(spec_merge_viewed(prior, self.sample_at(keys[n - 1].0).generation_counts))
            } else {
                prior
            }
        }
    }

    /// Builds the sample info of one sample.
    pub fn make_sample_info(
        dswm: &SampleWithMetaData<D>,
        imd: &InstanceMetaData,
        sample_rank: usize,
        mrs_generations: i64,
        mrsic_generations: i64,
    ) -> (info: SampleInfo)
        ensures
            info == spec_make_sample_info(
                *dswm,
                *imd,
                sample_rank as nat,
                mrs_generations as int,
                mrsic_generations as int,
            ),
    {
        let total = dswm.generation_counts.total();
        SampleInfo {
            sample_state: if dswm.sample_has_been_read {
                SampleState::Read
            } else {
                SampleState::NotRead
            },
            view_state: if total > imd.last_generation_accessed.total() {
                ViewState::New
            } else {
                ViewState::NotNew
            },
            instance_state: imd.instance_state,
            generation_counts: dswm.generation_counts,
            sample_rank: clamp_i32(sample_rank as i128),
            generation_rank: clamp_i32(mrsic_generations as i128 - total as i128),
            absolute_generation_rank: clamp_i32(mrs_generations as i128 - total as i128),
            source_timestamp: dswm.source_timestamp,
            publication_handle: dswm.writer_guid,
        }
    }

    /// The sample infos that an access with the batch `keys` reports, one
    /// for each entry.
    pub fn sample_infos(&self, keys: &[(Timestamp, D::K)]) -> (infos: Vec<SampleInfo>)
        requires
            self.wf(),
            self.keys_valid(keys@),
        ensures
            infos.len() == keys.len(),
            forall|n: int| 0 <= n < keys.len() ==> #[trigger] infos[n] == self.spec_sample_info(keys@, n),
    {
        let len = keys.len();
        let mut infos: Vec<SampleInfo> = Vec::new();
        if len == 0 {
            return infos;
        }
        proof {
            assert(self.contains_sample(keys@[0].0));
        }
        let mrs_total = self.datasamples[self.datasamples.len() - 1].generation_counts.total();
        let mut n: usize = 0;
        while n < len
            invariant
                self.wf(),
                self.keys_valid(keys@),
                len == keys.len(),
                n <= len,
                self.datasamples.len() > 0,
                mrs_total as int == self.samples().last().generation_counts.spec_total(),
                infos.len() == n,
                forall|x: int| 0 <= x < n ==> #[trigger] infos[x] == self.spec_sample_info(keys@, x),
            decreases len - n,
        {
            let ts = keys[n].0;
            let found = self.find_sample(ts);
            assert(found is Some);
            let i = found.unwrap();
            let found_instance = self.find_instance(&keys[n].1);
            assert(found_instance is Some) by {
                assert(self.samples()[i as int].spec_key() == keys@[n as int].1);
            }
            let j = found_instance.unwrap();
            let mut rank: usize = 0;
            let mut last: usize = n;
            let mut m: usize = n + 1;
            while m < len
                invariant
                    len == keys.len(),
                    n < m <= len,
                    n <= last < m,
                    keys@[last as int].1 == keys@[n as int].1,
                    forall|x: int| last < x < m ==> (#[trigger] keys@[x]).1 != keys@[n as int].1,
                    rank <= m - n - 1,
                    rank + spec_key_occurrences(keys@, keys@[n as int].1, m as int)
                        == spec_key_occurrences(keys@, keys@[n as int].1, n + 1),
                decreases len - m,
            {
                if keys[m].1.key_eq(&keys[n].1) {
                    rank += 1;
                    last = m;
                }
                m += 1;
            }
            proof {
                lemma_last_of_key_unique(keys@, keys@[n as int].1, last as int);
            }
            let found_last = self.find_sample(keys[last].0);
            assert(found_last is Some);
            let li = found_last.unwrap();
            let mrsic_total = self.datasamples[li].generation_counts.total();
            let info = Self::make_sample_info(
                &self.datasamples[i],
                &self.instance_map[j].meta,
                rank,
                mrs_total,
                mrsic_total,
            );
            infos.push(info);
            n += 1;
        }
        infos
    }

    /// Records that generation counts `accessed_generations` of the
    /// instance `instance_key` were accessed: what is recorded of the
    /// instance becomes the counts with the larger total.
    pub fn record_instance_generation_viewed(
        instance_generations: &mut Vec<(D::K, NotAliveGenerationCounts)>,
        accessed_generations: NotAliveGenerationCounts,
        instance_key: &D::K,
    )
        requires
            spec_viewed_distinct(old(instance_generations)@),
        ensures
            final(instance_generations)@ == spec_record_viewed(
                old(instance_generations)@,
                accessed_generations,
                *instance_key,
            ),
    {
        let mut a: usize = 0;
        while a < instance_generations.len()
            invariant
                a <= instance_generations.len(),
                instance_generations@ == old(instance_generations)@,
                spec_viewed_distinct(instance_generations@),
                forall|b: int| 0 <= b < a ==> (#[trigger] instance_generations@[b]).0 != *instance_key,
            decreases instance_generations.len() - a,
        {
            if instance_generations[a].0.key_eq(instance_key) {
                let ghost before = instance_generations@;
                let prior = instance_generations[a].1;
                proof {
                    let c = choose|c: int|
                        0 <= c < before.len() && (#[trigger] before[c]).0 == *instance_key;
                    assert(before[a as int].0 == *instance_key);
                    assert(before[c].0 == *instance_key);
                    assert(c == a);
                }
                if accessed_generations.total() > prior.total() {
                    instance_generations[a].1 = accessed_generations;
                }
                assert(instance_generations@ =~= before.update(
                    a as int,
                    (*instance_key, spec_merge_viewed(Some(prior), accessed_generations)),
                ));
                return ;
            }
            a += 1;
        }
        instance_generations.push((instance_key.clone_key(), accessed_generations));
    }

    /// Records at each instance named by `instance_generations` the
    /// generation counts given there as the counts last accessed.
    pub fn mark_instances_viewed(
        &mut self,
        instance_generations: Vec<(D::K, NotAliveGenerationCounts)>,
    )
        requires
            old(self).wf(),
            spec_viewed_distinct(instance_generations@),
            forall|a: int|
                0 <= a < instance_generations.len() ==> old(self).contains_instance(
                    (#[trigger] instance_generations[a]).0,
                ) && instance_generations[a].1.within(-1),
        ensures
            final(self).wf(),
            final(self).qos() == old(self).qos(),
            final(self).samples() == old(self).samples(),
            final(self).instances().len() == old(self).instances().len(),
            forall|j: int|
                0 <= j < old(self).instances().len() ==> (#[trigger] final(self).instances()[j]).key
                    == old(self).instances()[j].key && final(self).instances()[j].meta
                    == spec_meta_viewed(
                    old(self).instances()[j].meta,
                    spec_lookup_viewed(instance_generations@, old(self).instances()[j].key),
                ),
    {
        let ghost v = instance_generations@;
        let ghost old_inst = self.instance_map@;
        let mut a: usize = 0;
        while a < instance_generations.len()
            invariant
                a <= instance_generations.len(),
                v == instance_generations@,
                spec_viewed_distinct(v),
                self.wf(),
                self.qos == old(self).qos,
                self.datasamples@ == old(self).datasamples@,
                self.instance_map@.len() == old_inst.len(),
                forall|b: int| 0 <= b < v.len() ==> (#[trigger] v[b]).1.within(-1),
                forall|b: int|
                    0 <= b < v.len() ==> spec_has_instance(old_inst, (#[trigger] v[b]).0),
                forall|j: int|
                    0 <= j < old_inst.len() ==> (#[trigger] self.instance_map@[j]).key
                        == old_inst[j].key && self.instance_map@[j].meta.instance_state
                        == old_inst[j].meta.instance_state
                        && self.instance_map@[j].meta.latest_generation_available
                        == old_inst[j].meta.latest_generation_available,
                forall|j: int, b: int|
                    0 <= j < old_inst.len() && 0 <= b < a && (#[trigger] v[b]).0 == (
                    #[trigger] old_inst[j]).key
                        ==> self.instance_map@[j].meta.last_generation_accessed == v[b].1,
                forall|j: int|
                    0 <= j < old_inst.len() && (forall|b: int|
                        0 <= b < a ==> (#[trigger] v[b]).0 != old_inst[j].key) ==> (
                    #[trigger] self.instance_map@[j]).meta.last_generation_accessed
                        == old_inst[j].meta.last_generation_accessed,
            decreases instance_generations.len() - a,
        {
            let ghost before = self.instance_map@;
            proof {
                let j0 = spec_instance_index(old_inst, v[a as int].0);
                assert(old_inst[j0].key == v[a as int].0);
                assert(before[j0].key == v[a as int].0);
            }
            let found = self.find_instance(&instance_generations[a].0);
            assert(found is Some);
            let j = found.unwrap();
            self.instance_map[j].meta.last_generation_accessed = instance_generations[a].1;
            proof {
                let now = self.instance_map@;
                assert forall|x: int| 0 <= x < old_inst.len() && x != j implies #[trigger] now[x]
                    == before[x] by {}
                assert forall|i: int| 0 <= i < self.datasamples@.len() implies spec_has_instance(
                    now,
                    (#[trigger] self.datasamples@[i]).spec_key(),
                ) by {
                    let k = spec_instance_index(before, self.datasamples@[i].spec_key());
                    assert(before[k].key == self.datasamples@[i].spec_key());
                    assert(now[k].key == self.datasamples@[i].spec_key());
                }
                assert forall|x: int, b: int|
                    0 <= x < old_inst.len() && 0 <= b < a + 1 && (#[trigger] v[b]).0 == (
                    #[trigger] old_inst[x]).key implies now[x].meta.last_generation_accessed
                    == v[b].1 by {
                    if x == j {
                        if b < a {
                            assert(v[b].0 != v[a as int].0);
                        }
                    } else {
                        assert(now[x] == before[x]);
                        if b == a {
                            assert(before[x].key != before[j as int].key);
                        }
                    }
                }
                assert forall|x: int|
                    0 <= x < old_inst.len() && (forall|b: int|
                        0 <= b < a + 1 ==> (#[trigger] v[b]).0 != old_inst[x].key) implies (
                #[trigger] now[x]).meta.last_generation_accessed
                    == old_inst[x].meta.last_generation_accessed by {
                    if x == j {
                        assert(v[a as int].0 == old_inst[x].key);
                    } else {
                        assert(now[x] == before[x]);
                        assert forall|b: int| 0 <= b < a implies (#[trigger] v[b]).0
                            != old_inst[x].key by {}
                    }
                }
            }
            a += 1;
        }
        proof {
            assert forall|j: int| 0 <= j < old_inst.len() implies (
            #[trigger] self.instance_map@[j]).meta == spec_meta_viewed(
                old_inst[j].meta,
                spec_lookup_viewed(v, old_inst[j].key),
            ) by {
                if exists|b: int| 0 <= b < v.len() && (#[trigger] v[b]).0 == old_inst[j].key {
                    let b = choose|b: int| 0 <= b < v.len() && (#[trigger] v[b]).0 == old_inst[j].key;
                    assert(self.instance_map@[j].meta.last_generation_accessed == v[b].1);
                }
            }
        }
    }

    /// The generation counts that an access with the batch views of each
    /// instance that the batch names.
    pub fn viewed_generations(&self, keys: &[(Timestamp, D::K)]) -> (viewed: Vec<
        (D::K, NotAliveGenerationCounts),
    >)
        requires
            self.wf(),
            self.keys_valid(keys@),
        ensures
            spec_viewed_distinct(viewed@),
            forall|key: D::K|
                spec_lookup_viewed(viewed@, key) == self.spec_viewed(keys@, key, keys@.len() as int),
            forall|a: int|
                0 <= a < viewed.len() ==> self.contains_instance((#[trigger] viewed[a]).0)
                    && viewed[a].1.within(0),
    {
        let mut viewed: Vec<(D::K, NotAliveGenerationCounts)> = Vec::new();
        let mut n: usize = 0;
        while n < keys.len()
            invariant
                self.wf(),
                self.keys_valid(keys@),
                n <= keys.len(),
                spec_viewed_distinct(viewed@),
                forall|key: D::K|
                    spec_lookup_viewed(viewed@, key) == self.spec_viewed(keys@, key, n as int),
                forall|a: int|
                    0 <= a < viewed.len() ==> self.contains_instance((#[trigger] viewed[a]).0)
                        && viewed[a].1.within(0),
            decreases keys.len() - n,
        {
            let found = self.find_sample(keys[n].0);
            assert(found is Some);
            let i = found.unwrap();
            let ghost before = viewed@;
            let ghost g = self.datasamples@[i as int].generation_counts;
            let ghost key = keys@[n as int].1;
            proof {
                lemma_record_viewed(before, g, key);
                assert(self.samples()[i as int].spec_key() == key);
            }
            Self::record_instance_generation_viewed(
                &mut viewed,
                self.datasamples[i].generation_counts,
                &keys[n].1,
            );
            proof {
                assert forall|k2: D::K| spec_lookup_viewed(viewed@, k2) == self.spec_viewed(
                    keys@,
                    k2,
                    n + 1,
                ) by {
                    assert(spec_lookup_viewed(before, k2) == self.spec_viewed(keys@, k2, n as int));
                }
                assert forall|a: int| 0 <= a < viewed.len() implies self.contains_instance(
                    (#[trigger] viewed[a]).0,
                ) && viewed[a].1.within(0) by {
                    if a < before.len() {
                        assert(before[a].1.within(0));
                        assert(self.contains_instance(before[a].0));
                    }
                }
            }
            n += 1;
        }
        viewed
    }

    /// Whether this cache is `before` after an access with the batch `keys`
    /// as far as policies and instances go: the policies and the instances
    /// are the same, and each instance that the batch names has as its last
    /// accessed generation the counts with the largest total among its
    /// samples in the batch.
    pub open spec fn instances_after_access(
        &self,
        before: DataSampleCache<D>,
        keys: Seq<(Timestamp, D::K)>,
    ) -> bool {
        &&& self.qos() == before.qos()
        &&& self.instances().len() == before.instances().len()
        &&& forall|j: int|
            0 <= j < before.instances().len() ==> (#[trigger] self.instances()[j]).key
                == before.instances()[j].key && self.instances()[j].meta == spec_meta_viewed(
                before.instances()[j].meta,
                before.spec_viewed(keys, before.instances()[j].key, keys.len() as int),
            )
    }

    /// Whether this cache is `before` after a read with the batch `keys`:
    /// the samples that the batch names are marked as read, nothing else
    /// changes of the samples, and the instances record the access.
    pub open spec fn is_after_read(
        &self,
        before: DataSampleCache<D>,
        keys: Seq<(Timestamp, D::K)>,
    ) -> bool {
        &&& self.instances_after_access(before, keys)
        &&& self.samples().len() == before.samples().len()
        &&& forall|i: int|
            0 <= i < before.samples().len() ==> spec_same_but_read(
                #[trigger] self.samples()[i],
                before.samples()[i],
            ) && self.samples()[i].sample_has_been_read == (
            before.samples()[i].sample_has_been_read || spec_keys_hold(
                keys,
                before.samples()[i].receive_timestamp,
            ))
    }

    /// Whether this cache is `before` after a take with the batch `keys`:
    /// the samples that the batch names are gone, all others are as they
    /// were, and the instances record the access.
    pub open spec fn is_after_take(
        &self,
        before: DataSampleCache<D>,
        keys: Seq<(Timestamp, D::K)>,
    ) -> bool {
        &&& self.instances_after_access(before, keys)
        &&& self.samples().len() == before.samples().len() - keys.len()
        &&& forall|ts: Timestamp|
            #![trigger self.contains_sample(ts)]
            self.contains_sample(ts) <==> before.contains_sample(ts) && !spec_keys_hold(keys, ts)
        &&& forall|ts: Timestamp|
            #![trigger self.sample_at(ts)]
            self.contains_sample(ts) ==> self.sample_at(ts) == before.sample_at(ts)
    }

    /// Marks the samples that the batch names as read.
    fn mark_samples_read(&mut self, keys: &[(Timestamp, D::K)])
        requires
            old(self).wf(),
            old(self).keys_valid(keys@),
        ensures
            final(self).wf(),
            final(self).keys_valid(keys@),
            final(self).qos() == old(self).qos(),
            final(self).instances() == old(self).instances(),
            final(self).samples().len() == old(self).samples().len(),
            forall|i: int|
                0 <= i < old(self).samples().len() ==> spec_same_but_read(
                    #[trigger] final(self).samples()[i],
                    old(self).samples()[i],
                ) && final(self).samples()[i].sample_has_been_read == (
                old(self).samples()[i].sample_has_been_read || spec_keys_hold(
                    keys@,
                    old(self).samples()[i].receive_timestamp,
                )),
    {
        let ghost before = self.datasamples@;
        let mut n: usize = 0;
        while n < keys.len()
            invariant
                n <= keys.len(),
                self.wf(),
                old(self).wf(),
                before == old(self).datasamples@,
                old(self).keys_valid(keys@),
                self.qos == old(self).qos,
                self.instance_map@ == old(self).instance_map@,
                self.datasamples@.len() == before.len(),
                forall|i: int|
                    0 <= i < before.len() ==> spec_same_but_read(
                        #[trigger] self.datasamples@[i],
                        before[i],
                    ) && self.datasamples@[i].sample_has_been_read == (
                    before[i].sample_has_been_read || exists|x: int|
                        0 <= x < n && (#[trigger] keys@[x]).0 == before[i].receive_timestamp),
            decreases keys.len() - n,
        {
            let ts = keys[n].0;
            proof {
                let i0 = spec_sample_index(before, ts);
                assert(before[i0].receive_timestamp == ts);
                assert(self.datasamples@[i0].receive_timestamp == ts);
            }
            let found = self.find_sample(ts);
            assert(found is Some);
            let i = found.unwrap();
            let ghost cur = self.datasamples@;
            self.datasamples[i].sample_has_been_read = true;
            proof {
                let now = self.datasamples@;
                assert forall|x: int| 0 <= x < now.len() && x != i implies #[trigger] now[x]
                    == cur[x] by {}
                assert forall|x: int| 0 <= x < now.len() implies (
                #[trigger] now[x]).receive_timestamp == cur[x].receive_timestamp && now[x].spec_key()
                    == cur[x].spec_key() && now[x].generation_counts == cur[x].generation_counts by {
                    if x != i {
                        assert(now[x] == cur[x]);
                    }
                }
                assert(spec_samples_sorted(now)) by {
                    assert forall|a: int, b: int| 0 <= a < b < now.len() implies (
                    #[trigger] now[a]).receive_timestamp.ticks() < (
                    #[trigger] now[b]).receive_timestamp.ticks() by {
                        assert(cur[a].receive_timestamp.ticks() < cur[b].receive_timestamp.ticks());
                    }
                }
                assert forall|x: int| 0 <= x < now.len() implies spec_has_instance(
                    self.instance_map@,
                    (#[trigger] now[x]).spec_key(),
                ) && now[x].generation_counts.within(0) by {
                    assert(spec_has_instance(self.instance_map@, cur[x].spec_key()));
                    assert(cur[x].generation_counts.within(0));
                }
                assert forall|x: int| 0 <= x < before.len() implies spec_same_but_read(
                    #[trigger] now[x],
                    before[x],
                ) && now[x].sample_has_been_read == (before[x].sample_has_been_read || exists|
                    y: int,
                |
                    0 <= y < n + 1 && (#[trigger] keys@[y]).0 == before[x].receive_timestamp) by {
                    assert(spec_same_but_read(cur[x], before[x]));
                    if x == i {
                        assert(keys@[n as int].0 == before[x].receive_timestamp);
                    } else {
                        assert(now[x] == cur[x]);
                        if keys@[n as int].0 == before[x].receive_timestamp {
                            assert(cur[x].receive_timestamp.ticks() == cur[i as int].receive_timestamp.ticks());
                            if x < i {
                                assert(cur[x].receive_timestamp.ticks() < cur[i as int].receive_timestamp.ticks());
                            } else {
                                assert(cur[i as int].receive_timestamp.ticks() < cur[x].receive_timestamp.ticks());
                            }
                        }
                    }
                }
            }
            n += 1;
        }
        proof {
            let now = self.datasamples@;
            assert forall|x: int| 0 <= x < keys@.len() implies self.contains_sample(
                (#[trigger] keys@[x]).0,
            ) && self.sample_at(keys@[x].0).spec_key() == keys@[x].1 by {
                let i0 = spec_sample_index(before, keys@[x].0);
                assert(before[i0].receive_timestamp == keys@[x].0);
                assert(now[i0].receive_timestamp == keys@[x].0);
                self.lemma_sample_index_unique(i0, keys@[x].0);
                assert(spec_same_but_read(now[i0], before[i0]));
            }
        }
    }

    /// Marks the samples that the batch names as read, records at their
    /// instances the generations read, and returns the samples in the order
    /// of the batch, each with its sample info as of before the access.
    pub fn read_by_keys(&mut self, keys: &[(Timestamp, D::K)]) -> (r: Vec<DataSample<&D, D::K>>)
        requires
            old(self).wf(),
            old(self).keys_valid(keys@),
        ensures
            final(self).wf(),
            final(self).is_after_read(*old(self), keys@),
            r.len() == keys.len(),
            forall|n: int|
                0 <= n < keys.len() ==> (#[trigger] r[n]).sample_info == old(self).spec_sample_info(
                    keys@,
                    n,
                ) && r[n].value == spec_as_ref(&old(self).sample_at(keys@[n].0).sample),
    {
        let infos = self.sample_infos(keys);
        let viewed = self.viewed_generations(keys);
        self.mark_samples_read(keys);
        let ghost marked = self.datasamples@;
        self.mark_instances_viewed(viewed);
        let mut r: Vec<DataSample<&D, D::K>> = Vec::new();
        let mut n: usize = 0;
        while n < keys.len()
            invariant
                n <= keys.len(),
                self.wf(),
                old(self).wf(),
                old(self).keys_valid(keys@),
                self.datasamples@ == marked,
                marked.len() == old(self).datasamples@.len(),
                forall|i: int|
                    0 <= i < marked.len() ==> spec_same_but_read(
                        #[trigger] marked[i],
                        old(self).datasamples@[i],
                    ),
                infos.len() == keys.len(),
                forall|x: int|
                    0 <= x < keys.len() ==> #[trigger] infos[x] == old(self).spec_sample_info(keys@, x),
                r.len() == n,
                forall|x: int|
                    0 <= x < n ==> (#[trigger] r[x]).sample_info == old(self).spec_sample_info(
                        keys@,
                        x,
                    ) && r[x].value == spec_as_ref(&old(self).sample_at(keys@[x].0).sample),
            decreases keys.len() - n,
        {
            let ts = keys[n].0;
            proof {
                let i0 = spec_sample_index(old(self).datasamples@, ts);
                assert(old(self).datasamples@[i0].receive_timestamp == ts);
                assert(marked[i0].receive_timestamp == ts);
                self.lemma_sample_index_unique(i0, ts);
            }
            let found = self.find_sample(ts);
            assert(found is Some);
            let i = found.unwrap();
            let value = result_ok_as_ref_err_clone(&self.datasamples[i].sample);
            r.push(DataSample::new(infos[n], value));
            n += 1;
        }
        r
    }

    /// As `read_by_keys`, without the sample infos.
    pub fn read_bare_by_keys(&mut self, keys: &[(Timestamp, D::K)]) -> (r: Vec<Result<&D, D::K>>)
        requires
            old(self).wf(),
            old(self).keys_valid(keys@),
        ensures
            final(self).wf(),
            final(self).is_after_read(*old(self), keys@),
            r.len() == keys.len(),
            forall|n: int|
                0 <= n < keys.len() ==> #[trigger] r[n] == spec_as_ref(
                    &old(self).sample_at(keys@[n].0).sample,
                ),
    {
        let viewed = self.viewed_generations(keys);
        self.mark_samples_read(keys);
        let ghost marked = self.datasamples@;
        self.mark_instances_viewed(viewed);
        let mut r: Vec<Result<&D, D::K>> = Vec::new();
        let mut n: usize = 0;
        while n < keys.len()
            invariant
                n <= keys.len(),
                self.wf(),
                old(self).wf(),
                old(self).keys_valid(keys@),
                self.datasamples@ == marked,
                marked.len() == old(self).datasamples@.len(),
                forall|i: int|
                    0 <= i < marked.len() ==> spec_same_but_read(
                        #[trigger] marked[i],
                        old(self).datasamples@[i],
                    ),
                r.len() == n,
                forall|x: int|
                    0 <= x < n ==> #[trigger] r[x] == spec_as_ref(
                        &old(self).sample_at(keys@[x].0).sample,
                    ),
            decreases keys.len() - n,
        {
            let ts = keys[n].0;
            proof {
                let i0 = spec_sample_index(old(self).datasamples@, ts);
                assert(old(self).datasamples@[i0].receive_timestamp == ts);
                assert(marked[i0].receive_timestamp == ts);
                self.lemma_sample_index_unique(i0, ts);
            }
            let found = self.find_sample(ts);
            assert(found is Some);
            let i = found.unwrap();
            r.push(result_ok_as_ref_err_clone(&self.datasamples[i].sample));
            n += 1;
        }
        r
    }

    /// Takes the samples that the batch names out of the cache and returns
    /// what they carried, in the order of the batch.
    fn remove_samples(&mut self, keys: &[(Timestamp, D::K)]) -> (values: Vec<Result<D, D::K>>)
        requires
            old(self).wf(),
            old(self).keys_valid(keys@),
        ensures
            final(self).wf(),
            final(self).qos() == old(self).qos(),
            final(self).instances() == old(self).instances(),
            final(self).samples().len() == old(self).samples().len() - keys.len(),
            forall|ts: Timestamp|
                #![trigger final(self).contains_sample(ts)]
                final(self).contains_sample(ts) <==> old(self).contains_sample(ts)
                    && !spec_keys_hold(keys@, ts),
            forall|ts: Timestamp|
                #![trigger final(self).sample_at(ts)]
                final(self).contains_sample(ts) ==> final(self).sample_at(ts) == old(
                    self,
                ).sample_at(ts),
            values.len() == keys.len(),
            forall|n: int|
                0 <= n < keys.len() ==> #[trigger] values[n] == old(self).sample_at(keys@[n].0).sample,
    {
        let ghost before = self.datasamples@;
        let ghost mut origin: Seq<int> = Seq::new(before.len(), |i: int| i);
        let mut values: Vec<Result<D, D::K>> = Vec::new();
        let mut n: usize = 0;
        proof {
            assert forall|i0: int| 0 <= i0 < before.len() implies #[trigger] spec_position_kept(
                origin,
                i0,
            ) by {
                assert(origin[i0] == i0);
            }
        }
        while n < keys.len()
            invariant
                n <= keys.len(),
                self.wf(),
                old(self).wf(),
                before == old(self).datasamples@,
                old(self).keys_valid(keys@),
                self.qos == old(self).qos,
                self.instance_map@ == old(self).instance_map@,
                origin.len() == self.datasamples@.len(),
                self.datasamples@.len() == before.len() - n,
                forall|i: int|
                    0 <= i < origin.len() ==> 0 <= (#[trigger] origin[i]) < before.len()
                        && self.datasamples@[i] == before[origin[i]],
                forall|i0: int|
                    0 <= i0 < before.len() ==> spec_named_among(
                        keys@,
                        n as int,
                        before[i0].receive_timestamp,
                    ) || #[trigger] spec_position_kept(origin, i0),
                forall|i: int, x: int|
                    0 <= i < origin.len() && 0 <= x < n ==> (#[trigger] keys@[x]).0 != (
                    #[trigger] self.datasamples@[i]).receive_timestamp,
                values.len() == n,
                forall|x: int|
                    0 <= x < n ==> #[trigger] values[x] == old(self).sample_at(keys@[x].0).sample,
            decreases keys.len() - n,
        {
            let ts = keys[n].0;
            let ghost cur = self.datasamples@;
            proof {
                let i0 = spec_sample_index(before, ts);
                assert(before[i0].receive_timestamp == ts);
                old(self).lemma_sample_index_unique(i0, ts);
                if spec_named_among(keys@, n as int, before[i0].receive_timestamp) {
                    let x = choose|x: int|
                        0 <= x < n && (#[trigger] keys@[x]).0 == before[i0].receive_timestamp;
                    assert(keys@[x].0.ticks() < keys@[n as int].0.ticks());
                }
                assert(spec_position_kept(origin, i0));
                let i = choose|i: int| 0 <= i < origin.len() && #[trigger] origin[i] == i0;
                assert(cur[i] == before[i0]);
                assert(cur[i].receive_timestamp == ts);
            }
            let found = self.find_sample(ts);
            assert(found is Some);
            let i = found.unwrap();
            proof {
                lemma_remove_sorted(cur, i as int);
                old(self).lemma_sample_index_unique(origin[i as int], ts);
            }
            let rec = self.datasamples.remove(i);
            values.push(rec.sample);
            proof {
                let new_origin = origin.remove(i as int);
                let now = self.datasamples@;
                assert forall|a: int| 0 <= a < new_origin.len() implies 0 <= (
                #[trigger] new_origin[a]) < before.len() && now[a] == before[new_origin[a]] by {
                    if a < i {
                        assert(new_origin[a] == origin[a]);
                        assert(now[a] == cur[a]);
                    } else {
                        assert(new_origin[a] == origin[a + 1]);
                        assert(now[a] == cur[a + 1]);
                    }
                }
                assert forall|a: int| 0 <= a < now.len() implies spec_has_instance(
                    self.instance_map@,
                    (#[trigger] now[a]).spec_key(),
                ) && now[a].generation_counts.within(0) by {
                    if a < i {
                        assert(now[a] == cur[a]);
                    } else {
                        assert(now[a] == cur[a + 1]);
                    }
                }
                assert forall|i0: int| 0 <= i0 < before.len() implies spec_named_among(
                    keys@,
                    n + 1,
                    before[i0].receive_timestamp,
                ) || #[trigger] spec_position_kept(new_origin, i0) by {
                    if spec_named_among(keys@, n as int, before[i0].receive_timestamp) {
                        let x = choose|x: int|
                            0 <= x < n && (#[trigger] keys@[x]).0 == before[i0].receive_timestamp;
                        assert(0 <= x < n + 1 && keys@[x].0 == before[i0].receive_timestamp);
                    } else {
                        assert(spec_position_kept(origin, i0));
                        let a = choose|a: int| 0 <= a < origin.len() && #[trigger] origin[a] == i0;
                        if a == i {
                            assert(keys@[n as int].0 == before[i0].receive_timestamp);
                        } else if a < i {
                            assert(new_origin[a] == i0);
                        } else {
                            assert(new_origin[a - 1] == i0);
                        }
                    }
                }
                assert forall|a: int, x: int|
                    0 <= a < new_origin.len() && 0 <= x < n + 1 implies (#[trigger] keys@[x]).0 != (
                #[trigger] now[a]).receive_timestamp by {
                    let a0 = if a < i {
                        a
                    } else {
                        a + 1
                    };
                    assert(now[a] == cur[a0]);
                    if x == n {
                        if a0 < i {
                            assert(cur[a0].receive_timestamp.ticks() < cur[i as int].receive_timestamp.ticks());
                        } else {
                            assert(cur[i as int].receive_timestamp.ticks() < cur[a0].receive_timestamp.ticks());
                        }
                    } else {
                        assert(keys@[x].0 != cur[a0].receive_timestamp);
                    }
                }
                origin = new_origin;
            }
            n += 1;
        }
        proof {
            let now = self.datasamples@;
            assert forall|ts: Timestamp|
                #![trigger self.contains_sample(ts)]
                self.contains_sample(ts) <==> old(self).contains_sample(ts) && !spec_keys_hold(
                    keys@,
                    ts,
                ) by {
                if self.contains_sample(ts) {
                    let i = spec_sample_index(now, ts);
                    assert(now[i].receive_timestamp == ts);
                    assert(before[origin[i]].receive_timestamp == ts);
                    if spec_keys_hold(keys@, ts) {
                        let x = choose|x: int| 0 <= x < keys@.len() && (#[trigger] keys@[x]).0 == ts;
                        assert(keys@[x].0 != now[i].receive_timestamp);
                    }
                }
                if old(self).contains_sample(ts) && !spec_keys_hold(keys@, ts) {
                    let i0 = spec_sample_index(before, ts);
                    assert(before[i0].receive_timestamp == ts);
                    assert(spec_position_kept(origin, i0));
                    let i = choose|i: int| 0 <= i < origin.len() && #[trigger] origin[i] == i0;
                    assert(now[i].receive_timestamp == ts);
                }
            }
            assert forall|ts: Timestamp|
                #![trigger self.sample_at(ts)]
                self.contains_sample(ts) implies self.sample_at(ts) == old(self).sample_at(ts) by {
                let i = spec_sample_index(now, ts);
                assert(now[i].receive_timestamp == ts);
                old(self).lemma_sample_index_unique(origin[i], ts);
            }
        }
        values
    }

    /// Takes the samples that the batch names out of the cache, records at
    /// their instances the generations taken, and returns the samples in
    /// the order of the batch, each with its sample info as of before the
    /// access. The instances stay recorded.
    pub fn take_by_keys(&mut self, keys: &[(Timestamp, D::K)]) -> (r: Vec<DataSample<D, D::K>>)
        requires
            old(self).wf(),
            old(self).keys_valid(keys@),
        ensures
            final(self).wf(),
            final(self).is_after_take(*old(self), keys@),
            r.len() == keys.len(),
            forall|n: int|
                0 <= n < keys.len() ==> (#[trigger] r[n]).sample_info == old(self).spec_sample_info(
                    keys@,
                    n,
                ) && r[n].value == old(self).sample_at(keys@[n].0).sample,
    {
        let infos = self.sample_infos(keys);
        let viewed = self.viewed_generations(keys);
        let values = self.remove_samples(keys);
        let ghost removed = *self;
        self.mark_instances_viewed(viewed);
        proof {
            assert forall|ts: Timestamp|
                #![trigger self.contains_sample(ts)]
                #![trigger self.sample_at(ts)]
                self.contains_sample(ts) == removed.contains_sample(ts) && self.sample_at(ts)
                    == removed.sample_at(ts) by {}
        }
        let mut r: Vec<DataSample<D, D::K>> = Vec::new();
        let mut n: usize = 0;
        for value in it: values
            invariant
                n == it.index(),
                it.seq() == values@,
                values.len() == keys.len(),
                infos.len() == keys.len(),
                r.len() == n,
                forall|x: int|
                    0 <= x < keys.len() ==> #[trigger] infos[x] == old(self).spec_sample_info(keys@, x),
                forall|x: int|
                    0 <= x < keys.len() ==> #[trigger] values[x] == old(self).sample_at(
                        keys@[x].0,
                    ).sample,
                forall|x: int|
                    0 <= x < n ==> (#[trigger] r[x]).sample_info == old(self).spec_sample_info(
                        keys@,
                        x,
                    ) && r[x].value == old(self).sample_at(keys@[x].0).sample,
        {
            r.push(DataSample::new(infos[n], value));
            n += 1;
        }
        r
    }

    /// As `take_by_keys`, without the sample infos.
    pub fn take_bare_by_keys(&mut self, keys: &[(Timestamp, D::K)]) -> (r: Vec<Result<D, D::K>>)
        requires
            old(self).wf(),
            old(self).keys_valid(keys@),
        ensures
            final(self).wf(),
            final(self).is_after_take(*old(self), keys@),
            r.len() == keys.len(),
            forall|n: int|
                0 <= n < keys.len() ==> #[trigger] r[n] == old(self).sample_at(keys@[n].0).sample,
    {
        let viewed = self.viewed_generations(keys);
        let values = self.remove_samples(keys);
        let ghost removed = *self;
        self.mark_instances_viewed(viewed);
        proof {
            assert forall|ts: Timestamp|
                #![trigger self.contains_sample(ts)]
                #![trigger self.sample_at(ts)]
                self.contains_sample(ts) == removed.contains_sample(ts) && self.sample_at(ts)
                    == removed.sample_at(ts) by {}
        }
        values
    }

    /// The timestamps of the samples of the instance `instance` that pass
    /// `rc`, in order of reception, each with the key. An instance that the
    /// cache does not know has no samples. The cache is not changed.
    pub fn select_instance_keys_for_access(&self, instance: D::K, rc: ReadCondition) -> (r: Vec<
        (Timestamp, D::K),
    >)
        requires
            self.wf(),
        ensures
            forall|a: int, b: int|
                0 <= a < b < r.len() ==> (#[trigger] r[a]).0.ticks() < (#[trigger] r[b]).0.ticks(),
            forall|a: int|
                0 <= a < r.len() ==> {
                    &&& (#[trigger] r[a]).1 == instance
                    &&& self.contains_sample(r[a].0)
                    &&& self.sample_at(r[a].0).spec_key() == instance
                    &&& self.sample_at(r[a].0).spec_passes(rc, self.instance(instance))
                },
            forall|i: int|
                0 <= i < self.samples().len() && self.samples()[i].spec_key() == instance
                    && self.passes_at(rc, i) ==> exists|a: int|
                    0 <= a < r.len() && #[trigger] r[a] == (
                        self.samples()[i].receive_timestamp,
                        instance,
                    ),
            !self.contains_instance(instance) ==> r.len() == 0,
    {
        let mut r: Vec<(Timestamp, D::K)> = Vec::new();
        let found = self.find_instance(&instance);
        let j = match found {
            None => {
                proof {
                    assert forall|i: int| 0 <= i < self.samples().len() implies (
                    #[trigger] self.samples()[i]).spec_key() != instance by {
                        assert(spec_has_instance(self.instances(), self.samples()[i].spec_key()));
                    }
                }
                return r;
            },
            Some(j) => j,
        };
        let ghost mut idxs: Seq<int> = Seq::empty();
        let mut i: usize = 0;
        while i < self.datasamples.len()
            invariant
                self.wf(),
                i <= self.datasamples.len(),
                j < self.instance_map.len(),
                self.instance_map@[j as int].key == instance,
                self.instance(instance) == self.instance_map@[j as int].meta,
                idxs.len() == r.len(),
                forall|a: int|
                    0 <= a < r.len() ==> {
                        &&& 0 <= (#[trigger] idxs[a]) < i
                        &&& r[a].0 == self.samples()[idxs[a]].receive_timestamp
                        &&& r[a].1 == instance
                        &&& self.samples()[idxs[a]].spec_key() == instance
                        &&& self.passes_at(rc, idxs[a])
                    },
                forall|a: int, b: int| 0 <= a < b < r.len() ==> idxs[a] < idxs[b],
                forall|k: int|
                    0 <= k < i && self.samples()[k].spec_key() == instance && self.passes_at(rc, k)
                        ==> exists|a: int|
                        0 <= a < r.len() && #[trigger] r[a] == (
                            self.samples()[k].receive_timestamp,
                            instance,
                        ),
            decreases self.datasamples.len() - i,
        {
            let key = self.datasamples[i].get_key();
            if key.key_eq(&instance) && Self::sample_selector(
                &rc,
                &self.instance_map[j].meta,
                &self.datasamples[i],
            ) {
                let ghost old_r = r@;
                r.push((self.datasamples[i].receive_timestamp, key));
                proof {
                    idxs = idxs.push(i as int);
                    assert forall|k: int|
                        0 <= k < i + 1 && self.samples()[k].spec_key() == instance
                            && self.passes_at(rc, k) implies exists|a: int|
                        0 <= a < r.len() && #[trigger] r[a] == (
                            self.samples()[k].receive_timestamp,
                            instance,
                        ) by {
                        if k < i {
                            let a = choose|a: int|
                                0 <= a < old_r.len() && #[trigger] old_r[a] == (
                                    self.samples()[k].receive_timestamp,
                                    instance,
                                );
                            assert(r[a] == old_r[a]);
                        } else {
                            assert(r[r.len() - 1] == (
                                self.samples()[k].receive_timestamp,
                                instance,
                            ));
                        }
                    }
                }
            }
            i += 1;
        }
        proof {
            assert forall|a: int| 0 <= a < r.len() implies {
                &&& (#[trigger] r[a]).1 == instance
                &&& self.contains_sample(r[a].0)
                &&& self.sample_at(r[a].0).spec_key() == instance
                &&& self.sample_at(r[a].0).spec_passes(rc, self.instance(instance))
            } by {
                self.lemma_sample_index_unique(idxs[a], r[a].0);
            }
            assert forall|a: int, b: int| 0 <= a < b < r.len() implies (#[trigger] r[a]).0.ticks()
                < (#[trigger] r[b]).0.ticks() by {
                assert(idxs[a] < idxs[b]);
                assert(self.samples()[idxs[a]].receive_timestamp.ticks()
                    < self.samples()[idxs[b]].receive_timestamp.ticks());
            }
        }
        r
    }

    /// The key of the most recently recorded instance whose hash is
    /// `key_hash`, if there is one.
    pub fn get_key_by_hash(&self, key_hash: KeyHash) -> (r: Option<D::K>)
        ensures
            r == spec_key_by_hash(self.instances(), key_hash, self.instances().len() as int),
            match r {
                Some(k) => exists|j: int|
                    0 <= j < self.instances().len() && (#[trigger] self.instances()[j]).key == k
                        && k.spec_hash_key() == key_hash && forall|x: int|
                        j < x < self.instances().len() ==> (
                        #[trigger] self.instances()[x]).key.spec_hash_key() != key_hash,
                None => forall|j: int|
                    0 <= j < self.instances().len() ==> (
                    #[trigger] self.instances()[j]).key.spec_hash_key() != key_hash,
            },
    {
        let mut j: usize = self.instance_map.len();
        while j > 0
            invariant
                j <= self.instance_map.len(),
                forall|x: int|
                    j <= x < self.instance_map.len() ==> (
                    #[trigger] self.instance_map@[x]).key.spec_hash_key() != key_hash,
                spec_key_by_hash(self.instance_map@, key_hash, self.instance_map@.len() as int)
                    == spec_key_by_hash(self.instance_map@, key_hash, j as int),
            decreases j,
        {
            j -= 1;
            let h = self.instance_map[j].key.into_hash_key();
            if h == key_hash {
                return Some(self.instance_map[j].key.clone_key());
            }
        }
        None
    }

    /// The least key of a recorded instance that comes after `key`, if
    /// there is one.
    pub fn get_next_key(&self, key: &D::K) -> (r: Option<D::K>)
        ensures
            match r {
                Some(next) => self.contains_instance(next) && key.spec_lt(&next) && forall|j: int|
                    0 <= j < self.instances().len() && key.spec_lt(
                        &(#[trigger] self.instances()[j]).key,
                    ) ==> !self.instances()[j].key.spec_lt(&next),
                None => forall|j: int|
                    0 <= j < self.instances().len() ==> !key.spec_lt(
                        &(#[trigger] self.instances()[j]).key,
                    ),
            },
    {
        let mut best: Option<usize> = None;
        let mut j: usize = 0;
        while j < self.instance_map.len()
            invariant
                j <= self.instance_map.len(),
                match best {
                    Some(b) => b < j && key.spec_lt(&self.instance_map@[b as int].key) && forall|
                        x: int,
                    |
                        0 <= x < j && key.spec_lt(&(#[trigger] self.instance_map@[x]).key)
                            ==> !self.instance_map@[x].key.spec_lt(
                            &self.instance_map@[b as int].key,
                        ),
                    None => forall|x: int|
                        0 <= x < j ==> !key.spec_lt(&(#[trigger] self.instance_map@[x]).key),
                },
            decreases self.instance_map.len() - j,
        {
            if key.key_lt(&self.instance_map[j].key) {
                match best {
                    None => {
                        proof {
                            D::K::lemma_strict_total_order(
                                self.instance_map@[j as int].key,
                                self.instance_map@[j as int].key,
                                self.instance_map@[j as int].key,
                            );
                        }
                        best = Some(j);
                    },
                    Some(b) => {
                        if self.instance_map[j].key.key_lt(&self.instance_map[b].key) {
                            proof {
                                let cand = self.instance_map@[j as int].key;
                                let prev = self.instance_map@[b as int].key;
                                D::K::lemma_strict_total_order(cand, cand, cand);
                                assert forall|x: int|
                                    0 <= x < j + 1 && key.spec_lt(
                                        &(#[trigger] self.instance_map@[x]).key,
                                    ) implies !self.instance_map@[x].key.spec_lt(&cand) by {
                                    if x < j {
                                        D::K::lemma_strict_total_order(
                                            self.instance_map@[x].key,
                                            cand,
                                            prev,
                                        );
                                    }
                                }
                            }
                            best = Some(j);
                        }
                    },
                }
            }
            j += 1;
        }
        match best {
            Some(b) => {
                proof {
                    assert(self.instances()[b as int].key == self.instance_map@[b as int].key);
                }
                Some(self.instance_map[b].key.clone_key())
            },
            None => None,
        }
    }
}

} // verus!
