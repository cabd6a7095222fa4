use crate::dds::datasample_cache::lemma_count_insert;
use crate::dds::datasample_cache::lemma_count_remove;
use crate::dds::datasample_cache::lemma_first_of_key_unique;
use crate::dds::datasample_cache::lemma_insert_position_unique;
use crate::dds::datasample_cache::spec_count_of_key;
use crate::dds::datasample_cache::spec_drop_first;
use crate::dds::datasample_cache::spec_drop_oldest;
use crate::dds::datasample_cache::spec_evict;
use crate::dds::datasample_cache::spec_excess;
use crate::dds::datasample_cache::spec_generation_after;
use crate::dds::datasample_cache::spec_has_sample;
use crate::dds::datasample_cache::spec_insert_sample;
use crate::dds::datasample_cache::spec_instance_index;
use crate::dds::datasample_cache::spec_instances_after;
use crate::dds::datasample_cache::spec_is_first_of_key;
use crate::dds::datasample_cache::spec_is_insert_position;
use crate::dds::datasample_cache::spec_keys_distinct;
use crate::dds::datasample_cache::spec_meta_viewed;
use crate::dds::datasample_cache::spec_samples_sorted;
use crate::dds::datasample_cache::DataSampleCache;
use crate::dds::datasample_cache::InstanceEntry;
use crate::dds::datasample_cache::InstanceMetaData;
use crate::dds::datasample_cache::SampleWithMetaData;
use crate::dds::sampleinfo::InstanceState;
use crate::dds::sampleinfo::NotAliveGenerationCounts;
use crate::dds::sampleinfo::ViewState;
use crate::dds::traits::key::Keyed;
use crate::structure::time::Timestamp;
use vstd::prelude::*;

verus! {

/// A sample of any state that arrives at an instance leaves neither of
/// its generation counts lower than it was.
pub proof fn law_generation_counts_never_decrease(
    prior: InstanceMetaData,
    new_state: InstanceState,
)
    ensures
        spec_generation_after(prior, new_state).disposed_generation_count
            >= prior.latest_generation_available.disposed_generation_count,
        spec_generation_after(prior, new_state).no_writers_generation_count
            >= prior.latest_generation_available.no_writers_generation_count,
{
}

/// Adding a sample keeps every recorded instance in its place, and leaves
/// neither generation count of any instance lower than it was.
pub proof fn law_instances_never_lose_generations<K>(
    e: Seq<InstanceEntry<K>>,
    key: K,
    new_state: InstanceState,
    j: int,
)
    requires
        spec_keys_distinct(e),
        0 <= j < e.len(),
    ensures
        spec_instances_after(e, key, new_state).len() >= e.len(),
        spec_instances_after(e, key, new_state)[j].key == e[j].key,
        spec_instances_after(
            e,
            key,
            new_state,
        )[j].meta.latest_generation_available.disposed_generation_count
            >= e[j].meta.latest_generation_available.disposed_generation_count,
        spec_instances_after(
            e,
            key,
            new_state,
        )[j].meta.latest_generation_available.no_writers_generation_count
            >= e[j].meta.latest_generation_available.no_writers_generation_count,
{
    let after = spec_instances_after(e, key, new_state);
    if e[j].key == key {
        let c = spec_instance_index(e, key);
        assert(e[c].key == key);
        assert(c == j);
    } else {
        if exists|x: int| 0 <= x < e.len() && (#[trigger] e[x]).key == key {
            let c = spec_instance_index(e, key);
            assert(e[c].key == key);
            assert(after[j] == e[j]);
        } else {
            assert(after[j] == e[j]);
        }
    }
}

/// A read or a take changes neither generation count of an instance.
pub proof fn law_access_keeps_generations(
    meta: InstanceMetaData,
    viewed: Option<NotAliveGenerationCounts>,
)
    ensures
        spec_meta_viewed(meta, viewed).latest_generation_available
            == meta.latest_generation_available,
        spec_meta_viewed(meta, viewed).instance_state == meta.instance_state,
{
}

/// Where an instance has no sample, none of the samples carries its key.
proof fn lemma_count_zero_none<D: Keyed>(s: Seq<SampleWithMetaData<D>>, key: D::K, i: int)
    requires
        spec_count_of_key(s, key) == 0,
        0 <= i < s.len(),
    ensures
        s[i].spec_key() != key,
    decreases s.len(),
{
    if i < s.len() - 1 {
        assert(s.drop_last()[i] == s[i]);
        lemma_count_zero_none(s.drop_last(), key, i);
    }
}

/// An instance with a sample has an oldest sample.
proof fn lemma_first_of_key_exists<D: Keyed>(s: Seq<SampleWithMetaData<D>>, key: D::K) -> (i: int)
    requires
        spec_count_of_key(s, key) > 0,
    ensures
        spec_is_first_of_key(s, key, i),
    decreases s.len(),
{
    if spec_count_of_key(s.drop_last(), key) > 0 {
        let i = lemma_first_of_key_exists(s.drop_last(), key);
        assert(s.drop_last()[i] == s[i]);
        assert forall|j: int| 0 <= j < i implies (#[trigger] s[j]).spec_key() != key by {
            assert(s.drop_last()[j] == s[j]);
        }
        i
    } else {
        let i = s.len() - 1;
        assert forall|j: int| 0 <= j < i implies (#[trigger] s[j]).spec_key() != key by {
            lemma_count_zero_none(s.drop_last(), key, j);
            assert(s.drop_last()[j] == s[j]);
        }
        i
    }
}

/// Dropping the `n` oldest samples of an instance that has at least `n`
/// takes `n` from its count and leaves the counts of all other instances.
pub proof fn lemma_drop_oldest_counts<D: Keyed>(
    s: Seq<SampleWithMetaData<D>>,
    key: D::K,
    n: nat,
    other: D::K,
)
    requires
        n <= spec_count_of_key(s, key),
    ensures
        spec_count_of_key(spec_drop_oldest(s, key, n), key) == spec_count_of_key(s, key) - n,
        other != key ==> spec_count_of_key(spec_drop_oldest(s, key, n), other)
            == spec_count_of_key(s, other),
    decreases n,
{
    if n > 0 {
        lemma_drop_oldest_counts(s, key, (n - 1) as nat, other);
        let prev = spec_drop_oldest(s, key, (n - 1) as nat);
        let i = lemma_first_of_key_exists(prev, key);
        lemma_first_of_key_unique(prev, key, i);
        lemma_count_remove(prev, i, key);
        lemma_count_remove(prev, i, other);
        assert(spec_drop_oldest(s, key, n) == spec_drop_first(prev, key));
    }
}

/// Among sorted samples a timestamp that none of them has finds its place.
proof fn lemma_insert_position_exists<D: Keyed>(s: Seq<SampleWithMetaData<D>>, ts: Timestamp) -> (p:
    int)
    requires
        spec_samples_sorted(s),
        !spec_has_sample(s, ts),
    ensures
        spec_is_insert_position(s, ts, p),
    decreases s.len(),
{
    if s.len() == 0 {
        0
    } else {
        let last = s.len() - 1;
        crate::structure::time::lemma_ticks_injective(s[last].receive_timestamp, ts);
        assert(s[last].receive_timestamp != ts);
        if s[last].receive_timestamp.ticks() < ts.ticks() {
            assert forall|i: int| 0 <= i < s.len() implies (
            #[trigger] s[i]).receive_timestamp.ticks() < ts.ticks() by {
                if i < last {
                    assert(s[i].receive_timestamp.ticks() < s[last].receive_timestamp.ticks());
                }
            }
            s.len() as int
        } else {
            let t = s.drop_last();
            assert forall|i: int, j: int| 0 <= i < j < t.len() implies (
            #[trigger] t[i]).receive_timestamp.ticks() < (
            #[trigger] t[j]).receive_timestamp.ticks() by {
                assert(t[i] == s[i]);
                assert(t[j] == s[j]);
            }
            assert(!spec_has_sample(t, ts)) by {
                if spec_has_sample(t, ts) {
                    let i = choose|i: int| 0 <= i < t.len() && (#[trigger] t[i]).receive_timestamp == ts;
                    assert(s[i].receive_timestamp == ts);
                }
            }
            let p = lemma_insert_position_exists(t, ts);
            assert forall|i: int| 0 <= i < p implies (#[trigger] s[i]).receive_timestamp.ticks()
                < ts.ticks() by {
                assert(t[i] == s[i]);
            }
            assert forall|i: int| p <= i < s.len() implies ts.ticks() < (
            #[trigger] s[i]).receive_timestamp.ticks() by {
                if i < last {
                    assert(t[i] == s[i]);
                }
            }
            p
        }
    }
}

/// The most that an instance holds after an add under the keep count
/// `keep`: the keep count, or nothing where the keep count is below zero.
pub open spec fn spec_keep_bound(keep: i32) -> int {
    if keep > 0 {
        keep as int
    } else {
        0
    }
}

/// After a sample has been added under a keep count, its instance holds at
/// most as many samples as the keep count allows, and every other instance
/// holds as many samples as before.
pub proof fn law_eviction_bound<D: Keyed>(
    s: Seq<SampleWithMetaData<D>>,
    rec: SampleWithMetaData<D>,
    keep: i32,
    other: D::K,
)
    requires
        spec_samples_sorted(s),
        !spec_has_sample(s, rec.receive_timestamp),
    ensures
        spec_count_of_key(
            spec_evict(spec_insert_sample(s, rec), rec.spec_key(), Some(keep)),
            rec.spec_key(),
        ) <= spec_keep_bound(keep),
        other != rec.spec_key() ==> spec_count_of_key(
            spec_evict(spec_insert_sample(s, rec), rec.spec_key(), Some(keep)),
            other,
        ) == spec_count_of_key(s, other),
{
    let p = lemma_insert_position_exists(s, rec.receive_timestamp);
    lemma_insert_position_unique(s, rec.receive_timestamp, p);
    let inserted = spec_insert_sample(s, rec);
    assert(inserted == s.insert(p, rec));
    lemma_count_insert(s, p, rec, rec.spec_key());
    lemma_count_insert(s, p, rec, other);
    let count = spec_count_of_key(inserted, rec.spec_key());
    lemma_drop_oldest_counts(inserted, rec.spec_key(), spec_excess(count, Some(keep)), other);
}

/// Where every instance held at most what the keep count allows before an
/// add, every instance does so after it.
pub proof fn law_eviction_bound_all_instances<D: Keyed>(
    s: Seq<SampleWithMetaData<D>>,
    rec: SampleWithMetaData<D>,
    keep: i32,
)
    requires
        spec_samples_sorted(s),
        !spec_has_sample(s, rec.receive_timestamp),
        forall|key: D::K| #[trigger] spec_count_of_key(s, key) <= spec_keep_bound(keep),
    ensures
        forall|key: D::K| #[trigger]
            spec_count_of_key(
                spec_evict(spec_insert_sample(s, rec), rec.spec_key(), Some(keep)),
                key,
            ) <= spec_keep_bound(keep),
{
    assert forall|key: D::K| #[trigger]
        spec_count_of_key(
            spec_evict(spec_insert_sample(s, rec), rec.spec_key(), Some(keep)),
            key,
        ) <= spec_keep_bound(keep) by {
        law_eviction_bound(s, rec, keep, key);
        assert(spec_count_of_key(s, key) <= spec_keep_bound(keep));
    }
}

/// What an access views of an instance has at least the generation total
/// of every sample of the instance that the access delivers.
pub proof fn lemma_viewed_covers<D: Keyed>(
    cache: DataSampleCache<D>,
    keys: Seq<(Timestamp, D::K)>,
    key: D::K,
    m: int,
    n: int,
)
    requires
        0 <= n < m <= keys.len(),
        keys[n].1 == key,
    ensures
        cache.spec_viewed(keys, key, m) is Some,
        cache.spec_viewed(keys, key, m)->0.spec_total() >= cache.sample_at(
            keys[n].0,
        ).generation_counts.spec_total(),
    decreases m,
{
    if n < m - 1 {
        lemma_viewed_covers(cache, keys, key, m - 1, n);
    }
}

/// Immediately after a read that delivered a sample of an instance with
/// generation total `g`, every sample of that instance with a generation
/// total of at most `g` has the view state `NotNew`.
pub proof fn law_view_state_after_read<D: Keyed>(
    before: DataSampleCache<D>,
    after: DataSampleCache<D>,
    keys: Seq<(Timestamp, D::K)>,
    n: int,
    sample: SampleWithMetaData<D>,
)
    requires
        before.wf(),
        after.wf(),
        before.keys_valid(keys),
        after.is_after_read(before, keys),
        0 <= n < keys.len(),
        sample.generation_counts.spec_total() <= before.sample_at(
            keys[n].0,
        ).generation_counts.spec_total(),
    ensures
        after.contains_instance(keys[n].1),
        sample.spec_view_state(after.instance(keys[n].1)) == ViewState::NotNew,
{
    lemma_view_state_after_access(before, after, keys, n, sample);
}

/// Immediately after a take that delivered a sample of an instance with
/// generation total `g`, every sample of that instance with a generation
/// total of at most `g` has the view state `NotNew`.
pub proof fn law_view_state_after_take<D: Keyed>(
    before: DataSampleCache<D>,
    after: DataSampleCache<D>,
    keys: Seq<(Timestamp, D::K)>,
    n: int,
    sample: SampleWithMetaData<D>,
)
    requires
        before.wf(),
        after.wf(),
        before.keys_valid(keys),
        after.is_after_take(before, keys),
        0 <= n < keys.len(),
        sample.generation_counts.spec_total() <= before.sample_at(
            keys[n].0,
        ).generation_counts.spec_total(),
    ensures
        after.contains_instance(keys[n].1),
        sample.spec_view_state(after.instance(keys[n].1)) == ViewState::NotNew,
{
    lemma_view_state_after_access(before, after, keys, n, sample);
}

/// What the two laws on the view state share.
proof fn lemma_view_state_after_access<D: Keyed>(
    before: DataSampleCache<D>,
    after: DataSampleCache<D>,
    keys: Seq<(Timestamp, D::K)>,
    n: int,
    sample: SampleWithMetaData<D>,
)
    requires
        before.wf(),
        after.wf(),
        before.keys_valid(keys),
        after.instances_after_access(before, keys),
        0 <= n < keys.len(),
        sample.generation_counts.spec_total() <= before.sample_at(
            keys[n].0,
        ).generation_counts.spec_total(),
    ensures
        after.contains_instance(keys[n].1),
        sample.spec_view_state(after.instance(keys[n].1)) == ViewState::NotNew,
{
    let key = keys[n].1;
    let i = crate::dds::datasample_cache::spec_sample_index(before.samples(), keys[n].0);
    assert(before.samples()[i].receive_timestamp == keys[n].0);
    assert(before.samples()[i].spec_key() == key);
    assert(before.contains_instance(key));
    let j = spec_instance_index(before.instances(), key);
    assert(before.instances()[j].key == key);
    assert(after.instances()[j].key == key);
    after.lemma_instance_index_unique(j, key);
    lemma_viewed_covers(before, keys, key, keys.len() as int, n);
}

} // verus!
