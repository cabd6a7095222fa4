use rustdds::dds::datasample_cache::DataSampleCache;
use rustdds::dds::qos::policy::History;
use rustdds::dds::qos::policy::ResourceLimits;
use rustdds::dds::qos::QosPolicies;
use rustdds::dds::qos::QosPolicyBuilder;
use rustdds::dds::readcondition::ReadCondition;
use rustdds::dds::sampleinfo::InstanceState;
use rustdds::dds::sampleinfo::InstanceStateMask;
use rustdds::dds::sampleinfo::NotAliveGenerationCounts;
use rustdds::dds::sampleinfo::SampleState;
use rustdds::dds::sampleinfo::SampleStateMask;
use rustdds::dds::sampleinfo::ViewState;
use rustdds::dds::sampleinfo::ViewStateMask;
use rustdds::dds::traits::key::Key;
use rustdds::dds::traits::key::KeyHash;
use rustdds::dds::traits::key::Keyed;
use rustdds::structure::guid::GUID;
use rustdds::structure::time::Timestamp;

#[derive(Debug, Clone, PartialEq)]
struct RandomData {
    a: i32,
    b: String,
}

impl Keyed for RandomData {
    type K = i32;

    fn spec_key(&self) -> i32 {
        self.a
    }

    fn get_key(&self) -> i32 {
        self.a
    }
}

fn ts(seconds: u32) -> Timestamp {
    Timestamp { seconds, fraction: 0 }
}

fn data(a: i32, b: &str) -> RandomData {
    RandomData { a, b: b.to_string() }
}

#[test]
fn dsc_empty_qos() {
    let qos = QosPolicies::qos_none();
    let mut datasample_cache = DataSampleCache::<RandomData>::new(qos);

    let timestamp = ts(7);
    let sample = data(4, "Fobar");
    let key = sample.get_key();
    datasample_cache.add_sample(Ok(sample.clone()), GUID::unknown(), timestamp, None);

    let keys = [(timestamp, key)];
    assert!(datasample_cache.check_keys(&keys));
    let samples = datasample_cache.read_by_keys(&keys);
    assert_eq!(samples.len(), 1);
    match samples[0].value() {
        Ok(read) => assert_eq!(**read, sample),
        Err(_) => panic!("a value was written"),
    }
}

#[test]
fn keep_last_two_keeps_the_last_two_samples() {
    let qos = QosPolicyBuilder::new().history(History::KeepLast { depth: 2 }).build();
    let mut cache = DataSampleCache::<RandomData>::new(qos);
    cache.add_sample(Ok(data(1, "one")), GUID::unknown(), ts(1), None);
    cache.add_sample(Ok(data(1, "two")), GUID::unknown(), ts(2), None);
    cache.add_sample(Ok(data(1, "three")), GUID::unknown(), ts(3), None);
    assert_eq!(cache.len(), 2);
    let keys = cache.select_keys_for_access(ReadCondition::any());
    assert_eq!(keys, vec![(ts(2), 1), (ts(3), 1)]);
    let values = cache.read_bare_by_keys(&keys);
    assert_eq!(values.len(), 2);
    assert_eq!(values[0].as_ref().ok().map(|d| d.b.as_str()), Some("two"));
    assert_eq!(values[1].as_ref().ok().map(|d| d.b.as_str()), Some("three"));
}

#[test]
fn keep_last_bounds_each_instance_on_its_own() {
    let qos = QosPolicyBuilder::new().history(History::KeepLast { depth: 1 }).build();
    let mut cache = DataSampleCache::<RandomData>::new(qos);
    cache.add_sample(Ok(data(1, "a")), GUID::unknown(), ts(1), None);
    cache.add_sample(Ok(data(2, "b")), GUID::unknown(), ts(2), None);
    cache.add_sample(Ok(data(1, "c")), GUID::unknown(), ts(3), None);
    assert_eq!(cache.count_samples_of(&1), 1);
    assert_eq!(cache.count_samples_of(&2), 1);
    assert_eq!(cache.select_keys_for_access(ReadCondition::any()), vec![(ts(2), 2), (ts(3), 1)]);
}

#[test]
fn keep_count_comes_from_history_then_resource_limits_then_one() {
    let limits = ResourceLimits { max_samples: 100, max_instances: 10, max_samples_per_instance: 3 };
    assert_eq!(QosPolicies::qos_none().keep_count(), Some(1));
    assert_eq!(QosPolicyBuilder::new().resource_limits(limits).build().keep_count(), Some(3));
    assert_eq!(
        QosPolicyBuilder::new().history(History::KeepLast { depth: 5 }).resource_limits(limits).build().keep_count(),
        Some(5)
    );
    assert_eq!(
        QosPolicyBuilder::new().history(History::KeepAll).resource_limits(limits).build().keep_count(),
        Some(3)
    );
    assert_eq!(QosPolicyBuilder::new().history(History::KeepAll).build().keep_count(), None);
}

#[test]
fn keep_all_keeps_all() {
    let qos = QosPolicyBuilder::new().history(History::KeepAll).build();
    let mut cache = DataSampleCache::<RandomData>::new(qos);
    for i in 1..=20u32 {
        cache.add_sample(Ok(data(1, "x")), GUID::unknown(), ts(i), None);
    }
    assert_eq!(cache.len(), 20);
}

#[test]
fn depth_below_one_keeps_nothing() {
    let qos = QosPolicyBuilder::new().history(History::KeepLast { depth: -1 }).build();
    let mut cache = DataSampleCache::<RandomData>::new(qos);
    cache.add_sample(Ok(data(1, "x")), GUID::unknown(), ts(1), None);
    assert_eq!(cache.len(), 0);
}

#[test]
fn samples_are_ordered_by_reception_whatever_the_order_of_adding() {
    let qos = QosPolicyBuilder::new().history(History::KeepAll).build();
    let mut cache = DataSampleCache::<RandomData>::new(qos);
    cache.add_sample(Ok(data(1, "late")), GUID::unknown(), ts(30), None);
    cache.add_sample(Ok(data(2, "early")), GUID::unknown(), ts(10), None);
    cache.add_sample(Ok(data(3, "middle")), GUID::unknown(), ts(20), None);
    assert_eq!(
        cache.select_keys_for_access(ReadCondition::any()),
        vec![(ts(10), 2), (ts(20), 3), (ts(30), 1)]
    );
    assert_eq!(cache.find_sample(ts(20)), Some(1));
    assert_eq!(cache.find_sample(ts(25)), None);
}

#[test]
fn read_not_new_selects_nothing_before_the_first_read_and_the_sample_after() {
    let mut cache = DataSampleCache::<RandomData>::new(QosPolicies::qos_none());
    cache.add_sample(Ok(data(1, "x")), GUID::unknown(), ts(1), None);
    let rc = ReadCondition::new(
        SampleStateMask::only(SampleState::Read),
        ViewStateMask::only(ViewState::NotNew),
        InstanceStateMask::any(),
    );
    assert!(cache.select_keys_for_access(rc).is_empty());
    let all = cache.select_keys_for_access(ReadCondition::any());
    let read = cache.read_by_keys(&all);
    assert_eq!(read.len(), 1);
    assert_eq!(read[0].sample_info().sample_state, SampleState::NotRead);
    assert_eq!(read[0].sample_info().view_state, ViewState::New);
    assert_eq!(cache.select_keys_for_access(rc), vec![(ts(1), 1)]);
    let again = cache.read_by_keys(&all);
    assert_eq!(again[0].sample_info().sample_state, SampleState::Read);
    assert_eq!(again[0].sample_info().view_state, ViewState::NotNew);
}

#[test]
fn dispose_is_read_as_a_key_in_state_disposed() {
    let qos = QosPolicyBuilder::new().history(History::KeepLast { depth: 1 }).build();
    let mut cache = DataSampleCache::<RandomData>::new(qos);
    cache.add_sample(Ok(data(4, "alive")), GUID::unknown(), ts(1), None);
    cache.add_sample(Err(4), GUID::unknown(), ts(2), Some(ts(9)));
    let keys = cache.select_keys_for_access(ReadCondition::any());
    assert_eq!(keys, vec![(ts(2), 4)]);
    let read = cache.read_by_keys(&keys);
    assert_eq!(read.len(), 1);
    assert_eq!(read[0].sample_info().instance_state, InstanceState::NotAliveDisposed);
    assert_eq!(read[0].sample_info().source_timestamp, Some(ts(9)));
    assert!(matches!(read[0].value(), Err(4)));
}

#[test]
fn rebirth_after_dispose_counts_a_disposed_generation() {
    let qos = QosPolicyBuilder::new().history(History::KeepAll).build();
    let mut cache = DataSampleCache::<RandomData>::new(qos);
    cache.add_sample(Ok(data(1, "first life")), GUID::unknown(), ts(1), None);
    cache.add_sample(Err(1), GUID::unknown(), ts(2), None);
    cache.add_sample(Err(1), GUID::unknown(), ts(3), None);
    cache.add_sample(Ok(data(1, "second life")), GUID::unknown(), ts(4), None);
    cache.add_sample(Ok(data(1, "still second")), GUID::unknown(), ts(5), None);
    let keys = cache.select_keys_for_access(ReadCondition::any());
    let infos = cache.sample_infos(&keys);
    let counts: Vec<i32> = infos.iter().map(|i| i.generation_counts.disposed_generation_count).collect();
    assert_eq!(counts, vec![0, 0, 0, 1, 1]);
    let ranks: Vec<i32> = infos.iter().map(|i| i.sample_rank).collect();
    assert_eq!(ranks, vec![4, 3, 2, 1, 0]);
    let generation_ranks: Vec<i32> = infos.iter().map(|i| i.generation_rank).collect();
    assert_eq!(generation_ranks, vec![1, 1, 1, 0, 0]);
    let absolute: Vec<i32> = infos.iter().map(|i| i.absolute_generation_rank).collect();
    assert_eq!(absolute, vec![1, 1, 1, 0, 0]);
    assert!(infos.iter().all(|i| i.instance_state == InstanceState::Alive));
}

#[test]
fn ranks_count_within_the_instance_and_within_the_batch() {
    let qos = QosPolicyBuilder::new().history(History::KeepAll).build();
    let mut cache = DataSampleCache::<RandomData>::new(qos);
    cache.add_sample(Ok(data(1, "a")), GUID::unknown(), ts(1), None);
    cache.add_sample(Ok(data(2, "b")), GUID::unknown(), ts(2), None);
    cache.add_sample(Ok(data(1, "c")), GUID::unknown(), ts(3), None);
    cache.add_sample(Ok(data(2, "d")), GUID::unknown(), ts(4), None);
    cache.add_sample(Ok(data(1, "e")), GUID::unknown(), ts(5), None);
    let batch = [(ts(1), 1), (ts(2), 2), (ts(3), 1)];
    assert!(cache.check_keys(&batch));
    let infos = cache.sample_infos(&batch);
    let ranks: Vec<i32> = infos.iter().map(|i| i.sample_rank).collect();
    assert_eq!(ranks, vec![1, 0, 0]);
}

#[test]
fn a_read_of_an_older_generation_is_not_new_after_a_read_of_a_newer_one() {
    let qos = QosPolicyBuilder::new().history(History::KeepAll).build();
    let mut cache = DataSampleCache::<RandomData>::new(qos);
    cache.add_sample(Ok(data(1, "first life")), GUID::unknown(), ts(1), None);
    cache.add_sample(Err(1), GUID::unknown(), ts(2), None);
    cache.add_sample(Ok(data(1, "second life")), GUID::unknown(), ts(3), None);
    let newest = [(ts(3), 1)];
    let read = cache.read_by_keys(&newest);
    assert_eq!(read[0].sample_info().view_state, ViewState::New);
    let older = [(ts(1), 1)];
    let read = cache.read_by_keys(&older);
    assert_eq!(read[0].sample_info().view_state, ViewState::NotNew);
    assert_eq!(read[0].sample_info().sample_state, SampleState::NotRead);
}

#[test]
fn take_removes_the_samples_and_keeps_the_instance() {
    let qos = QosPolicyBuilder::new().history(History::KeepAll).build();
    let mut cache = DataSampleCache::<RandomData>::new(qos);
    cache.add_sample(Ok(data(1, "a")), GUID::unknown(), ts(1), None);
    cache.add_sample(Ok(data(2, "b")), GUID::unknown(), ts(2), None);
    cache.add_sample(Ok(data(1, "c")), GUID::unknown(), ts(3), None);
    let batch = [(ts(1), 1), (ts(3), 1)];
    let taken = cache.take_by_keys(&batch);
    assert_eq!(taken.len(), 2);
    assert_eq!(taken[0].value().as_ref().ok().map(|d| d.b.as_str()), Some("a"));
    assert_eq!(taken[1].value().as_ref().ok().map(|d| d.b.as_str()), Some("c"));
    assert_eq!(taken[0].sample_info().sample_rank, 1);
    assert_eq!(cache.len(), 1);
    assert_eq!(cache.select_keys_for_access(ReadCondition::any()), vec![(ts(2), 2)]);
    assert_eq!(cache.find_instance(&1), Some(0));
    assert_eq!(cache.count_samples_of(&1), 0);
    assert!(!cache.check_keys(&batch));
    let bare = cache.take_bare_by_keys(&[(ts(2), 2)]);
    assert_eq!(bare.len(), 1);
    assert_eq!(cache.len(), 0);
}

#[test]
fn check_keys_refuses_what_read_and_take_do_not_accept() {
    let qos = QosPolicyBuilder::new().history(History::KeepAll).build();
    let mut cache = DataSampleCache::<RandomData>::new(qos);
    cache.add_sample(Ok(data(1, "a")), GUID::unknown(), ts(1), None);
    cache.add_sample(Ok(data(2, "b")), GUID::unknown(), ts(2), None);
    assert!(cache.check_keys(&[]));
    assert!(cache.check_keys(&[(ts(1), 1), (ts(2), 2)]));
    assert!(!cache.check_keys(&[(ts(2), 2), (ts(1), 1)]));
    assert!(!cache.check_keys(&[(ts(1), 1), (ts(1), 1)]));
    assert!(!cache.check_keys(&[(ts(1), 2)]));
    assert!(!cache.check_keys(&[(ts(3), 1)]));
}

#[test]
fn select_by_instance_and_by_state() {
    let qos = QosPolicyBuilder::new().history(History::KeepAll).build();
    let mut cache = DataSampleCache::<RandomData>::new(qos);
    cache.add_sample(Ok(data(1, "a")), GUID::unknown(), ts(1), None);
    cache.add_sample(Ok(data(2, "b")), GUID::unknown(), ts(2), None);
    cache.add_sample(Err(2), GUID::unknown(), ts(3), None);
    assert_eq!(
        cache.select_instance_keys_for_access(2, ReadCondition::any()),
        vec![(ts(2), 2), (ts(3), 2)]
    );
    assert!(cache.select_instance_keys_for_access(9, ReadCondition::any()).is_empty());
    let not_alive = ReadCondition::new(SampleStateMask::any(), ViewStateMask::any(), InstanceStateMask::not_alive());
    assert_eq!(cache.select_keys_for_access(not_alive), vec![(ts(2), 2), (ts(3), 2)]);
    let nothing = ReadCondition::new(
        SampleStateMask { read: false, not_read: false },
        ViewStateMask::any(),
        InstanceStateMask::any(),
    );
    assert!(cache.select_keys_for_access(nothing).is_empty());
    let first = [(ts(1), 1)];
    cache.read_bare_by_keys(&first);
    assert_eq!(cache.select_keys_for_access(ReadCondition::not_read()), vec![(ts(2), 2), (ts(3), 2)]);
}

#[test]
fn keys_are_found_by_hash_and_in_order() {
    let qos = QosPolicyBuilder::new().history(History::KeepAll).build();
    let mut cache = DataSampleCache::<RandomData>::new(qos);
    cache.add_sample(Ok(data(5, "a")), GUID::unknown(), ts(1), None);
    cache.add_sample(Ok(data(-2, "b")), GUID::unknown(), ts(2), None);
    cache.add_sample(Ok(data(9, "c")), GUID::unknown(), ts(3), None);
    assert_eq!(cache.get_key_by_hash(5i32.into_hash_key()), Some(5));
    assert_eq!(cache.get_key_by_hash((-2i32).into_hash_key()), Some(-2));
    assert_eq!(cache.get_key_by_hash(6i32.into_hash_key()), None);
    assert_eq!(cache.get_next_key(&-100), Some(-2));
    assert_eq!(cache.get_next_key(&-2), Some(5));
    assert_eq!(cache.get_next_key(&5), Some(9));
    assert_eq!(cache.get_next_key(&9), None);
}

#[test]
fn key_hashes_are_the_big_endian_bytes_of_the_key() {
    assert_eq!(1u32.into_hash_key(), KeyHash { value: 1u128 << 96 });
    assert_eq!((-1i32).into_hash_key(), KeyHash { value: 0xffff_ffffu128 << 96 });
    assert_eq!(0x0102u16.into_hash_key(), KeyHash { value: 0x0102u128 << 112 });
    assert_eq!(7u8.into_hash_key(), KeyHash { value: 7u128 << 120 });
    assert_eq!(3u64.into_hash_key(), KeyHash { value: 3u128 << 64 });
    assert_eq!((-1i64).into_hash_key(), KeyHash { value: 0xffff_ffff_ffff_ffffu128 << 64 });
    assert_eq!(().into_hash_key(), KeyHash { value: 0 });
}

#[test]
fn set_qos_policy_takes_effect_at_the_next_add() {
    let qos = QosPolicyBuilder::new().history(History::KeepAll).build();
    let mut cache = DataSampleCache::<RandomData>::new(qos);
    for i in 1..=5u32 {
        cache.add_sample(Ok(data(1, "x")), GUID::unknown(), ts(i), None);
    }
    cache.set_qos_policy(QosPolicyBuilder::new().history(History::KeepLast { depth: 2 }).build());
    assert_eq!(cache.len(), 5);
    cache.add_sample(Ok(data(1, "x")), GUID::unknown(), ts(6), None);
    assert_eq!(cache.select_keys_for_access(ReadCondition::any()), vec![(ts(5), 1), (ts(6), 1)]);
}

#[test]
fn generation_counts_total() {
    assert_eq!(NotAliveGenerationCounts::zero().total(), 0);
    assert_eq!(NotAliveGenerationCounts::sub_zero().total(), -2);
    let counts = NotAliveGenerationCounts { disposed_generation_count: 3, no_writers_generation_count: 4 };
    assert_eq!(counts.total(), 7);
}
