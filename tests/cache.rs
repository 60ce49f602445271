use data_service::cache::{Fingerprint, MemoCache, Step};
use data_service::records::DataRecord;

#[test]
fn query_fingerprint_holds_its_bytes() {
    let a = Fingerprint::of_query("ab");
    let b = Fingerprint::from_words(vec![97, 98]);
    assert!(a.same(&b));
    assert!(!a.same(&Fingerprint::of_query("ba")));
    assert!(!a.same(&Fingerprint::of_query("abc")));
}

#[test]
fn duplicate_fingerprint_is_equal() {
    let a = Fingerprint::from_words(vec![1, 2, 3]);
    assert!(a.duplicate().same(&a));
}

#[test]
fn float_keys_are_exact() {
    let a = Fingerprint::from_words(vec![1.0f64.to_bits(), 2.0f64.to_bits()]);
    let b = Fingerprint::from_words(vec![2.0f64.to_bits(), 1.0f64.to_bits()]);
    let c = Fingerprint::from_words(vec![(0.1f64 + 0.2f64).to_bits(), 2.0f64.to_bits()]);
    let d = Fingerprint::from_words(vec![0.3f64.to_bits(), 2.0f64.to_bits()]);
    assert!(!a.same(&b));
    assert!(!c.same(&d));
}

#[test]
fn second_caller_waits_then_reads_the_one_value() {
    let mut cache: MemoCache<u64> = MemoCache::new();
    let k = Fingerprint::of_query("SELECT 1");
    assert!(cache.begin(&k) == Step::Compute);
    assert!(cache.begin(&k) == Step::Wait);
    assert!(cache.get(&k).is_none());
    cache.complete(&k, 42);
    assert!(cache.begin(&k) == Step::Ready);
    assert!(cache.is_ready(&k));
    assert_eq!(*cache.get(&k).unwrap(), 42);
    assert_eq!(*cache.get(&k).unwrap(), 42);
}

#[test]
fn different_keys_do_not_block_each_other() {
    let mut cache: MemoCache<u64> = MemoCache::new();
    let k1 = Fingerprint::of_query("q1");
    let k2 = Fingerprint::of_query("q2");
    assert!(cache.begin(&k1) == Step::Compute);
    assert!(cache.begin(&k2) == Step::Compute);
    cache.complete(&k2, 2);
    assert!(cache.begin(&k1) == Step::Wait);
    assert_eq!(*cache.get(&k2).unwrap(), 2);
}

#[test]
fn abandoned_key_is_computed_again() {
    let mut cache: MemoCache<u64> = MemoCache::new();
    let k = Fingerprint::of_query("q");
    assert!(cache.begin(&k) == Step::Compute);
    cache.abandon(&k);
    assert!(cache.begin(&k) == Step::Compute);
    cache.complete(&k, 5);
    cache.abandon(&k);
    assert_eq!(*cache.get(&k).unwrap(), 5);
}

#[test]
fn get_or_compute_computes_once() {
    let mut cache: MemoCache<Vec<DataRecord>> = MemoCache::new();
    let k = Fingerprint::of_query("SELECT * FROM t");
    let mut calls: u32 = 0;
    let first = cache.get_or_compute(&k, || {
        calls += 1;
        vec![DataRecord {}, DataRecord {}]
    });
    assert!(first == Step::Compute);
    let second = cache.get_or_compute(&k, || {
        calls += 1;
        vec![DataRecord {}]
    });
    assert!(second == Step::Ready);
    assert_eq!(calls, 1);
    assert_eq!(cache.get(&k).unwrap().len(), 2);
}

#[test]
fn caches_keep_separate_key_spaces() {
    let mut queries: MemoCache<Vec<DataRecord>> = MemoCache::new();
    let mut means: MemoCache<u64> = MemoCache::new();
    let k = Fingerprint::from_words(vec![1]);
    queries.complete(&k, vec![DataRecord {}]);
    assert!(means.get(&k).is_none());
    means.complete(&k, 3.5f64.to_bits());
    assert_eq!(f64::from_bits(*means.get(&k).unwrap()), 3.5);
    assert_eq!(queries.get(&k).unwrap().len(), 1);
}
