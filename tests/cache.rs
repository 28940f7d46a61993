use shuul::cache::{Persist, WriteBehindCache};
use shuul::descriptor::NewRequest;

fn numbered(n: i64) -> NewRequest {
    NewRequest {
        ip_address: None,
        protocol: None,
        fqdn: None,
        path: None,
        query: None,
        city_name: None,
        country_name: None,
        country_code: None,
        rule_id: None,
        created_at: n,
    }
}

#[test]
fn threshold_ten_flushes_on_tenth_record() {
    let mut cache = WriteBehindCache::new(true, 10);
    for i in 0..9 {
        assert!(matches!(cache.record(numbered(i)), Persist::Buffered));
    }
    assert_eq!(cache.len(), 9);
    match cache.record(numbered(9)) {
        Persist::WriteBulk(batch) => {
            assert_eq!(batch.len(), 10);
            for (i, r) in batch.iter().enumerate() {
                assert_eq!(r.created_at, i as i64);
            }
        }
        other => panic!("expected a bulk write, got {:?}", other),
    }
    assert_eq!(cache.len(), 0);
}

#[test]
fn pushes_split_into_full_batches_and_remainder() {
    let mut cache = WriteBehindCache::new(true, 4);
    let mut batches: Vec<Vec<NewRequest>> = Vec::new();
    for i in 0..11 {
        if let Persist::WriteBulk(b) = cache.record(numbered(i)) {
            batches.push(b);
        }
    }
    assert_eq!(batches.len(), 11 / 4);
    assert!(batches.iter().all(|b| b.len() == 4));
    assert_eq!(cache.len(), 11 % 4);
    let seen: Vec<i64> = batches.iter().flatten().map(|r| r.created_at).collect();
    assert_eq!(seen, (0..8).collect::<Vec<i64>>());
}

#[test]
fn disabled_cache_writes_each_record() {
    let mut cache = WriteBehindCache::new(false, 10);
    assert!(!cache.enabled());
    match cache.record(numbered(5)) {
        Persist::WriteOne(r) => assert_eq!(r.created_at, 5),
        other => panic!("expected a single write, got {:?}", other),
    }
    assert_eq!(cache.len(), 0);
}

#[test]
fn threshold_zero_or_one_flushes_every_record() {
    for threshold in [0usize, 1] {
        let mut cache = WriteBehindCache::new(true, threshold);
        assert_eq!(cache.threshold(), threshold);
        match cache.record(numbered(1)) {
            Persist::WriteBulk(b) => assert_eq!(b.len(), 1),
            other => panic!("expected a bulk write, got {:?}", other),
        }
        assert_eq!(cache.len(), 0);
    }
}
