use qrcode_detector::config::PoolConfig;
use qrcode_detector::pool::{Acquired, DetectorPool, Lease, Released};

fn lease(a: Acquired) -> Lease {
    match a {
        Acquired::Reused(l) | Acquired::Built(l) => l,
        Acquired::Exhausted => panic!("ids ran out"),
    }
}

#[test]
fn warm_pool_lends_idle_detectors_first() {
    let mut pool = DetectorPool::new(3, 5);
    assert_eq!(pool.idle_count(), 3);
    assert_eq!(pool.capacity(), 5);
    match pool.acquire() {
        Acquired::Reused(l) => assert_eq!(l.id(), 2),
        other => panic!("expected reuse, got {:?}", other),
    }
    assert_eq!(pool.idle_count(), 2);
}

#[test]
fn exhausted_pool_builds_on_demand() {
    let mut pool = DetectorPool::new(1, 1);
    let a = lease(pool.acquire());
    match pool.acquire() {
        Acquired::Built(l) => assert_eq!(l.id(), 1),
        other => panic!("expected a build, got {:?}", other),
    }
    assert_eq!(a.id(), 0);
}

#[test]
fn full_pool_discards_returned_detector() {
    let mut pool = DetectorPool::new(1, 1);
    let a = lease(pool.acquire());
    let b = lease(pool.acquire());
    assert_eq!(pool.release(a), Released::Kept);
    assert_eq!(pool.release(b), Released::Discarded);
    assert_eq!(pool.idle_count(), 1);
}

#[test]
fn released_detector_is_reused() {
    let mut pool = DetectorPool::new(2, 4);
    let a = lease(pool.acquire());
    let id = a.id();
    assert_eq!(pool.release(a), Released::Kept);
    match pool.acquire() {
        Acquired::Reused(l) => assert_eq!(l.id(), id),
        other => panic!("expected reuse, got {:?}", other),
    }
}

#[test]
fn hundred_requests_on_ten_warm_detectors() {
    let cfg = PoolConfig::from_texts(Some("10"), Some("50"));
    assert_eq!(cfg, PoolConfig { initial_size: 10, max_size: 50 });
    let mut pool = DetectorPool::new(cfg.initial_size, cfg.max_size);
    let mut held = Vec::new();
    let mut built = 0;
    for _ in 0..100 {
        match pool.acquire() {
            Acquired::Reused(l) => held.push(l),
            Acquired::Built(l) => {
                built += 1;
                held.push(l)
            }
            Acquired::Exhausted => panic!("ids ran out"),
        }
    }
    assert_eq!(built, 90);
    let mut ids: Vec<u64> = held.iter().map(|l| l.id()).collect();
    ids.sort();
    ids.dedup();
    assert_eq!(ids.len(), 100);
    let mut kept = 0;
    for l in held {
        if pool.release(l) == Released::Kept {
            kept += 1;
        }
    }
    assert_eq!(kept, 50);
    assert_eq!(pool.idle_count(), 50);
}

#[test]
fn config_defaults_and_bounds() {
    assert_eq!(PoolConfig::from_texts(None, None), PoolConfig { initial_size: 10, max_size: 50 });
    assert_eq!(PoolConfig::from_texts(Some("0"), Some("0")), PoolConfig { initial_size: 1, max_size: 1 });
    assert_eq!(PoolConfig::from_texts(Some("500"), Some("999")), PoolConfig { initial_size: 100, max_size: 200 });
    assert_eq!(PoolConfig::from_texts(Some("abc"), Some("-3")), PoolConfig { initial_size: 10, max_size: 50 });
    assert_eq!(PoolConfig::from_texts(Some("80"), Some("20")), PoolConfig { initial_size: 80, max_size: 80 });
    assert_eq!(PoolConfig::from_settings(Some(7), None), PoolConfig { initial_size: 7, max_size: 50 });
}
