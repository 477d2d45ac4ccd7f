use mononoke_cmdlib::arg_values::ArgValues;
use mononoke_cmdlib::cachelib::{
    blobs_pool, cache_pools, cachelib_settings, HitsPerSlab, PoolRebalance, ShrinkMonitor,
    Shrinker,
};

fn values(pairs: &[(&str, Option<&str>)]) -> ArgValues {
    let mut args = ArgValues::new();
    for (name, value) in pairs {
        args.insert(name.to_string(), value.map(|v| v.to_string()));
    }
    args
}

fn strategy() -> HitsPerSlab {
    HitsPerSlab { min_retained_slabs: 1, min_tail_age_secs: 30, ignore_untouched_slabs: false }
}

#[test]
fn default_cache_is_twenty_gib() {
    let settings = cachelib_settings(&values(&[])).expect("cachelib is set up");
    assert_eq!(settings.cache_size_bytes, 20 * 1024 * 1024 * 1024);
    // 20 GiB / 200 bytes = 107374182 items; the next power of two is 2^27.
    assert_eq!(settings.buckets_power, 28);
    assert_eq!(settings.lock_power, 10);
    assert_eq!(settings.pool_rebalance, PoolRebalance { interval_secs: 300, strategy: strategy() });
    assert_eq!(settings.shrinker, Shrinker::NoShrinker);
}

#[test]
fn not_set_up_when_asked() {
    assert_eq!(cachelib_settings(&values(&[("do-not-init-cachelib", None)])), None);
}

#[test]
fn bucket_power_follows_size() {
    let one = cachelib_settings(&values(&[("cache-size-gb", Some("1"))])).unwrap();
    // 1 GiB / 200 = 5368709 items, next power of two 2^23.
    assert_eq!(one.cache_size_bytes, 1 << 30);
    assert_eq!(one.buckets_power, 24);
    let zero = cachelib_settings(&values(&[("cache-size-gb", Some("0"))])).unwrap();
    assert_eq!(zero.cache_size_bytes, 0);
    assert_eq!(zero.buckets_power, 1);
    let huge = cachelib_settings(&values(&[("cache-size-gb", Some("4000000"))])).unwrap();
    // 4000000 GiB / 200 is about 2^44.3, so 2^45 buckets, capped at 2^32.
    assert_eq!(huge.buckets_power, 32);
}

#[test]
fn bucket_power_matches_power_of_two_rounding() {
    for gb in [1usize, 2, 3, 5, 7, 16, 20, 31, 64, 100, 1000] {
        let settings = cachelib_settings(&values(&[("cache-size-gb", Some(&gb.to_string()))])).unwrap();
        let items = gb * 1024 * 1024 * 1024 / 200;
        let bucket_count = items.checked_next_power_of_two().unwrap();
        let expected = std::cmp::min(bucket_count.trailing_zeros() + 1, 32);
        assert_eq!(settings.buckets_power, expected, "{} GiB", gb);
    }
}

#[test]
fn shrinkers() {
    let tupperware = cachelib_settings(&values(&[("use-tupperware-shrinker", None)])).unwrap();
    assert_eq!(tupperware.shrinker, Shrinker::Tupperware);
    let resident = cachelib_settings(&values(&[
        ("max-process-size", Some("100")),
        ("min-process-size", Some("90")),
    ]))
    .unwrap();
    assert_eq!(
        resident.shrinker,
        Shrinker::ResidentSize(ShrinkMonitor {
            max_process_size_gib: 100,
            min_process_size_gib: 90,
            interval_secs: 10,
            max_resize_per_iteration_percent: 25,
            max_removed_percent: 50,
            strategy: strategy(),
        })
    );
}

#[test]
fn pools_share_the_space() {
    let pools = cache_pools(&values(&[("changesets-cache-size", Some("7"))]), 2000);
    assert_eq!(
        pools,
        vec![
            ("blobstore-presence", 100),
            ("changesets", 7),
            ("filenodes", 100),
            ("bonsai_hg_mapping", 100),
        ]
    );
    let pools = cache_pools(&values(&[("with-content-sha1-cache", None)]), 40);
    assert_eq!(pools.len(), 5);
    assert_eq!(pools[4], ("content-sha1", 2));
    assert_eq!(blobs_pool(&values(&[]), 1234), ("blobstore-blobs", 1234));
    assert_eq!(blobs_pool(&values(&[("blob-cache-size", Some("5"))]), 1234), ("blobstore-blobs", 5));
}
