//! How cachelib is set up from the command line: the size of the cache,
//! its hash table, its shrinker, and the pools carved out of it.

use vstd::prelude::*;
use vstd::arithmetic::power2::pow2;

use crate::arg_values;
use crate::arg_values::ArgValues;
use crate::args;
use crate::args::get_usize;
use crate::text;
use crate::text::{parse_u32, parse_usize};

verus! {

/// Rebalancing by hits per slab.
#[derive(Debug, Clone, Copy, PartialEq, Eq, Structural)]
pub struct HitsPerSlab {
    pub min_retained_slabs: u32,
    /// Objects newer than this might be about to become interesting.
    pub min_tail_age_secs: u64,
    pub ignore_untouched_slabs: bool,
}

/// How often the pools are rebalanced, and how.
#[derive(Debug, Clone, Copy, PartialEq, Eq, Structural)]
pub struct PoolRebalance {
    pub interval_secs: u64,
    pub strategy: HitsPerSlab,
}

/// A shrinker that follows the resident size of the process.
#[derive(Debug, Clone, Copy, PartialEq, Eq, Structural)]
pub struct ShrinkMonitor {
    /// Process size at which the cache shrinks, in GiB.
    pub max_process_size_gib: u32,
    /// Process size at which the cache grows back, in GiB.
    pub min_process_size_gib: u32,
    pub interval_secs: u64,
    pub max_resize_per_iteration_percent: u32,
    pub max_removed_percent: u32,
    pub strategy: HitsPerSlab,
}

/// Which shrinker the cache gets.
#[derive(Debug, Clone, Copy, PartialEq, Eq, Structural)]
pub enum Shrinker {
    NoShrinker,
    /// The Tupperware-aware shrinker.
    Tupperware,
    ResidentSize(ShrinkMonitor),
}

/// How the cache is configured.
#[derive(Debug, Clone, Copy, PartialEq, Eq, Structural)]
pub struct CachelibSettings {
    pub cache_size_bytes: usize,
    /// The hash table has `2^buckets_power` buckets.
    pub buckets_power: u32,
    /// The hash table has `2^lock_power` locks.
    pub lock_power: u32,
    pub pool_rebalance: PoolRebalance,
    pub shrinker: Shrinker,
}

pub open spec fn gib() -> int {
    1073741824int
}

/// The size of the cache in GiB: the value given, or 20.
pub open spec fn cache_size_gb(args: args::ArgMap) -> Option<int> {
    let given = arg_values::value_in(args, "cache-size-gb"@);
    text::parse_unsigned(
        if given is Some {
            given->0
        } else {
            "20"@
        },
        usize::MAX as int,
    )
}

/// The least `k` with `2^k >= n`.
pub open spec fn ceil_log2(n: nat) -> nat {
    choose|k: nat| #[trigger] pow2(k) >= n && (k == 0 || pow2((k - 1) as nat) < n)
}

/// The number of items a cache of `cache_size_bytes` holds: one per 200
/// bytes, the size assumed of an average item.
pub open spec fn expected_items(cache_size_bytes: int) -> int {
    cache_size_bytes / 200
}

/// The hash table gets one bucket per expected item, rounded up to a power
/// of two, and then twice that, but never more than `2^32` buckets.
pub open spec fn buckets_power_for(cache_size_bytes: int) -> int {
    let k = ceil_log2(expected_items(cache_size_bytes) as nat) as int + 1;
    if k < 32 {
        k
    } else {
        32
    }
}

pub open spec fn hits_per_slab() -> HitsPerSlab {
    HitsPerSlab { min_retained_slabs: 1, min_tail_age_secs: 30, ignore_untouched_slabs: false }
}

pub open spec fn pool_rebalance() -> PoolRebalance {
    PoolRebalance { interval_secs: 300, strategy: hits_per_slab() }
}

/// The shrinker asked for: Tupperware's, or one between the given process
/// sizes, or none.
pub open spec fn shrinker_for(args: args::ArgMap) -> Shrinker {
    let max = arg_values::value_in(args, "max-process-size"@);
    let min = arg_values::value_in(args, "min-process-size"@);
    if args.contains_key("use-tupperware-shrinker"@) {
        Shrinker::Tupperware
    } else if max is None {
        Shrinker::NoShrinker
    } else {
        Shrinker::ResidentSize(
            ShrinkMonitor {
                max_process_size_gib: text::parse_unsigned(max->0, u32::MAX as int)->0 as u32,
                min_process_size_gib: text::parse_unsigned(min->0, u32::MAX as int)->0 as u32,
                interval_secs: 10,
                max_resize_per_iteration_percent: 25,
                max_removed_percent: 50,
                strategy: hits_per_slab(),
            },
        )
    }
}

/// The shrinker arguments agree: the Tupperware shrinker is not combined
/// with process sizes, and the process sizes are given both or neither,
/// each as a `u32`.
pub open spec fn shrinker_args_ok(args: args::ArgMap) -> bool {
    let max = arg_values::value_in(args, "max-process-size"@);
    let min = arg_values::value_in(args, "min-process-size"@);
    if args.contains_key("use-tupperware-shrinker"@) {
        !args.contains_key("max-process-size"@) && !args.contains_key("min-process-size"@)
    } else {
        &&& (max is Some <==> min is Some)
        &&& max is Some ==> text::parse_unsigned(max->0, u32::MAX as int) is Some
        &&& min is Some ==> text::parse_unsigned(min->0, u32::MAX as int) is Some
    }
}

/// The cachelib arguments can be used: cachelib is not to be set up, or
/// the cache size is a `usize` number of GiB whose bytes fit in a `usize`,
/// and the shrinker arguments agree.
pub open spec fn cachelib_args_ok(args: args::ArgMap) -> bool {
    ||| args.contains_key("do-not-init-cachelib"@)
    ||| {
        &&& cache_size_gb(args) matches Some(gb)
        &&& gb * gib() <= usize::MAX
        &&& shrinker_args_ok(args)
    }
}

proof fn lemma_pow2_monotone(a: nat, b: nat)
    requires
        a <= b,
    ensures
        pow2(a) <= pow2(b),
{
    if a < b {
        vstd::arithmetic::power2::lemma_pow2_strictly_increases(a, b);
    }
}

proof fn lemma_ceil_log2_witness(n: nat) -> (k: nat)
    ensures
        pow2(k) >= n,
        k == 0 || pow2((k - 1) as nat) < n,
    decreases n,
{
    vstd::arithmetic::power2::lemma2_to64();
    if n <= 1 {
        0
    } else {
        let m = ((n + 1) / 2) as nat;
        let k1 = lemma_ceil_log2_witness(m);
        vstd::arithmetic::power2::lemma_pow2_unfold(k1 + 1);
        if k1 > 0 {
            vstd::arithmetic::power2::lemma_pow2_unfold(k1);
        }
        k1 + 1
    }
}

/// `ceil_log2(n)` is the least `k` with `2^k >= n`.
pub proof fn lemma_ceil_log2(n: nat)
    ensures
        pow2(ceil_log2(n)) >= n,
        ceil_log2(n) == 0 || pow2((ceil_log2(n) - 1) as nat) < n,
        forall|k: nat| pow2(k) >= n ==> ceil_log2(n) <= k,
{
    let w = lemma_ceil_log2_witness(n);
    assert(pow2(w) >= n && (w == 0 || pow2((w - 1) as nat) < n));
    let c = ceil_log2(n);
    assert forall|k: nat| pow2(k) >= n implies c <= k by {
        if k < c {
            lemma_pow2_monotone(k, (c - 1) as nat);
        }
    }
}

/// The hash table has a bucket for every expected item: it has twice the
/// least power of two that is not below the number of expected items,
/// unless that would be more than `2^32` buckets.
pub proof fn lemma_buckets_cover_items(cache_size_bytes: int)
    requires
        cache_size_bytes >= 0,
    ensures
        1 <= buckets_power_for(cache_size_bytes) <= 32,
        buckets_power_for(cache_size_bytes) < 32 ==> {
            let p = (buckets_power_for(cache_size_bytes) - 1) as nat;
            &&& pow2(p) >= expected_items(cache_size_bytes)
            &&& forall|k: nat| pow2(k) >= expected_items(cache_size_bytes) ==> p <= k
        },
{
    lemma_ceil_log2(expected_items(cache_size_bytes) as nat);
}

/// The least `k` with `2^k >= n`.
fn ceil_log2_of(n: usize) -> (k: u32)
    requires
        n <= usize::MAX / 2,
    ensures
        k as nat == ceil_log2(n as nat),
        k < 64,
{
    let mut p: usize = 1;
    let mut k: usize = 0;
    proof {
        vstd::arithmetic::power2::lemma2_to64();
    }
    while p < n
        invariant
            n <= usize::MAX / 2,
            p as nat == pow2(k as nat),
            p >= 1,
            k == 0 || pow2((k - 1) as nat) < n,
            k < 64,
            pow2(64) == 0x10000000000000000,
        decreases 64 - k,
    {
        proof {
            vstd::arithmetic::power2::lemma_pow2_unfold((k + 1) as nat);
            if k + 1 >= 64 {
                lemma_pow2_monotone(64, (k + 1) as nat);
            }
        }
        p = p * 2;
        k = k + 1;
    }
    let ghost kk = k as nat;
    assert(pow2(kk) >= n && (kk == 0 || pow2((kk - 1) as nat) < n));
    let ghost c = ceil_log2(n as nat);
    proof {
        if c < kk {
            lemma_pow2_monotone(c, (kk - 1) as nat);
        }
        if c > kk {
            lemma_pow2_monotone(kk, (c - 1) as nat);
        }
    }
    k as u32
}

/// The cachelib arguments that are read can be read as text: unless
/// cachelib is not to be set up, the cache size, and the process sizes
/// unless the Tupperware shrinker is asked for.
pub open spec fn cachelib_args_text(args: &ArgValues) -> bool {
    !args@.contains_key("do-not-init-cachelib"@) ==> {
        &&& arg_values::text_ok(args, "cache-size-gb"@)
        &&& !args@.contains_key("use-tupperware-shrinker"@) ==> arg_values::text_ok(
            args,
            "max-process-size"@,
        ) && arg_values::text_ok(args, "min-process-size"@)
    }
}

/// The settings of the cache, or `None` where cachelib is not to be set up.
pub fn cachelib_settings(args: &ArgValues) -> (r: Option<CachelibSettings>)
    requires
        cachelib_args_text(args),
        cachelib_args_ok(args@),
    ensures
        r is None <==> args@.contains_key("do-not-init-cachelib"@),
        r matches Some(s) ==> {
            &&& s.cache_size_bytes == cache_size_gb(args@)->0 * gib()
            &&& s.buckets_power == buckets_power_for(s.cache_size_bytes as int)
            &&& s.lock_power == 10
            &&& s.pool_rebalance == pool_rebalance()
            &&& s.shrinker == shrinker_for(args@)
        },
{
    if args.is_present("do-not-init-cachelib") {
        return None;
    }
    let gb = match args.value_of("cache-size-gb") {
        Some(v) => parse_usize(v.as_str()),
        None => parse_usize("20"),
    };
    let gb = match gb {
        Some(g) => g,
        None => 0,
    };
    let cache_size_bytes = gb * 1073741824;
    let item_count = cache_size_bytes / 200;
    let k = ceil_log2_of(item_count);
    let buckets_power = if k + 1 < 32 {
        k + 1
    } else {
        32
    };
    let strategy = HitsPerSlab {
        min_retained_slabs: 1,
        min_tail_age_secs: 30,
        ignore_untouched_slabs: false,
    };
    let shrinker = if args.is_present("use-tupperware-shrinker") {
        Shrinker::Tupperware
    } else {
        match (args.value_of("max-process-size"), args.value_of("min-process-size")) {
            (Some(max), Some(min)) => {
                let max = match parse_u32(max.as_str()) {
                    Some(v) => v,
                    None => 0,
                };
                let min = match parse_u32(min.as_str()) {
                    Some(v) => v,
                    None => 0,
                };
                Shrinker::ResidentSize(
                    ShrinkMonitor {
                        max_process_size_gib: max,
                        min_process_size_gib: min,
                        interval_secs: 10,
                        max_resize_per_iteration_percent: 25,
                        max_removed_percent: 50,
                        strategy,
                    },
                )
            },
            _ => Shrinker::NoShrinker,
        }
    };
    Some(
        CachelibSettings {
            cache_size_bytes,
            buckets_power,
            lock_power: 10,
            pool_rebalance: PoolRebalance { interval_secs: 300, strategy },
            shrinker,
        },
    )
}

/// The size of a pool: the value given to `key`, or a twentieth of the
/// space available.
pub open spec fn pool_size(args: args::ArgMap, key: Seq<char>, available_space: int) -> int {
    if arg_values::value_in(args, key) is Some {
        args::unsigned_value(args, key, usize::MAX as int)->0
    } else {
        available_space / 20
    }
}

/// The pools that each get a share of the cache, with their sizes; the
/// content SHA1 pool only where it is asked for.
pub open spec fn pools_for(args: args::ArgMap, available_space: int) -> Seq<(Seq<char>, int)> {
    seq![
        ("blobstore-presence"@, pool_size(args, "presence-cache-size"@, available_space)),
        ("changesets"@, pool_size(args, "changesets-cache-size"@, available_space)),
        ("filenodes"@, pool_size(args, "filenodes-cache-size"@, available_space)),
        ("bonsai_hg_mapping"@, pool_size(args, "idmapping-cache-size"@, available_space)),
    ] + if args.contains_key("with-content-sha1-cache"@) {
        seq![("content-sha1"@, pool_size(args, "content-sha1-cache-size"@, available_space))]
    } else {
        Seq::empty()
    }
}

/// Each pool's size is the one given to that pool's own argument, or a
/// twentieth of the available space where none is given: the presence
/// pool follows `--presence-cache-size`, the changesets pool
/// `--changesets-cache-size`, the filenodes pool `--filenodes-cache-size`,
/// the bonsai/hg mapping pool `--idmapping-cache-size`, and the content
/// SHA1 pool, which exists only where it is asked for,
/// `--content-sha1-cache-size`.
pub proof fn lemma_pools_follow_their_own_arguments(args: args::ArgMap, available_space: int)
    ensures
        ({
            let p = pools_for(args, available_space);
            let size = |key: Seq<char>|
                if arg_values::value_in(args, key) is Some {
                    text::parse_unsigned(arg_values::value_in(args, key)->0, usize::MAX as int)->0
                } else {
                    available_space / 20
                };
            &&& p.len() == if args.contains_key("with-content-sha1-cache"@) { 5int } else { 4int }
            &&& p[0] == ("blobstore-presence"@, size("presence-cache-size"@))
            &&& p[1] == ("changesets"@, size("changesets-cache-size"@))
            &&& p[2] == ("filenodes"@, size("filenodes-cache-size"@))
            &&& p[3] == ("bonsai_hg_mapping"@, size("idmapping-cache-size"@))
            &&& args.contains_key("with-content-sha1-cache"@) ==> p[4] == ("content-sha1"@, size(
                "content-sha1-cache-size"@,
            ))
        }),
{
}

/// The pool sizes that are given are `usize` numbers.
pub open spec fn pool_args_ok(args: args::ArgMap) -> bool {
    &&& args::unsigned_value_ok(args, "presence-cache-size"@, usize::MAX as int)
    &&& args::unsigned_value_ok(args, "changesets-cache-size"@, usize::MAX as int)
    &&& args::unsigned_value_ok(args, "filenodes-cache-size"@, usize::MAX as int)
    &&& args::unsigned_value_ok(args, "idmapping-cache-size"@, usize::MAX as int)
    &&& args.contains_key("with-content-sha1-cache"@) ==> args::unsigned_value_ok(
        args,
        "content-sha1-cache-size"@,
        usize::MAX as int,
    )
}

pub open spec fn pools_view(pools: Seq<(&'static str, usize)>) -> Seq<(Seq<char>, int)> {
    pools.map_values(|p: (&'static str, usize)| (p.0@, p.1 as int))
}

/// The pools that get a share of the `available_space` of the cache, in
/// the order they are created, before the blob pool takes what is left.
pub fn cache_pools(args: &ArgValues, available_space: usize) -> (r: Vec<(&'static str, usize)>)
    requires
        pool_args_text(args),
        pool_args_ok(args@),
    ensures
        pools_view(r@) == pools_for(args@, available_space as int),
{
    proof {
        let keys = pool_size_keys(args@);
        assert(keys[0] == "presence-cache-size"@);
        assert(keys[1] == "changesets-cache-size"@);
        assert(keys[2] == "filenodes-cache-size"@);
        assert(keys[3] == "idmapping-cache-size"@);
        if args@.contains_key("with-content-sha1-cache"@) {
            assert(keys[4] == "content-sha1-cache-size"@);
        }
    }
    let share = available_space / 20;
    let mut r: Vec<(&'static str, usize)> = Vec::new();
    r.push(("blobstore-presence", get_usize(args, "presence-cache-size", share)));
    r.push(("changesets", get_usize(args, "changesets-cache-size", share)));
    r.push(("filenodes", get_usize(args, "filenodes-cache-size", share)));
    r.push(("bonsai_hg_mapping", get_usize(args, "idmapping-cache-size", share)));
    if args.is_present("with-content-sha1-cache") {
        r.push(("content-sha1", get_usize(args, "content-sha1-cache-size", share)));
    }
    assert(pools_view(r@) =~= pools_for(args@, available_space as int));
    r
}

/// The blob pool, which gets the space still available, unless its size is given.
pub fn blobs_pool(args: &ArgValues, available_space: usize) -> (r: (&'static str, usize))
    requires
        arg_values::text_ok(args, "blob-cache-size"@),
        args::unsigned_value_ok(args@, "blob-cache-size"@, usize::MAX as int),
    ensures
        r.0@ == "blobstore-blobs"@,
        r.1 == (if arg_values::value_in(args@, "blob-cache-size"@) is Some {
            args::unsigned_value(args@, "blob-cache-size"@, usize::MAX as int)->0
        } else {
            available_space as int
        }),
{
    ("blobstore-blobs", get_usize(args, "blob-cache-size", available_space))
}


/// Why cachelib cannot be set up from the arguments.
#[derive(Debug, Clone, Copy, PartialEq, Eq, Structural)]
pub enum CachelibArgProblem {
    /// The cache size is not a `usize` number of GiB.
    CacheSizeNotANumber,
    /// The cache size in bytes does not fit in a `usize`.
    CacheSizeTooLarge,
    /// The Tupperware shrinker is asked for together with process sizes.
    TupperwareWithProcessSizes,
    /// Only one of the two process sizes is given.
    OneProcessSize,
    /// A process size is not a `u32`.
    ProcessSizeNotANumber,
}

/// The first thing wrong with the cachelib arguments, in the order they are read.
pub open spec fn cachelib_problem(args: args::ArgMap) -> Option<CachelibArgProblem> {
    let max = arg_values::value_in(args, "max-process-size"@);
    let min = arg_values::value_in(args, "min-process-size"@);
    if args.contains_key("do-not-init-cachelib"@) {
        None
    } else if cache_size_gb(args) is None {
        Some(CachelibArgProblem::CacheSizeNotANumber)
    } else if cache_size_gb(args)->0 * gib() > usize::MAX {
        Some(CachelibArgProblem::CacheSizeTooLarge)
    } else if args.contains_key("use-tupperware-shrinker"@) {
        if args.contains_key("max-process-size"@) || args.contains_key("min-process-size"@) {
            Some(CachelibArgProblem::TupperwareWithProcessSizes)
        } else {
            None
        }
    } else if (max is Some) != (min is Some) {
        Some(CachelibArgProblem::OneProcessSize)
    } else if max is Some && (text::parse_unsigned(max->0, u32::MAX as int) is None
        || text::parse_unsigned(min->0, u32::MAX as int) is None) {
        Some(CachelibArgProblem::ProcessSizeNotANumber)
    } else {
        None
    }
}

/// What is wrong with the cachelib arguments, if anything; where nothing
/// is, [`cachelib_settings`] can be called.
pub fn cachelib_args_problem(args: &ArgValues) -> (r: Option<CachelibArgProblem>)
    requires
        cachelib_args_text(args),
    ensures
        r == cachelib_problem(args@),
        r is None <==> cachelib_args_ok(args@),
{
    if args.is_present("do-not-init-cachelib") {
        return None;
    }
    let gb = match args.value_of("cache-size-gb") {
        Some(v) => parse_usize(v.as_str()),
        None => parse_usize("20"),
    };
    let gb = match gb {
        Some(g) => g,
        None => {
            return Some(CachelibArgProblem::CacheSizeNotANumber);
        },
    };
    if gb > usize::MAX / 1073741824 {
        return Some(CachelibArgProblem::CacheSizeTooLarge);
    }
    if args.is_present("use-tupperware-shrinker") {
        if args.is_present("max-process-size") || args.is_present("min-process-size") {
            return Some(CachelibArgProblem::TupperwareWithProcessSizes);
        }
        return None;
    }
    match (args.value_of("max-process-size"), args.value_of("min-process-size")) {
        (None, None) => None,
        (Some(max), Some(min)) => {
            if parse_u32(max.as_str()).is_none() || parse_u32(min.as_str()).is_none() {
                Some(CachelibArgProblem::ProcessSizeNotANumber)
            } else {
                None
            }
        },
        _ => Some(CachelibArgProblem::OneProcessSize),
    }
}

/// The keys whose values give pool sizes, in the order the pools are made.
pub open spec fn pool_size_keys(args: args::ArgMap) -> Seq<Seq<char>> {
    seq!["presence-cache-size"@, "changesets-cache-size"@, "filenodes-cache-size"@, "idmapping-cache-size"@]
        + if args.contains_key("with-content-sha1-cache"@) {
        seq!["content-sha1-cache-size"@]
    } else {
        Seq::empty()
    } + seq!["blob-cache-size"@]
}

proof fn lemma_pool_keys(args: args::ArgMap)
    ensures
        (forall|j: int|
            0 <= j < pool_size_keys(args).len() ==> args::unsigned_value_ok(
                args,
                #[trigger] pool_size_keys(args)[j],
                usize::MAX as int,
            )) <==> (pool_args_ok(args) && args::unsigned_value_ok(
            args,
            "blob-cache-size"@,
            usize::MAX as int,
        )),
{
    let all = pool_size_keys(args);
    assert(all[0] == "presence-cache-size"@);
    assert(all[1] == "changesets-cache-size"@);
    assert(all[2] == "filenodes-cache-size"@);
    assert(all[3] == "idmapping-cache-size"@);
    if args.contains_key("with-content-sha1-cache"@) {
        assert(all[4] == "content-sha1-cache-size"@);
        assert(all[5] == "blob-cache-size"@);
        assert(all.len() == 6);
    } else {
        assert(all[4] == "blob-cache-size"@);
        assert(all.len() == 5);
    }
}

/// The pool sizes can be read as text.
pub open spec fn pool_args_text(args: &ArgValues) -> bool {
    forall|j: int| 0 <= j < pool_size_keys(args@).len() ==> arg_values::text_ok(args, #[trigger] pool_size_keys(args@)[j])
}

/// The first pool size given that is not text or not a `usize`, in the
/// order the pools are made, if any; where there is none, [`cache_pools`]
/// and [`blobs_pool`] can be called.
pub fn pool_args_problem(args: &ArgValues) -> (r: Option<&'static str>)
    ensures
        r is None <==> (pool_args_text(args) && pool_args_ok(args@) && args::unsigned_value_ok(
            args@,
            "blob-cache-size"@,
            usize::MAX as int,
        )),
        r matches Some(key) ==> exists|j: int|
            0 <= j < pool_size_keys(args@).len() && pool_size_keys(args@)[j] == key@ && !(
            arg_values::text_ok(args, key@) && args::unsigned_value_ok(args@, key@, usize::MAX as int))
                && forall|i: int|
                0 <= i < j ==> arg_values::text_ok(args, #[trigger] pool_size_keys(args@)[i])
                    && args::unsigned_value_ok(args@, pool_size_keys(args@)[i], usize::MAX as int),
{
    let mut keys: Vec<&'static str> = vec![
        "presence-cache-size",
        "changesets-cache-size",
        "filenodes-cache-size",
        "idmapping-cache-size",
    ];
    if args.is_present("with-content-sha1-cache") {
        keys.push("content-sha1-cache-size");
    }
    keys.push("blob-cache-size");
    let ghost all = pool_size_keys(args@);
    assert(keys@.map_values(|k: &'static str| k@) =~= all);
    let mut i: usize = 0;
    while i < keys.len()
        invariant
            i <= keys@.len(),
            all == pool_size_keys(args@),
            keys@.map_values(|k: &'static str| k@) == all,
            forall|j: int| 0 <= j < i ==> arg_values::text_ok(args, #[trigger] all[j]),
            forall|j: int| 0 <= j < i ==> args::unsigned_value_ok(
                args@,
                #[trigger] all[j],
                usize::MAX as int,
            ),
        decreases keys@.len() - i,
    {
        let key = keys[i];
        assert(all[i as int] == key@);
        if !args.is_text(key) {
            proof {
                lemma_pool_keys(args@);
            }
            return Some(key);
        }
        if let Some(v) = args.value_of(key) {
            if parse_usize(v.as_str()).is_none() {
                proof {
                    assert(arg_values::value_in(args@, key@) == Some(v@));
                    assert(!args::unsigned_value_ok(args@, all[i as int], usize::MAX as int));
                    assert(all[i as int] == key@);
                    lemma_pool_keys(args@);
                }
                return Some(key);
            }
        }
        i = i + 1;
    }
    proof {
        lemma_pool_keys(args@);
    }
    None
}

} // verus!
