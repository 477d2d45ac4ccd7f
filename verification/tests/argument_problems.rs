use mononoke_cmdlib::arg_values::ArgValues;
use mononoke_cmdlib::args::{
    blobstore_args_problem, logger_args_problem, BlobstoreArgProblem, LoggerArgProblem,
};
use mononoke_cmdlib::args::{log_style_problem, panic_fate, panic_fate_problem, PanicFate};
use mononoke_cmdlib::cachelib::{cachelib_args_problem, pool_args_problem, CachelibArgProblem};

fn values(pairs: &[(&str, Option<&str>)]) -> ArgValues {
    let mut args = ArgValues::new();
    for (name, value) in pairs {
        args.insert(name.to_string(), value.map(|v| v.to_string()));
    }
    args
}

#[test]
fn logger_problems() {
    assert_eq!(logger_args_problem(&values(&[])), Some(LoggerArgProblem::NoPanicFate));
    assert_eq!(
        logger_args_problem(&values(&[("panic-fate", Some("explode"))])),
        Some(LoggerArgProblem::UnknownPanicFate)
    );
    assert_eq!(
        logger_args_problem(&values(&[("panic-fate", Some("none"))])),
        Some(LoggerArgProblem::NoLogStyle)
    );
    assert_eq!(
        logger_args_problem(&values(&[("panic-fate", Some("none")), ("log-style", Some("json"))])),
        Some(LoggerArgProblem::UnknownLogStyle)
    );
    assert_eq!(
        logger_args_problem(&values(&[("panic-fate", Some("exit")), ("log-style", Some("glog"))])),
        None
    );
}

#[test]
fn blobstore_problems() {
    assert_eq!(
        blobstore_args_problem(&values(&[("mysql-blobstore-shardmap", Some("s"))])),
        Some(BlobstoreArgProblem::NoShardNum)
    );
    assert_eq!(
        blobstore_args_problem(&values(&[
            ("mysql-blobstore-shardmap", Some("s")),
            ("mysql-blobstore-shard-num", Some("0")),
        ])),
        Some(BlobstoreArgProblem::BadShardNum)
    );
    assert_eq!(
        blobstore_args_problem(&values(&[
            ("mysql-blobstore-shardmap", Some("s")),
            ("mysql-blobstore-shard-num", Some("many")),
        ])),
        Some(BlobstoreArgProblem::BadShardNum)
    );
    assert_eq!(
        blobstore_args_problem(&values(&[("manifold-prefix", Some("p"))])),
        Some(BlobstoreArgProblem::NoManifoldBucket)
    );
    assert_eq!(
        blobstore_args_problem(&values(&[("manifold-bucket", Some("b"))])),
        Some(BlobstoreArgProblem::NoManifoldPrefix)
    );
    assert_eq!(
        blobstore_args_problem(&values(&[("manifold-bucket", Some("b")), ("manifold-prefix", Some(""))])),
        None
    );
}

#[test]
fn cachelib_problems() {
    assert_eq!(cachelib_args_problem(&values(&[])), None);
    assert_eq!(
        cachelib_args_problem(&values(&[("cache-size-gb", Some("lots"))])),
        Some(CachelibArgProblem::CacheSizeNotANumber)
    );
    assert_eq!(
        cachelib_args_problem(&values(&[("cache-size-gb", Some("18446744073709551615"))])),
        Some(CachelibArgProblem::CacheSizeTooLarge)
    );
    assert_eq!(
        cachelib_args_problem(&values(&[
            ("use-tupperware-shrinker", None),
            ("max-process-size", Some("1")),
        ])),
        Some(CachelibArgProblem::TupperwareWithProcessSizes)
    );
    assert_eq!(
        cachelib_args_problem(&values(&[("min-process-size", Some("1"))])),
        Some(CachelibArgProblem::OneProcessSize)
    );
    assert_eq!(
        cachelib_args_problem(&values(&[
            ("max-process-size", Some("1")),
            ("min-process-size", Some("-1")),
        ])),
        Some(CachelibArgProblem::ProcessSizeNotANumber)
    );
    assert_eq!(
        cachelib_args_problem(&values(&[
            ("do-not-init-cachelib", None),
            ("cache-size-gb", Some("lots")),
        ])),
        None
    );
}

#[test]
fn pool_problems() {
    assert_eq!(pool_args_problem(&values(&[])), None);
    assert_eq!(
        pool_args_problem(&values(&[("filenodes-cache-size", Some("x"))])),
        Some("filenodes-cache-size")
    );
    assert_eq!(
        pool_args_problem(&values(&[("content-sha1-cache-size", Some("x"))])),
        None
    );
    assert_eq!(
        pool_args_problem(&values(&[
            ("with-content-sha1-cache", None),
            ("content-sha1-cache-size", Some("x")),
        ])),
        Some("content-sha1-cache-size")
    );
    assert_eq!(
        pool_args_problem(&values(&[("blob-cache-size", Some("-5"))])),
        Some("blob-cache-size")
    );
}

#[test]
fn first_bad_pool_size_in_pool_order() {
    assert_eq!(
        pool_args_problem(&values(&[
            ("blob-cache-size", Some("x")),
            ("changesets-cache-size", Some("y")),
            ("presence-cache-size", Some("3")),
        ])),
        Some("changesets-cache-size")
    );
    let mut args = values(&[("blob-cache-size", Some("x"))]);
    args.insert_not_text("idmapping-cache-size".to_string());
    assert_eq!(pool_args_problem(&args), Some("idmapping-cache-size"));
}

#[test]
fn panic_fate_and_log_style_are_checked_apart() {
    let args = values(&[("panic-fate", Some("exit")), ("log-style", Some("json"))]);
    assert_eq!(panic_fate_problem(&args), None);
    assert_eq!(panic_fate(&args), Some(PanicFate::Exit(101)));
    assert_eq!(log_style_problem(&args), Some(LoggerArgProblem::UnknownLogStyle));
    assert_eq!(logger_args_problem(&args), Some(LoggerArgProblem::UnknownLogStyle));
    let args = values(&[("panic-fate", Some("sometimes"))]);
    assert_eq!(panic_fate_problem(&args), Some(LoggerArgProblem::UnknownPanicFate));
    assert_eq!(log_style_problem(&args), Some(LoggerArgProblem::NoLogStyle));
    let args = values(&[("panic-fate", Some("none"))]);
    assert_eq!(panic_fate(&args), None);
}
