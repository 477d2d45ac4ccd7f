use mononoke_cmdlib::repo::{
    check_data_dir, check_subdir_empty, repo_storage, repo_subdirs, select_repo_config,
    sql_target, subdir_action, ConfigError, ManifoldArgs, RemoteBlobstoreArgs, RepoConfig,
    RepoStorage, RepoType, RepositoryId, SetupError, SqlTarget, SubdirAction,
};

fn remote() -> RepoType {
    RepoType::BlobRemote {
        blobstores_args: RemoteBlobstoreArgs::Manifold(ManifoldArgs {
            bucket: "b".to_string(),
            prefix: "p".to_string(),
        }),
        db_address: "xdb".to_string(),
    }
}

#[test]
fn last_matching_repo_is_taken() {
    let repos = vec![
        ("a".to_string(), RepoConfig { repoid: 1, repotype: RepoType::BlobFiles("/a".to_string()) }),
        ("b".to_string(), RepoConfig { repoid: 2, repotype: RepoType::BlobRocks("/b".to_string()) }),
        ("c".to_string(), RepoConfig { repoid: 1, repotype: RepoType::BlobSqlite("/c".to_string()) }),
    ];
    let (name, config) = select_repo_config(repos, RepositoryId(1)).expect("known repo");
    assert_eq!(name, "c");
    assert_eq!(config.repoid, 1);
    match config.repotype {
        RepoType::BlobSqlite(dir) => assert_eq!(dir, "/c"),
        _ => panic!("expected the sqlite repo"),
    }
}

#[test]
fn unknown_repo_is_an_error() {
    let repos = vec![("a".to_string(), RepoConfig { repoid: 1, repotype: remote() })];
    match select_repo_config(repos, RepositoryId(9)) {
        Err(e) => assert_eq!(e, ConfigError::UnknownRepoId(RepositoryId(9))),
        Ok(_) => panic!("repo 9 is not configured"),
    }
    match select_repo_config(Vec::new(), RepositoryId(0)) {
        Err(e) => assert_eq!(e, ConfigError::UnknownRepoId(RepositoryId(0))),
        Ok(_) => panic!("nothing is configured"),
    }
}

#[test]
fn sql_targets() {
    match sql_target(&RepoType::BlobFiles("/data".to_string()), "changesets", None) {
        SqlTarget::Sqlite { data_dir, file_name } => {
            assert_eq!(data_dir, "/data");
            assert_eq!(file_name, "changesets");
        }
        SqlTarget::MyRouter { .. } => panic!("expected sqlite"),
    }
    match sql_target(&remote(), "changesets", Some(3306)) {
        SqlTarget::MyRouter { db_address, port } => {
            assert_eq!(db_address, "xdb");
            assert_eq!(port, 3306);
        }
        SqlTarget::Sqlite { .. } => panic!("expected myrouter"),
    }
}

#[test]
fn storage_of_each_repo_type() {
    let cases = [
        (RepoType::BlobFiles("/f".to_string()), "BlobRepo:Files", "Setting up file blobrepo failed"),
        (RepoType::BlobRocks("/r".to_string()), "BlobRepo:Rocksdb", "Setting up rocksdb blobrepo failed"),
        (RepoType::BlobSqlite("/s".to_string()), "BlobRepo:Sqlite", "Setting up sqlite blobrepo failed"),
    ];
    for (repotype, key, failure) in cases {
        match repo_storage(&repotype) {
            RepoStorage::Local { log_key, setup_failure, .. } => {
                assert_eq!(log_key, key);
                assert_eq!(setup_failure, failure);
            }
            RepoStorage::Remote { .. } => panic!("expected local storage"),
        }
    }
    match repo_storage(&remote()) {
        RepoStorage::Remote { log_key, blobstores_args } => {
            assert_eq!(log_key, "BlobRepo:Remote");
            match blobstores_args {
                RemoteBlobstoreArgs::Manifold(m) => assert_eq!(m.bucket, "b"),
                _ => panic!("expected manifold"),
            }
        }
        RepoStorage::Local { .. } => panic!("expected remote storage"),
    }
}

#[test]
fn data_directory_checks() {
    assert_eq!(repo_subdirs(), vec!["blobs"]);
    assert_eq!(check_data_dir(true), Ok(()));
    assert_eq!(check_data_dir(false), Err(SetupError::DataDirNotADirectory));
    assert_eq!(subdir_action(true, false, true), Err(SetupError::SubdirNotADirectory));
    assert_eq!(subdir_action(true, false, false), Err(SetupError::SubdirNotADirectory));
    assert_eq!(subdir_action(true, true, false), Ok(SubdirAction::Keep));
    assert_eq!(subdir_action(false, false, false), Ok(SubdirAction::Keep));
    assert_eq!(subdir_action(true, true, true), Ok(SubdirAction::CheckEmpty));
    assert_eq!(subdir_action(false, false, true), Ok(SubdirAction::Create));
    assert_eq!(check_subdir_empty(0), Ok(()));
    assert_eq!(check_subdir_empty(3), Err(SetupError::SubdirNotEmpty));
}

#[test]
fn setting_up_twice_changes_nothing() {
    // A fresh data directory: the subdirectory is created, then found empty.
    assert_eq!(subdir_action(false, false, true), Ok(SubdirAction::Create));
    assert_eq!(subdir_action(true, true, true), Ok(SubdirAction::CheckEmpty));
    assert_eq!(check_subdir_empty(0), Ok(()));
    // Opening leaves it as it is, however often.
    assert_eq!(subdir_action(true, true, false), Ok(SubdirAction::Keep));
    assert_eq!(subdir_action(false, false, false), Ok(SubdirAction::Keep));
}
