//! Repositories as the configuration describes them: which one a tool works
//! on, where its data lives, and how its local data directory is checked.

use vstd::prelude::*;

verus! {

/// The numeric identity of a repository.
#[derive(Debug, Clone, Copy, PartialEq, Eq, Structural)]
pub struct RepositoryId(pub i32);

impl RepositoryId {
    pub fn new(id: i32) -> (r: RepositoryId)
        ensures
            r.0 == id,
    {
        RepositoryId(id)
    }

    pub fn id(&self) -> (r: i32)
        ensures
            r == self.0,
    {
        self.0
    }
}

/// Where the blobs of a remote repository are stored in Manifold.
#[derive(Debug)]
pub struct ManifoldArgs {
    pub bucket: String,
    pub prefix: String,
}

/// Where the blobs of a remote repository are stored in MySQL; the number
/// of shards is never 0.
#[derive(Debug)]
pub struct MysqlBlobstoreArgs {
    pub shardmap: String,
    pub shard_num: usize,
}

/// The blobstore of a remote repository.
#[derive(Debug)]
pub enum RemoteBlobstoreArgs {
    Manifold(ManifoldArgs),
    Mysql(MysqlBlobstoreArgs),
}

/// How a repository is stored.
pub enum RepoType {
    /// Blobs as files under a local data directory.
    BlobFiles(String),
    /// Blobs in RocksDB under a local data directory.
    BlobRocks(String),
    /// Blobs in SQLite under a local data directory.
    BlobSqlite(String),
    /// Blobs in a remote blobstore, metadata in a remote database.
    BlobRemote { blobstores_args: RemoteBlobstoreArgs, db_address: String },
}

/// What the configuration says of one repository.
pub struct RepoConfig {
    pub repoid: i32,
    pub repotype: RepoType,
}

/// Why the configuration of a repository cannot be had.
#[derive(Debug, Clone, Copy, PartialEq, Eq, Structural)]
pub enum ConfigError {
    /// No path to the configuration was given.
    MissingConfigPath,
    /// No repository of the configuration has this identity.
    UnknownRepoId(RepositoryId),
}

pub open spec fn has_repoid(repos: Seq<(String, RepoConfig)>, i: int, id: i32) -> bool {
    repos[i].1.repoid == id
}

/// The configuration of the repository `repo_id` among `repos`, with its
/// name. Where several have that identity, the last one is taken.
pub fn select_repo_config(repos: Vec<(String, RepoConfig)>, repo_id: RepositoryId) -> (r: Result<
    (String, RepoConfig),
    ConfigError,
>)
    ensures
        match r {
            Ok(found) => exists|i: int|
                0 <= i < repos@.len() && repos@[i] == found && has_repoid(repos@, i, repo_id.0)
                    && forall|j: int| i < j < repos@.len() ==> !has_repoid(repos@, j, repo_id.0),
            Err(e) => e == ConfigError::UnknownRepoId(repo_id) && forall|j: int|
                0 <= j < repos@.len() ==> !has_repoid(repos@, j, repo_id.0),
        },
{
    let ghost all = repos@;
    let mut found: Option<usize> = None;
    let mut i: usize = 0;
    while i < repos.len()
        invariant
            i <= repos@.len(),
            repos@ == all,
            match found {
                Some(k) => k < i && has_repoid(all, k as int, repo_id.0) && forall|j: int|
                    k < j < i ==> !has_repoid(all, j, repo_id.0),
                None => forall|j: int| 0 <= j < i ==> !has_repoid(all, j, repo_id.0),
            },
        decreases repos@.len() - i,
    {
        if repos[i].1.repoid == repo_id.0 {
            found = Some(i);
        }
        i = i + 1;
    }
    match found {
        Some(k) => {
            let mut repos = repos;
            let chosen = repos.remove(k);
            Ok(chosen)
        },
        None => Err(ConfigError::UnknownRepoId(repo_id)),
    }
}

pub open spec fn is_remote(repotype: RepoType) -> bool {
    repotype is BlobRemote
}

/// How a tool reaches the SQL store of a repository.
pub enum SqlTarget {
    /// A SQLite database file `file_name` in the local directory `data_dir`.
    Sqlite { data_dir: String, file_name: String },
    /// A database behind a local myrouter on `port`.
    MyRouter { db_address: String, port: u16 },
}

/// Where the SQL store `name` of a repository stored as `repotype` is: a
/// SQLite file of that name in the local data directory, or, for a remote
/// repository, its database through the local myrouter, whose port must be
/// given.
pub fn sql_target(repotype: &RepoType, name: &str, myrouter_port: Option<u16>) -> (r: SqlTarget)
    requires
        is_remote(*repotype) ==> myrouter_port is Some,
    ensures
        match *repotype {
            RepoType::BlobFiles(dir) | RepoType::BlobRocks(dir) | RepoType::BlobSqlite(dir) => r
                == (SqlTarget::Sqlite { data_dir: dir, file_name: r->file_name }) && (
            r->file_name)@ == name@,
            RepoType::BlobRemote { db_address, .. } => r == SqlTarget::MyRouter {
                db_address,
                port: myrouter_port->0,
            },
        },
{
    match repotype {
        RepoType::BlobFiles(dir) | RepoType::BlobRocks(dir) | RepoType::BlobSqlite(dir) => {
            SqlTarget::Sqlite { data_dir: dir.clone(), file_name: name.to_string() }
        },
        RepoType::BlobRemote { db_address, .. } => {
            let port = match myrouter_port {
                Some(p) => p,
                None => 0,
            };
            SqlTarget::MyRouter { db_address: db_address.clone(), port }
        },
    }
}

/// A copy of blobstore arguments.
pub fn copy_blobstore_args(args: &RemoteBlobstoreArgs) -> (r: RemoteBlobstoreArgs)
    ensures
        r == *args,
{
    match args {
        RemoteBlobstoreArgs::Manifold(m) => RemoteBlobstoreArgs::Manifold(
            ManifoldArgs { bucket: m.bucket.clone(), prefix: m.prefix.clone() },
        ),
        RemoteBlobstoreArgs::Mysql(m) => RemoteBlobstoreArgs::Mysql(
            MysqlBlobstoreArgs { shardmap: m.shardmap.clone(), shard_num: m.shard_num },
        ),
    }
}

/// How a tool opens the storage of a repository, and the key under which it
/// logs which storage that is.
pub enum RepoStorage {
    /// Local storage: the data directory is set up first; `setup_failure`
    /// says what failed if that goes wrong.
    Local { data_dir: String, log_key: &'static str, setup_failure: &'static str },
    /// Remote storage, logged with its blobstore arguments.
    Remote { log_key: &'static str, blobstores_args: RemoteBlobstoreArgs },
}

pub open spec fn local_storage(
    r: RepoStorage,
    dir: String,
    log_key: Seq<char>,
    setup_failure: Seq<char>,
) -> bool {
    &&& r matches RepoStorage::Local { data_dir, log_key: k, setup_failure: f }
    &&& data_dir == dir
    &&& k@ == log_key
    &&& f@ == setup_failure
}

/// The storage of a repository stored as `repotype`.
pub fn repo_storage(repotype: &RepoType) -> (r: RepoStorage)
    ensures
        match *repotype {
            RepoType::BlobFiles(dir) => local_storage(
                r,
                dir,
                "BlobRepo:Files"@,
                "Setting up file blobrepo failed"@,
            ),
            RepoType::BlobRocks(dir) => local_storage(
                r,
                dir,
                "BlobRepo:Rocksdb"@,
                "Setting up rocksdb blobrepo failed"@,
            ),
            RepoType::BlobSqlite(dir) => local_storage(
                r,
                dir,
                "BlobRepo:Sqlite"@,
                "Setting up sqlite blobrepo failed"@,
            ),
            RepoType::BlobRemote { blobstores_args, .. } => r matches RepoStorage::Remote {
                log_key,
                blobstores_args: a,
            } && log_key@ == "BlobRepo:Remote"@ && a == blobstores_args,
        },
{
    match repotype {
        RepoType::BlobFiles(dir) => RepoStorage::Local {
            data_dir: dir.clone(),
            log_key: "BlobRepo:Files",
            setup_failure: "Setting up file blobrepo failed",
        },
        RepoType::BlobRocks(dir) => RepoStorage::Local {
            data_dir: dir.clone(),
            log_key: "BlobRepo:Rocksdb",
            setup_failure: "Setting up rocksdb blobrepo failed",
        },
        RepoType::BlobSqlite(dir) => RepoStorage::Local {
            data_dir: dir.clone(),
            log_key: "BlobRepo:Sqlite",
            setup_failure: "Setting up sqlite blobrepo failed",
        },
        RepoType::BlobRemote { blobstores_args, .. } => RepoStorage::Remote {
            log_key: "BlobRepo:Remote",
            blobstores_args: copy_blobstore_args(blobstores_args),
        },
    }
}

/// Why the local data directory of a repository cannot be used.
#[derive(Debug, Clone, Copy, PartialEq, Eq, Structural)]
pub enum SetupError {
    /// The data directory does not exist or is not a directory.
    DataDirNotADirectory,
    /// A subdirectory exists but is not a directory.
    SubdirNotADirectory,
    /// A subdirectory that was to be created already holds something.
    SubdirNotEmpty,
}

/// What to do about a subdirectory of the data directory.
#[derive(Debug, Clone, Copy, PartialEq, Eq, Structural)]
pub enum SubdirAction {
    /// Leave it as it is.
    Keep,
    /// It exists and is to hold a new repository: it must be empty.
    CheckEmpty,
    /// Create it.
    Create,
}

/// The subdirectories that a repository's data directory holds.
pub fn repo_subdirs() -> (r: Vec<&'static str>)
    ensures
        r@.len() == 1,
        r@[0]@ == "blobs"@,
{
    vec!["blobs"]
}

/// Whether the data directory can be used: it must be a directory.
pub fn check_data_dir(is_dir: bool) -> (r: Result<(), SetupError>)
    ensures
        r == (if is_dir {
            Ok(())
        } else {
            Err(SetupError::DataDirNotADirectory)
        }),
{
    if is_dir {
        Ok(())
    } else {
        Err(SetupError::DataDirNotADirectory)
    }
}

/// What to do about a subdirectory that exists (`exists`), is a directory
/// (`is_dir`), for a repository that is to be created (`create`) or opened.
pub open spec fn subdir_decision(exists: bool, is_dir: bool, create: bool) -> Result<SubdirAction, SetupError> {
    if exists && !is_dir {
        Err(SetupError::SubdirNotADirectory)
    } else if !create {
        Ok(SubdirAction::Keep)
    } else if exists {
        Ok(SubdirAction::CheckEmpty)
    } else {
        Ok(SubdirAction::Create)
    }
}

/// What to do about a subdirectory that exists (`exists`), is a directory
/// (`is_dir`), for a repository that is to be created (`create`) or opened.
/// Opening a repository never changes or reads the subdirectory's contents.
pub fn subdir_action(exists: bool, is_dir: bool, create: bool) -> (r: Result<SubdirAction, SetupError>)
    ensures
        r == subdir_decision(exists, is_dir, create),
{
    if exists && !is_dir {
        Err(SetupError::SubdirNotADirectory)
    } else if !create {
        Ok(SubdirAction::Keep)
    } else if exists {
        Ok(SubdirAction::CheckEmpty)
    } else {
        Ok(SubdirAction::Create)
    }
}

/// Whether a subdirectory listed with `entries` entries can hold a new
/// repository: it must be empty.
pub fn check_subdir_empty(entries: usize) -> (r: Result<(), SetupError>)
    ensures
        r == (if entries == 0 {
            Ok(())
        } else {
            Err(SetupError::SubdirNotEmpty)
        }),
{
    if entries == 0 {
        Ok(())
    } else {
        Err(SetupError::SubdirNotEmpty)
    }
}

/// A subdirectory of the data directory as the setup sees it: whether it
/// exists, whether it is a directory, and how many entries it holds.
pub struct SubdirState {
    pub exists: bool,
    pub is_dir: bool,
    pub entries: nat,
}

/// The setup of one subdirectory: the decision of [`subdir_action`], the
/// emptiness check of [`check_subdir_empty`] where the subdirectory is to
/// hold a new repository, and the subdirectory that results.
pub open spec fn setup_subdir(s: SubdirState, create: bool) -> Result<SubdirState, SetupError> {
    match subdir_decision(s.exists, s.is_dir, create) {
        Err(e) => Err(e),
        Ok(SubdirAction::Keep) => Ok(s),
        Ok(SubdirAction::CheckEmpty) => if s.entries == 0 {
            Ok(s)
        } else {
            Err(SetupError::SubdirNotEmpty)
        },
        Ok(SubdirAction::Create) => Ok(SubdirState { exists: true, is_dir: true, entries: 0 }),
    }
}

/// Setting a data directory up again, as it was left by a setup that
/// succeeded, succeeds and changes nothing.
pub proof fn lemma_setup_is_idempotent(s: SubdirState, create: bool)
    requires
        setup_subdir(s, create) is Ok,
    ensures
        setup_subdir(setup_subdir(s, create)->Ok_0, create) == setup_subdir(s, create),
{
}

} // verus!
