//! The command-line tool: its subcommands, and the choices it makes about where a
//! database, a binary, a data directory and a port are.
use vstd::prelude::*;
use crate::text::chars_of;

verus! {

/// `auth` subcommands.
#[derive(Debug)]
pub enum AuthAction {
    Login,
    Logout,
    CreateKey { cluster: String },
}

/// `metrics` subcommands.
#[derive(Debug, Clone, Copy, PartialEq, Eq, Structural)]
pub enum MetricsAction {
    Full,
    Basic,
    Off,
    Status,
}

/// `dashboard` subcommands.
#[derive(Debug)]
pub enum DashboardAction {
    Start {
        instance: Option<String>,
        port: u16,
        host: Option<String>,
        sparrow_port: u16,
        attach: bool,
        restart: bool,
    },
    Stop,
    Status,
}

/// `data` subcommands.
#[derive(Debug)]
pub enum DataAction {
    Snapshot { source: String, output: Option<String> },
    Clone { source: String, dest: String },
    Restore { backup: String, dest: String, force: bool },
}

/// Where to deploy.
#[derive(Debug)]
pub enum CloudDeploymentTypeCommand {
    SparrowCloud { region: Option<String>, name: Option<String> },
    Ecr { name: Option<String> },
    Fly { auth: String, volume_size: u16, vm_size: String, private: bool, name: Option<String> },
    Local { name: Option<String> },
}

impl CloudDeploymentTypeCommand {
    /// The instance name given to the deployment, whichever its kind.
    pub fn name(&self) -> (r: Option<String>)
        ensures
            r is Some <==> (match self {
                CloudDeploymentTypeCommand::SparrowCloud { name, .. } => name is Some,
                CloudDeploymentTypeCommand::Ecr { name } => name is Some,
                CloudDeploymentTypeCommand::Fly { name, .. } => name is Some,
                CloudDeploymentTypeCommand::Local { name } => name is Some,
            }),
            r matches Some(n) ==> (match self {
                CloudDeploymentTypeCommand::SparrowCloud { name, .. } => name->0@ == n@,
                CloudDeploymentTypeCommand::Ecr { name } => name->0@ == n@,
                CloudDeploymentTypeCommand::Fly { name, .. } => name->0@ == n@,
                CloudDeploymentTypeCommand::Local { name } => name->0@ == n@,
            }),
    {
        let n = match self {
            CloudDeploymentTypeCommand::SparrowCloud { name, .. } => name,
            CloudDeploymentTypeCommand::Ecr { name } => name,
            CloudDeploymentTypeCommand::Fly { name, .. } => name,
            CloudDeploymentTypeCommand::Local { name } => name,
        };
        match n {
            Some(s) => Some(s.clone()),
            None => None,
        }
    }
}

/// How configuration is printed.
#[derive(Debug, Clone, Copy, PartialEq, Eq, Structural)]
pub enum ConfigOutputFormat {
    Human,
    Json,
}

impl Default for ConfigOutputFormat {
    fn default() -> (r: ConfigOutputFormat)
        ensures
            r == ConfigOutputFormat::Human,
    {
        ConfigOutputFormat::Human
    }
}

/// `config` subcommands.
#[derive(Debug)]
pub enum ConfigAction {
    Workspace { action: WorkspaceConfigAction },
    Project { action: ProjectConfigAction },
    Cluster { action: ClusterConfigAction },
}

/// `config workspace` subcommands.
#[derive(Debug)]
pub enum WorkspaceConfigAction {
    List { members: bool, format: ConfigOutputFormat },
    Show { format: ConfigOutputFormat },
    Switch { workspace: Option<String>, id: bool },
}

/// `config project` subcommands.
#[derive(Debug)]
pub enum ProjectConfigAction {
    List { workspace: Option<String>, id: bool, format: ConfigOutputFormat },
    Show { format: ConfigOutputFormat },
    Switch { project: Option<String>, id: bool },
}

/// `config cluster` subcommands.
#[derive(Debug)]
pub enum ClusterConfigAction {
    List {
        workspace: Option<String>,
        workspace_id: Option<String>,
        project: Option<String>,
        project_id: Option<String>,
        format: ConfigOutputFormat,
    },
}

// ─── locations ───────────────────────────────────────────────────────────────

/// Whether a directory holds a database: an LMDB `data.mdb` or a RocksDB `CURRENT`.
pub fn has_db_marker(data_mdb_exists: bool, current_exists: bool) -> (r: bool)
    ensures
        r == (data_mdb_exists || current_exists),
{
    data_mdb_exists || current_exists
}

/// Where a database was found.
#[derive(Debug, Clone, Copy, PartialEq, Eq, Structural)]
pub enum DbDirChoice {
    /// `<instance volume>/user` of the project instance named by the source.
    ProjectInstanceUser,
    /// The source path itself.
    Path,
    /// `<source path>/user`.
    PathUser,
}

/// Whether a source names an instance rather than a path: it holds no `/` nor `\`.
pub open spec fn is_instance_name(source: Seq<char>) -> bool {
    forall|i: int| 0 <= i < source.len() ==> source[i] != '/' && source[i] != '\\'
}

/// Where the database of a source is: for an instance name, the project's instance
/// volume's `user` directory when it holds a database (`instance_user_marked`, `None`
/// without a project); otherwise the source path, or its `user` directory, whichever
/// holds a database first. `None` when none does.
pub fn resolve_db_dir(
    source: &str,
    instance_user_marked: Option<bool>,
    path_marked: bool,
    path_user_marked: bool,
) -> (r: Option<DbDirChoice>)
    ensures
        is_instance_name(source@) && instance_user_marked == Some(true) ==> r == Some(
            DbDirChoice::ProjectInstanceUser,
        ),
        !(is_instance_name(source@) && instance_user_marked == Some(true)) ==> r == (if path_marked {
            Some(DbDirChoice::Path)
        } else if path_user_marked {
            Some(DbDirChoice::PathUser)
        } else {
            None
        }),
{
    let cs = chars_of(source);
    let mut is_name = true;
    let mut i: usize = 0;
    while i < cs.len()
        invariant
            cs@ == source@,
            i <= cs@.len(),
            is_name == (forall|j: int| 0 <= j < i ==> cs@[j] != '/' && cs@[j] != '\\'),
        decreases cs@.len() - i,
    {
        if cs[i] == '/' || cs[i] == '\\' {
            is_name = false;
        }
        i = i + 1;
    }
    if is_name {
        if let Some(true) = instance_user_marked {
            return Some(DbDirChoice::ProjectInstanceUser);
        }
    }
    if path_marked {
        Some(DbDirChoice::Path)
    } else if path_user_marked {
        Some(DbDirChoice::PathUser)
    } else {
        None
    }
}

/// The error text when no database is found at a source path.
pub fn no_database_message(source: &str) -> (r: String)
    ensures
        r@ == "No HelixDB database found at "@ + source@ + ". Expected data.mdb (LMDB) or CURRENT (RocksDB)."@,
{
    let mut s = crate::text::to_owned_string("No HelixDB database found at ");
    crate::text::push_str(&mut s, source);
    crate::text::push_str(&mut s, ". Expected data.mdb (LMDB) or CURRENT (RocksDB).");
    s
}

/// The build profile a binary is taken from.
#[derive(Debug, Clone, Copy, PartialEq, Eq, Structural)]
pub enum BuildProfile {
    Release,
    Debug,
}

impl BuildProfile {
    /// The directory name of the profile.
    pub fn dir_name(&self) -> (r: &'static str)
        ensures
            *self == BuildProfile::Release ==> r@ == "release"@,
            *self == BuildProfile::Debug ==> r@ == "debug"@,
    {
        match self {
            BuildProfile::Release => "release",
            BuildProfile::Debug => "debug",
        }
    }
}

/// The binary to run: the release build when there is one, else the debug build.
pub fn resolve_binary(release_exists: bool, debug_exists: bool) -> (r: Option<BuildProfile>)
    ensures
        release_exists ==> r == Some(BuildProfile::Release),
        !release_exists && debug_exists ==> r == Some(BuildProfile::Debug),
        !release_exists && !debug_exists ==> r is None,
{
    if release_exists {
        Some(BuildProfile::Release)
    } else if debug_exists {
        Some(BuildProfile::Debug)
    } else {
        None
    }
}

/// The data directory of a local run: the `--data-dir` flag, else the project instance's
/// volume, else `.sparrow` in the home directory, else `/tmp/sparrow-data`.
pub fn resolve_data_dir(
    data_dir_override: Option<String>,
    instance_volume: Option<String>,
    home_sparrow_dir: Option<String>,
) -> (r: String)
    ensures
        data_dir_override matches Some(d) ==> r@ == d@,
        data_dir_override is None ==> (instance_volume matches Some(v) ==> r@ == v@),
        data_dir_override is None && instance_volume is None ==> (home_sparrow_dir matches Some(h) ==> r@
            == h@),
        data_dir_override is None && instance_volume is None && home_sparrow_dir is None ==> r@
            == "/tmp/sparrow-data"@,
{
    if let Some(d) = data_dir_override {
        return d;
    }
    if let Some(v) = instance_volume {
        return v;
    }
    match home_sparrow_dir {
        Some(h) => h,
        None => crate::text::to_owned_string("/tmp/sparrow-data"),
    }
}

/// The port of a local run: the flag, else the instance's configured port, else 6969.
pub fn resolve_port(flag: Option<u16>, configured: Option<u16>) -> (r: u16)
    ensures
        flag matches Some(p) ==> r == p,
        flag is None ==> (configured matches Some(p) ==> r == p),
        flag is None && configured is None ==> r == 6969,
{
    match flag {
        Some(p) => p,
        None => match configured {
            Some(p) => p,
            None => 6969,
        },
    }
}


/// How a database directory is copied for a snapshot.
#[derive(Debug, Clone, Copy, PartialEq, Eq, Structural)]
pub enum SnapshotMethod {
    /// An LMDB store (`data.mdb`): a consistent hot copy of the environment.
    LmdbHotCopy,
    /// A RocksDB store (`CURRENT`): a plain copy of the files, consistent only while the
    /// instance is stopped.
    FileCopy,
}

/// How a snapshot of a directory is taken: LMDB first, then RocksDB; `None` when the
/// directory holds no database.
pub fn snapshot_method(data_mdb_exists: bool, current_exists: bool) -> (r: Option<SnapshotMethod>)
    ensures
        data_mdb_exists ==> r == Some(SnapshotMethod::LmdbHotCopy),
        !data_mdb_exists && current_exists ==> r == Some(SnapshotMethod::FileCopy),
        !data_mdb_exists && !current_exists ==> r is None,
        r is Some <==> (data_mdb_exists || current_exists),
{
    if data_mdb_exists {
        Some(SnapshotMethod::LmdbHotCopy)
    } else if current_exists {
        Some(SnapshotMethod::FileCopy)
    } else {
        None
    }
}

/// The error of a snapshot of a directory without a database.
pub fn no_snapshot_source_message(db_dir: &str) -> (r: String)
    ensures
        r@ == "No HelixDB database found at "@ + db_dir@ + "."@,
{
    let mut s = crate::text::to_owned_string("No HelixDB database found at ");
    crate::text::push_str(&mut s, db_dir);
    crate::text::push_str(&mut s, ".");
    s
}

} // verus!
