use vstd::prelude::*;
use crate::permission::PermissionsMap;
use crate::version::Version;

verus! {

/// A shell command run at `path`.
#[derive(Clone, Debug)]
pub struct Command {
    pub path: String,
    pub command: String,
}

/// A `local:container` mapping (a port or a volume).
#[derive(Clone, Debug)]
pub struct Conversion {
    pub local: String,
    pub container: String,
}

#[derive(Clone, Debug)]
pub struct EnvironmentVar {
    pub variable: String,
    pub value: String,
}

#[derive(Clone, Debug)]
pub struct DockerBuildArgs {
    pub build_path: String,
    pub dockerfile_path: Option<String>,
}

/// Arguments of `docker run` for a deployment.
#[derive(Clone, Debug)]
pub struct DockerRunArgs {
    pub image: Option<String>,
    pub ports: Vec<Conversion>,
    pub volumes: Vec<Conversion>,
    pub environment: Vec<EnvironmentVar>,
    pub network: String,
    pub restart: String,
    pub post_image: Option<String>,
    pub container_user: Option<String>,
    pub docker_account: Option<String>,
}

impl Default for DockerRunArgs {
    fn default() -> (r: DockerRunArgs)
        ensures
            r.image.is_none(),
            r.ports@.len() == 0,
            r.volumes@.len() == 0,
            r.environment@.len() == 0,
            r.network@ == "bridge"@,
            r.restart@ == "no"@,
            r.post_image.is_none(),
            r.container_user.is_none(),
            r.docker_account.is_none(),
    {
        DockerRunArgs {
            image: None,
            ports: Vec::new(),
            volumes: Vec::new(),
            environment: Vec::new(),
            network: String::from_str("bridge"),
            restart: String::from_str("no"),
            post_image: None,
            container_user: None,
            docker_account: None,
        }
    }
}

/// Kind of entity an old-style update refers to.
#[derive(Clone, Copy, Debug, PartialEq, Eq, Structural)]
pub enum EntityType {
    Build,
    Deployment,
    Server,
}

/// Operation an update records.
#[derive(Clone, Copy, Debug, PartialEq, Eq, Structural)]
pub enum Operation {
    CreateServer,
    UpdateServer,
    DeleteServer,
    PruneImagesServer,
    PruneContainersServer,
    PruneNetworksServer,
    CreateBuild,
    UpdateBuild,
    DeleteBuild,
    BuildBuild,
    RecloneBuild,
    CreateDeployment,
    UpdateDeployment,
    DeleteDeployment,
    DeployDeployment,
    StopDeployment,
    StartDeployment,
    PullDeployment,
    RecloneDeployment,
    CreateRepo,
    UpdateRepo,
    DeleteRepo,
    RecloneRepo,
    CreateBuilder,
    UpdateBuilder,
    DeleteBuilder,
}

/// Kind of a resource, as named in tags and update targets.
#[derive(Clone, Copy, Debug, PartialEq, Eq, Structural)]
pub enum ResourceTargetVariant {
    System,
    Server,
    Build,
    Deployment,
    Repo,
    Builder,
}

/// A persisted resource: identity, access and bookkeeping around a
/// type-specific `config` and `info`.
#[derive(Clone, Debug)]
pub struct Resource<C, I> {
    pub id: String,
    pub name: String,
    pub permissions: PermissionsMap,
    pub tags: Vec<String>,
    pub created_at: i64,
    pub updated_at: i64,
    pub config: C,
    pub info: I,
}

/// Alert thresholds are whole percentages.
#[derive(Clone, Debug)]
pub struct ServerConfig {
    pub host: String,
    pub passkey: Option<String>,
    pub to_notify: Vec<String>,
    pub cpu_alert: u32,
    pub mem_alert: u32,
    pub disk_alert: u32,
    pub region: Option<String>,
    pub instance_id: Option<String>,
    pub is_core: bool,
}

impl Default for ServerConfig {
    fn default() -> (r: ServerConfig)
        ensures
            r.host@.len() == 0,
            r.passkey.is_none(),
            r.to_notify@.len() == 0,
            r.cpu_alert == 50,
            r.mem_alert == 75,
            r.disk_alert == 75,
            r.region.is_none(),
            r.instance_id.is_none(),
            !r.is_core,
    {
        ServerConfig {
            host: String::new(),
            passkey: None,
            to_notify: Vec::new(),
            cpu_alert: 50,
            mem_alert: 75,
            disk_alert: 75,
            region: None,
            instance_id: None,
            is_core: false,
        }
    }
}

/// Last observed connectivity of a server.
#[derive(Clone, Debug)]
pub struct ServerInfo {
    pub reachable: bool,
}

pub type Server = Resource<ServerConfig, ServerInfo>;

/// Build configuration.
#[derive(Clone, Debug)]
pub struct BuildConfig {
    pub builder_id: String,
    pub skip_secret_interp: bool,
    pub version: Version,
    pub repo: String,
    pub branch: String,
    pub github_account: String,
    pub docker_account: String,
    pub docker_organization: String,
    pub on_clone: Command,
    pub pre_build: Command,
    pub build_path: String,
    pub dockerfile_path: String,
    pub build_args: Vec<EnvironmentVar>,
    pub labels: Vec<EnvironmentVar>,
    pub extra_args: Vec<String>,
    pub use_buildx: bool,
}

pub fn empty_command() -> (r: Command)
    ensures
        r.path@.len() == 0,
        r.command@.len() == 0,
{
    Command { path: String::new(), command: String::new() }
}

impl Default for BuildConfig {
    fn default() -> (r: BuildConfig)
        ensures
            r.builder_id@.len() == 0,
            r.version == (Version { major: 0, minor: 0, patch: 0 }),
            r.repo@.len() == 0,
            r.branch@ == "main"@,
            r.github_account@.len() == 0,
            r.build_path@ == "."@,
            r.dockerfile_path@ == "Dockerfile"@,
            r.build_args@.len() == 0,
            !r.use_buildx,
    {
        BuildConfig {
            builder_id: String::new(),
            skip_secret_interp: false,
            version: Version { major: 0, minor: 0, patch: 0 },
            repo: String::new(),
            branch: String::from_str("main"),
            github_account: String::new(),
            docker_account: String::new(),
            docker_organization: String::new(),
            on_clone: empty_command(),
            pre_build: empty_command(),
            build_path: String::from_str("."),
            dockerfile_path: String::from_str("Dockerfile"),
            build_args: Vec::new(),
            labels: Vec::new(),
            extra_args: Vec::new(),
            use_buildx: false,
        }
    }
}

#[derive(Clone, Debug)]
pub struct BuildInfo {
    /// Unix timestamp in milliseconds of the last successful build.
    pub last_built_at: i64,
}

pub type Build = Resource<BuildConfig, BuildInfo>;

#[derive(Clone, Debug)]
pub struct DeploymentConfig {
    pub server_id: String,
    pub build_id: Option<String>,
    pub docker_run_args: DockerRunArgs,
}

#[derive(Clone, Debug)]
pub struct DeploymentInfo {
    pub is_core: bool,
}

pub type Deployment = Resource<DeploymentConfig, DeploymentInfo>;

#[derive(Clone, Debug)]
pub struct RepoConfig {
    pub server_id: String,
    pub repo: String,
    pub branch: String,
    pub github_account: String,
    pub on_clone: Command,
    pub on_pull: Command,
}

#[derive(Clone, Debug)]
pub struct RepoInfo {
    pub last_pulled_at: i64,
}

pub type Repo = Resource<RepoConfig, RepoInfo>;

/// Where builds run: on a registered server, or on a cloud instance.
#[derive(Clone, Debug)]
pub enum BuilderConfig {
    Server { server_id: String },
    Aws { region: String, instance_type: String, github_accounts: Vec<String>, docker_accounts: Vec<String> },
}

#[derive(Clone, Debug)]
pub struct BuilderInfo {}

pub type Builder = Resource<BuilderConfig, BuilderInfo>;

/// A named sequence of operations.
#[derive(Clone, Debug)]
pub struct Procedure {
    pub id: String,
    pub name: String,
    pub procedure: Vec<Operation>,
    pub permissions: PermissionsMap,
}

} // verus!
