use vstd::prelude::*;
use crate::builds::Database;
use crate::diff::strings_view;
use crate::entities::{
    BuildConfig, BuildInfo, BuilderConfig, BuilderInfo, DeploymentConfig, DeploymentInfo, RepoConfig, RepoInfo,
    Resource, ResourceTargetVariant, ServerConfig, ServerInfo,
};
use crate::store::Collection;
use crate::permission::{effective, effective_level, PermissionLevel, User};
use crate::version::Version;

verus! {

/// A search predicate.
#[derive(Clone, Debug)]
pub enum Tag {
    Custom { tag_id: String },
    Server { server_id: String },
    ResourceType { resource: ResourceTargetVariant },
}

/// The predicates of a search, by kind.
pub struct SeperateTags {
    pub resource_types: Vec<ResourceTargetVariant>,
    pub server_ids: Vec<String>,
    pub custom_tag_ids: Vec<String>,
}

pub open spec fn custom_ids_of(tags: Seq<Tag>) -> Seq<Seq<char>>
    decreases tags.len(),
{
    if tags.len() == 0 {
        Seq::empty()
    } else {
        let p = custom_ids_of(tags.drop_last());
        match tags.last() {
            Tag::Custom { tag_id } => p.push(tag_id@),
            _ => p,
        }
    }
}

pub open spec fn server_ids_of(tags: Seq<Tag>) -> Seq<Seq<char>>
    decreases tags.len(),
{
    if tags.len() == 0 {
        Seq::empty()
    } else {
        let p = server_ids_of(tags.drop_last());
        match tags.last() {
            Tag::Server { server_id } => p.push(server_id@),
            _ => p,
        }
    }
}

pub open spec fn searchable(t: ResourceTargetVariant) -> bool {
    t != ResourceTargetVariant::Builder && t != ResourceTargetVariant::System
}

/// The searchable resource types the tags name, each once, in the order
/// of first mention.
pub open spec fn named_types(tags: Seq<Tag>) -> Seq<ResourceTargetVariant>
    decreases tags.len(),
{
    if tags.len() == 0 {
        Seq::empty()
    } else {
        let p = named_types(tags.drop_last());
        match tags.last() {
            Tag::ResourceType { resource } => if searchable(resource) && !p.contains(resource) {
                p.push(resource)
            } else {
                p
            },
            _ => p,
        }
    }
}

pub open spec fn all_resource_types() -> Seq<ResourceTargetVariant> {
    seq![
        ResourceTargetVariant::Server,
        ResourceTargetVariant::Build,
        ResourceTargetVariant::Deployment,
        ResourceTargetVariant::Repo,
    ]
}

/// The types a search covers: those named, or all four when none is.
pub open spec fn searched_types(tags: Seq<Tag>) -> Seq<ResourceTargetVariant> {
    if named_types(tags).len() == 0 {
        all_resource_types()
    } else {
        named_types(tags)
    }
}

fn contains_type(v: &Vec<ResourceTargetVariant>, t: ResourceTargetVariant) -> (r: bool)
    ensures
        r == v@.contains(t),
{
    let mut i: usize = 0;
    while i < v.len()
        invariant
            i <= v@.len(),
            forall|j: int| 0 <= j < i ==> v@[j] != t,
        decreases v@.len() - i,
    {
        if v[i] == t {
            return true;
        }
        i = i + 1;
    }
    false
}

/// Splits tags into custom tag ids, server ids and resource types; no
/// resource type means all four searchable ones.
pub fn seperate_tags(tags: Vec<Tag>) -> (r: SeperateTags)
    ensures
        strings_view(r.custom_tag_ids@) == custom_ids_of(tags@),
        strings_view(r.server_ids@) == server_ids_of(tags@),
        r.resource_types@ == searched_types(tags@),
{
    let mut custom_tag_ids: Vec<String> = Vec::new();
    let mut server_ids: Vec<String> = Vec::new();
    let mut resource_types: Vec<ResourceTargetVariant> = Vec::new();
    let mut i: usize = 0;
    while i < tags.len()
        invariant
            i <= tags@.len(),
            strings_view(custom_tag_ids@) == custom_ids_of(tags@.subrange(0, i as int)),
            strings_view(server_ids@) == server_ids_of(tags@.subrange(0, i as int)),
            resource_types@ == named_types(tags@.subrange(0, i as int)),
        decreases tags@.len() - i,
    {
        let ghost pre = tags@.subrange(0, i as int + 1);
        proof {
            assert(pre.drop_last() =~= tags@.subrange(0, i as int));
            assert(pre.last() == tags@[i as int]);
        }
        match &tags[i] {
            Tag::Custom { tag_id } => {
                custom_tag_ids.push(tag_id.clone());
                assert(strings_view(custom_tag_ids@) =~= custom_ids_of(pre));
            },
            Tag::Server { server_id } => {
                server_ids.push(server_id.clone());
                assert(strings_view(server_ids@) =~= server_ids_of(pre));
            },
            Tag::ResourceType { resource } => {
                let t = *resource;
                if t != ResourceTargetVariant::Builder && t != ResourceTargetVariant::System
                    && !contains_type(&resource_types, t) {
                    resource_types.push(t);
                }
            },
        }
        i = i + 1;
    }
    proof {
        assert(tags@.subrange(0, tags@.len() as int) =~= tags@);
    }
    if resource_types.len() == 0 {
        resource_types.push(ResourceTargetVariant::Server);
        resource_types.push(ResourceTargetVariant::Build);
        resource_types.push(ResourceTargetVariant::Deployment);
        resource_types.push(ResourceTargetVariant::Repo);
        assert(resource_types@ =~= all_resource_types());
    }
    SeperateTags { resource_types, server_ids, custom_tag_ids }
}

/// Liveness of a server as last probed.
#[derive(Clone, Copy, Debug, PartialEq, Eq, Structural)]
pub enum ServerStatus {
    NotOk,
    Healthy,
    Disabled,
}

/// State of a deployment's container as last probed.
#[derive(Clone, Copy, Debug, PartialEq, Eq, Structural)]
pub enum DeploymentState {
    Unknown,
    NotDeployed,
    Created,
    Restarting,
    Running,
    Removing,
    Paused,
    Exited,
    Dead,
}

#[derive(Clone, Debug)]
pub struct ServerStatusEntry {
    pub id: String,
    pub status: ServerStatus,
}

#[derive(Clone, Debug)]
pub struct DeploymentStatusEntry {
    pub id: String,
    pub state: DeploymentState,
}

/// Snapshot of the live status of servers and deployments, by id.
pub struct StatusCache {
    pub servers: Vec<ServerStatusEntry>,
    pub deployments: Vec<DeploymentStatusEntry>,
}

/// Cached status of server `id`; a missing entry reads as `NotOk`.
pub open spec fn cached_server_status(entries: Seq<ServerStatusEntry>, id: Seq<char>) -> ServerStatus
    decreases entries.len(),
{
    if entries.len() == 0 {
        ServerStatus::NotOk
    } else if entries[0].id@ == id {
        entries[0].status
    } else {
        cached_server_status(entries.drop_first(), id)
    }
}

/// Cached state of deployment `id`; a missing entry reads as `Unknown`.
pub open spec fn cached_deployment_state(entries: Seq<DeploymentStatusEntry>, id: Seq<char>) -> DeploymentState
    decreases entries.len(),
{
    if entries.len() == 0 {
        DeploymentState::Unknown
    } else if entries[0].id@ == id {
        entries[0].state
    } else {
        cached_deployment_state(entries.drop_first(), id)
    }
}

impl StatusCache {
    pub fn new() -> (r: StatusCache)
        ensures
            r.servers@.len() == 0,
            r.deployments@.len() == 0,
    {
        StatusCache { servers: Vec::new(), deployments: Vec::new() }
    }

    pub fn server_status(&self, id: &String) -> (r: ServerStatus)
        ensures
            r == cached_server_status(self.servers@, id@),
    {
        let mut i: usize = 0;
        proof {
            assert(self.servers@.subrange(0, self.servers@.len() as int) =~= self.servers@);
        }
        while i < self.servers.len()
            invariant
                i <= self.servers@.len(),
                cached_server_status(self.servers@.subrange(i as int, self.servers@.len() as int), id@)
                    == cached_server_status(self.servers@, id@),
            decreases self.servers@.len() - i,
        {
            let ghost rest = self.servers@.subrange(i as int, self.servers@.len() as int);
            proof {
                assert(rest.drop_first() =~= self.servers@.subrange(i + 1, self.servers@.len() as int));
            }
            if self.servers[i].id == *id {
                return self.servers[i].status;
            }
            i = i + 1;
        }
        ServerStatus::NotOk
    }

    pub fn deployment_state(&self, id: &String) -> (r: DeploymentState)
        ensures
            r == cached_deployment_state(self.deployments@, id@),
    {
        let mut i: usize = 0;
        proof {
            assert(self.deployments@.subrange(0, self.deployments@.len() as int) =~= self.deployments@);
        }
        while i < self.deployments.len()
            invariant
                i <= self.deployments@.len(),
                cached_deployment_state(self.deployments@.subrange(i as int, self.deployments@.len() as int), id@)
                    == cached_deployment_state(self.deployments@, id@),
            decreases self.deployments@.len() - i,
        {
            let ghost rest = self.deployments@.subrange(i as int, self.deployments@.len() as int);
            proof {
                assert(rest.drop_first() =~= self.deployments@.subrange(i + 1, self.deployments@.len() as int));
            }
            if self.deployments[i].id == *id {
                return self.deployments[i].state;
            }
            i = i + 1;
        }
        DeploymentState::Unknown
    }
}

#[derive(Clone, Debug)]
pub struct ServerListItem {
    pub id: String,
    pub name: String,
    pub status: ServerStatus,
}

#[derive(Clone, Debug)]
pub struct DeploymentListItem {
    pub id: String,
    pub name: String,
    pub state: DeploymentState,
}

#[derive(Clone, Debug)]
pub struct BuildListItem {
    pub id: String,
    pub name: String,
    pub last_built_at: i64,
    pub version: Version,
}

#[derive(Clone, Debug)]
pub struct RepoListItem {
    pub id: String,
    pub name: String,
    pub last_pulled_at: i64,
}

/// Matches of a search, by type, each in store order.
pub struct FindResourcesResponse {
    pub servers: Vec<ServerListItem>,
    pub deployments: Vec<DeploymentListItem>,
    pub builds: Vec<BuildListItem>,
    pub repos: Vec<RepoListItem>,
}

/// `f` of each document that `keep` holds of, in order.
pub open spec fn select<C, I, T>(
    docs: Seq<Resource<C, I>>,
    keep: spec_fn(Resource<C, I>) -> bool,
    f: spec_fn(Resource<C, I>) -> T,
) -> Seq<T>
    decreases docs.len(),
{
    if docs.len() == 0 {
        Seq::empty()
    } else {
        let p = select(docs.drop_last(), keep, f);
        if keep(docs.last()) {
            p.push(f(docs.last()))
        } else {
            p
        }
    }
}

/// The document carries every one of the `required` tags.
pub open spec fn has_tags(tags: Seq<Seq<char>>, required: Seq<Seq<char>>) -> bool {
    forall|k: int| 0 <= k < required.len() ==> tags.contains(#[trigger] required[k])
}

/// No server scope, or `id` is within it.
pub open spec fn in_scope(scope: Seq<Seq<char>>, id: Seq<char>) -> bool {
    scope.len() == 0 || scope.contains(id)
}

/// The build's builder is a server builder on a server within `scope`.
pub open spec fn builder_in_scope(builders: Collection<BuilderConfig, BuilderInfo>, builder_id: Seq<char>, scope: Seq<Seq<char>>) -> bool {
    match builders.get_doc(builder_id) {
        Some(b) => match b.config {
            BuilderConfig::Server { server_id } => scope.contains(server_id@),
            _ => false,
        },
        None => false,
    }
}

/// A server matches when it has the tags, is in scope and the user holds
/// more than `NoAccess` on it.
pub open spec fn server_matches(d: Resource<ServerConfig, ServerInfo>, custom: Seq<Seq<char>>, scope: Seq<Seq<char>>, user: User) -> bool {
    &&& has_tags(strings_view(d.tags@), custom)
    &&& in_scope(scope, d.id@)
    &&& effective_level(user, d.permissions).rank() > PermissionLevel::NoAccess.rank()
}

/// A deployment matches when it has the tags, runs on a server in scope
/// and the user holds more than `Read` on it.
pub open spec fn deployment_matches(d: Resource<DeploymentConfig, DeploymentInfo>, custom: Seq<Seq<char>>, scope: Seq<Seq<char>>, user: User) -> bool {
    &&& has_tags(strings_view(d.tags@), custom)
    &&& in_scope(scope, d.config.server_id@)
    &&& effective_level(user, d.permissions).rank() > PermissionLevel::Read.rank()
}

/// A repo matches when it has the tags, lives on a server in scope and the
/// user holds more than `Read` on it.
pub open spec fn repo_matches(d: Resource<RepoConfig, RepoInfo>, custom: Seq<Seq<char>>, scope: Seq<Seq<char>>, user: User) -> bool {
    &&& has_tags(strings_view(d.tags@), custom)
    &&& in_scope(scope, d.config.server_id@)
    &&& effective_level(user, d.permissions).rank() > PermissionLevel::Read.rank()
}

/// A build matches when it has the tags, builds on a server in scope and
/// the user holds more than `Read` on it.
pub open spec fn build_matches(
    d: Resource<BuildConfig, BuildInfo>,
    builders: Collection<BuilderConfig, BuilderInfo>,
    custom: Seq<Seq<char>>,
    scope: Seq<Seq<char>>,
    user: User,
) -> bool {
    &&& has_tags(strings_view(d.tags@), custom)
    &&& (scope.len() == 0 || builder_in_scope(builders, d.config.builder_id@, scope))
    &&& effective_level(user, d.permissions).rank() > PermissionLevel::Read.rank()
}

pub open spec fn server_item_view(i: ServerListItem) -> (Seq<char>, Seq<char>, ServerStatus) {
    (i.id@, i.name@, i.status)
}

pub open spec fn deployment_item_view(i: DeploymentListItem) -> (Seq<char>, Seq<char>, DeploymentState) {
    (i.id@, i.name@, i.state)
}

pub open spec fn build_item_view(i: BuildListItem) -> (Seq<char>, Seq<char>, i64, Version) {
    (i.id@, i.name@, i.last_built_at, i.version)
}

pub open spec fn repo_item_view(i: RepoListItem) -> (Seq<char>, Seq<char>, i64) {
    (i.id@, i.name@, i.last_pulled_at)
}

fn contains_string(v: &Vec<String>, s: &String) -> (r: bool)
    ensures
        r == strings_view(v@).contains(s@),
{
    let mut i: usize = 0;
    while i < v.len()
        invariant
            i <= v@.len(),
            forall|j: int| 0 <= j < i ==> v@[j]@ != s@,
        decreases v@.len() - i,
    {
        if v[i] == *s {
            assert(strings_view(v@)[i as int] == s@);
            return true;
        }
        i = i + 1;
    }
    proof {
        if strings_view(v@).contains(s@) {
            let j = choose|j: int| 0 <= j < strings_view(v@).len() && strings_view(v@)[j] == s@;
            assert(v@[j]@ == s@);
        }
    }
    false
}

fn has_all_tags(tags: &Vec<String>, required: &Vec<String>) -> (r: bool)
    ensures
        r == has_tags(strings_view(tags@), strings_view(required@)),
{
    let mut i: usize = 0;
    while i < required.len()
        invariant
            i <= required@.len(),
            forall|k: int| 0 <= k < i ==> strings_view(tags@).contains(#[trigger] strings_view(required@)[k]),
        decreases required@.len() - i,
    {
        if !contains_string(tags, &required[i]) {
            assert(!strings_view(tags@).contains(strings_view(required@)[i as int]));
            return false;
        }
        i = i + 1;
    }
    true
}

fn scope_allows(scope: &Vec<String>, id: &String) -> (r: bool)
    ensures
        r == in_scope(strings_view(scope@), id@),
{
    scope.len() == 0 || contains_string(scope, id)
}

fn builder_allows(builders: &Collection<BuilderConfig, BuilderInfo>, builder_id: &String, scope: &Vec<String>) -> (r: bool)
    requires
        builders.wf(),
    ensures
        r == (strings_view(scope@).len() == 0 || builder_in_scope(*builders, builder_id@, strings_view(scope@))),
{
    if scope.len() == 0 {
        return true;
    }
    match builders.find(builder_id) {
        None => false,
        Some(i) => match &builders.docs[i].config {
            BuilderConfig::Server { server_id } => contains_string(scope, server_id),
            BuilderConfig::Aws { .. } => false,
        },
    }
}

fn find_servers(docs: &Vec<Resource<ServerConfig, ServerInfo>>, custom: &Vec<String>, scope: &Vec<String>, user: &User, cache: &StatusCache)
    -> (r: Vec<ServerListItem>)
    ensures
        r@.map_values(|i: ServerListItem| server_item_view(i)) == select(
            docs@,
            |d: Resource<ServerConfig, ServerInfo>| server_matches(d, strings_view(custom@), strings_view(scope@), *user),
            |d: Resource<ServerConfig, ServerInfo>| (d.id@, d.name@, cached_server_status(cache.servers@, d.id@)),
        ),
{
    let mut out: Vec<ServerListItem> = Vec::new();
    let mut i: usize = 0;
    while i < docs.len()
        invariant
            i <= docs@.len(),
            out@.map_values(|i: ServerListItem| server_item_view(i)) == select(
                docs@.subrange(0, i as int),
                |d: Resource<ServerConfig, ServerInfo>| server_matches(d, strings_view(custom@), strings_view(scope@), *user),
                |d: Resource<ServerConfig, ServerInfo>| (d.id@, d.name@, cached_server_status(cache.servers@, d.id@)),
            ),
        decreases docs@.len() - i,
    {
        proof {
            let pre = docs@.subrange(0, i as int + 1);
            assert(pre.drop_last() =~= docs@.subrange(0, i as int));
            assert(pre.last() == docs@[i as int]);
        }
        let d = &docs[i];
        if has_all_tags(&d.tags, custom) && scope_allows(scope, &d.id) && effective(user, &d.permissions).to_rank() > 0 {
            let ghost prev = out@;
            out.push(ServerListItem { id: d.id.clone(), name: d.name.clone(), status: cache.server_status(&d.id) });
            proof {
                assert(out@.map_values(|i: ServerListItem| server_item_view(i)) =~= prev.map_values(|i: ServerListItem| server_item_view(i)).push(server_item_view(out@.last())));
            }
        }
        i = i + 1;
    }
    proof {
        assert(docs@.subrange(0, docs@.len() as int) =~= docs@);
    }
    out
}

fn find_deployments(docs: &Vec<Resource<DeploymentConfig, DeploymentInfo>>, custom: &Vec<String>, scope: &Vec<String>, user: &User, cache: &StatusCache)
    -> (r: Vec<DeploymentListItem>)
    ensures
        r@.map_values(|i: DeploymentListItem| deployment_item_view(i)) == select(
            docs@,
            |d: Resource<DeploymentConfig, DeploymentInfo>| deployment_matches(d, strings_view(custom@), strings_view(scope@), *user),
            |d: Resource<DeploymentConfig, DeploymentInfo>| (d.id@, d.name@, cached_deployment_state(cache.deployments@, d.id@)),
        ),
{
    let mut out: Vec<DeploymentListItem> = Vec::new();
    let mut i: usize = 0;
    while i < docs.len()
        invariant
            i <= docs@.len(),
            out@.map_values(|i: DeploymentListItem| deployment_item_view(i)) == select(
                docs@.subrange(0, i as int),
                |d: Resource<DeploymentConfig, DeploymentInfo>| deployment_matches(d, strings_view(custom@), strings_view(scope@), *user),
                |d: Resource<DeploymentConfig, DeploymentInfo>| (d.id@, d.name@, cached_deployment_state(cache.deployments@, d.id@)),
            ),
        decreases docs@.len() - i,
    {
        proof {
            let pre = docs@.subrange(0, i as int + 1);
            assert(pre.drop_last() =~= docs@.subrange(0, i as int));
            assert(pre.last() == docs@[i as int]);
        }
        let d = &docs[i];
        if has_all_tags(&d.tags, custom) && scope_allows(scope, &d.config.server_id) && effective(user, &d.permissions).to_rank() > 1 {
            let ghost prev = out@;
            out.push(DeploymentListItem { id: d.id.clone(), name: d.name.clone(), state: cache.deployment_state(&d.id) });
            proof {
                assert(out@.map_values(|i: DeploymentListItem| deployment_item_view(i)) =~= prev.map_values(|i: DeploymentListItem| deployment_item_view(i)).push(deployment_item_view(out@.last())));
            }
        }
        i = i + 1;
    }
    proof {
        assert(docs@.subrange(0, docs@.len() as int) =~= docs@);
    }
    out
}

fn find_repos(docs: &Vec<Resource<RepoConfig, RepoInfo>>, custom: &Vec<String>, scope: &Vec<String>, user: &User)
    -> (r: Vec<RepoListItem>)
    ensures
        r@.map_values(|i: RepoListItem| repo_item_view(i)) == select(
            docs@,
            |d: Resource<RepoConfig, RepoInfo>| repo_matches(d, strings_view(custom@), strings_view(scope@), *user),
            |d: Resource<RepoConfig, RepoInfo>| (d.id@, d.name@, d.info.last_pulled_at),
        ),
{
    let mut out: Vec<RepoListItem> = Vec::new();
    let mut i: usize = 0;
    while i < docs.len()
        invariant
            i <= docs@.len(),
            out@.map_values(|i: RepoListItem| repo_item_view(i)) == select(
                docs@.subrange(0, i as int),
                |d: Resource<RepoConfig, RepoInfo>| repo_matches(d, strings_view(custom@), strings_view(scope@), *user),
                |d: Resource<RepoConfig, RepoInfo>| (d.id@, d.name@, d.info.last_pulled_at),
            ),
        decreases docs@.len() - i,
    {
        proof {
            let pre = docs@.subrange(0, i as int + 1);
            assert(pre.drop_last() =~= docs@.subrange(0, i as int));
            assert(pre.last() == docs@[i as int]);
        }
        let d = &docs[i];
        if has_all_tags(&d.tags, custom) && scope_allows(scope, &d.config.server_id) && effective(user, &d.permissions).to_rank() > 1 {
            let ghost prev = out@;
            out.push(RepoListItem { id: d.id.clone(), name: d.name.clone(), last_pulled_at: d.info.last_pulled_at });
            proof {
                assert(out@.map_values(|i: RepoListItem| repo_item_view(i)) =~= prev.map_values(|i: RepoListItem| repo_item_view(i)).push(repo_item_view(out@.last())));
            }
        }
        i = i + 1;
    }
    proof {
        assert(docs@.subrange(0, docs@.len() as int) =~= docs@);
    }
    out
}

fn find_builds(docs: &Vec<Resource<BuildConfig, BuildInfo>>, custom: &Vec<String>, scope: &Vec<String>, user: &User, builders: &Collection<BuilderConfig, BuilderInfo>)
    -> (r: Vec<BuildListItem>)
    requires
        builders.wf(),
    ensures
        r@.map_values(|i: BuildListItem| build_item_view(i)) == select(
            docs@,
            |d: Resource<BuildConfig, BuildInfo>| build_matches(d, *builders, strings_view(custom@), strings_view(scope@), *user),
            |d: Resource<BuildConfig, BuildInfo>| (d.id@, d.name@, d.info.last_built_at, d.config.version),
        ),
{
    let mut out: Vec<BuildListItem> = Vec::new();
    let mut i: usize = 0;
    while i < docs.len()
        invariant
            builders.wf(),
            i <= docs@.len(),
            out@.map_values(|i: BuildListItem| build_item_view(i)) == select(
                docs@.subrange(0, i as int),
                |d: Resource<BuildConfig, BuildInfo>| build_matches(d, *builders, strings_view(custom@), strings_view(scope@), *user),
                |d: Resource<BuildConfig, BuildInfo>| (d.id@, d.name@, d.info.last_built_at, d.config.version),
            ),
        decreases docs@.len() - i,
    {
        proof {
            let pre = docs@.subrange(0, i as int + 1);
            assert(pre.drop_last() =~= docs@.subrange(0, i as int));
            assert(pre.last() == docs@[i as int]);
        }
        let d = &docs[i];
        if has_all_tags(&d.tags, custom) && builder_allows(builders, &d.config.builder_id, scope) && effective(user, &d.permissions).to_rank() > 1 {
            let ghost prev = out@;
            out.push(BuildListItem { id: d.id.clone(), name: d.name.clone(), last_built_at: d.info.last_built_at, version: d.config.version });
            proof {
                assert(out@.map_values(|i: BuildListItem| build_item_view(i)) =~= prev.map_values(|i: BuildListItem| build_item_view(i)).push(build_item_view(out@.last())));
            }
        }
        i = i + 1;
    }
    proof {
        assert(docs@.subrange(0, docs@.len() as int) =~= docs@);
    }
    out
}

/// What `find_resources` promises: for each searched type, the matches of
/// that type in store order; nothing for the others.
pub open spec fn find_outcome(db: Database, tags: Seq<Tag>, user: User, cache: StatusCache, r: FindResourcesResponse) -> bool {
    let (custom, scope, types) = (custom_ids_of(tags), server_ids_of(tags), searched_types(tags));
    &&& r.servers@.map_values(|i: ServerListItem| server_item_view(i)) == (if types.contains(ResourceTargetVariant::Server) {
        select(
            db.servers.docs@,
            |d: Resource<ServerConfig, ServerInfo>| server_matches(d, custom, scope, user),
            |d: Resource<ServerConfig, ServerInfo>| (d.id@, d.name@, cached_server_status(cache.servers@, d.id@)),
        )
    } else {
        Seq::empty()
    })
    &&& r.deployments@.map_values(|i: DeploymentListItem| deployment_item_view(i)) == (if types.contains(ResourceTargetVariant::Deployment) {
        select(
            db.deployments.docs@,
            |d: Resource<DeploymentConfig, DeploymentInfo>| deployment_matches(d, custom, scope, user),
            |d: Resource<DeploymentConfig, DeploymentInfo>| (d.id@, d.name@, cached_deployment_state(cache.deployments@, d.id@)),
        )
    } else {
        Seq::empty()
    })
    &&& r.builds@.map_values(|i: BuildListItem| build_item_view(i)) == (if types.contains(ResourceTargetVariant::Build) {
        select(
            db.builds.docs@,
            |d: Resource<BuildConfig, BuildInfo>| build_matches(d, db.builders, custom, scope, user),
            |d: Resource<BuildConfig, BuildInfo>| (d.id@, d.name@, d.info.last_built_at, d.config.version),
        )
    } else {
        Seq::empty()
    })
    &&& r.repos@.map_values(|i: RepoListItem| repo_item_view(i)) == (if types.contains(ResourceTargetVariant::Repo) {
        select(
            db.repos.docs@,
            |d: Resource<RepoConfig, RepoInfo>| repo_matches(d, custom, scope, user),
            |d: Resource<RepoConfig, RepoInfo>| (d.id@, d.name@, d.info.last_pulled_at),
        )
    } else {
        Seq::empty()
    })
}

/// Finds the resources that carry every custom tag, sit within the server
/// scope and are visible to `user`, decorated with their cached status.
pub fn find_resources(db: &Database, tags: Vec<Tag>, user: &User, cache: &StatusCache) -> (r: FindResourcesResponse)
    requires
        db.wf(),
    ensures
        find_outcome(*db, tags@, *user, *cache, r),
{
    let ghost tv = tags@;
    let sep = seperate_tags(tags);
    let mut response = FindResourcesResponse {
        servers: Vec::new(),
        deployments: Vec::new(),
        builds: Vec::new(),
        repos: Vec::new(),
    };
    assert(response.servers@.map_values(|i: ServerListItem| server_item_view(i)) =~= Seq::empty());
    assert(response.deployments@.map_values(|i: DeploymentListItem| deployment_item_view(i)) =~= Seq::empty());
    assert(response.builds@.map_values(|i: BuildListItem| build_item_view(i)) =~= Seq::empty());
    assert(response.repos@.map_values(|i: RepoListItem| repo_item_view(i)) =~= Seq::empty());
    if contains_type(&sep.resource_types, ResourceTargetVariant::Server) {
        response.servers = find_servers(&db.servers.docs, &sep.custom_tag_ids, &sep.server_ids, user, cache);
    }
    if contains_type(&sep.resource_types, ResourceTargetVariant::Deployment) {
        response.deployments = find_deployments(&db.deployments.docs, &sep.custom_tag_ids, &sep.server_ids, user, cache);
    }
    if contains_type(&sep.resource_types, ResourceTargetVariant::Build) {
        response.builds = find_builds(&db.builds.docs, &sep.custom_tag_ids, &sep.server_ids, user, &db.builders);
    }
    if contains_type(&sep.resource_types, ResourceTargetVariant::Repo) {
        response.repos = find_repos(&db.repos.docs, &sep.custom_tag_ids, &sep.server_ids, user);
    }
    response
}

/// Two selections with filters that agree on every document are equal.
pub proof fn lemma_select_ext<C, I, T>(
    docs: Seq<Resource<C, I>>,
    k1: spec_fn(Resource<C, I>) -> bool,
    k2: spec_fn(Resource<C, I>) -> bool,
    f: spec_fn(Resource<C, I>) -> T,
)
    requires
        forall|d: Resource<C, I>| #[trigger] k1(d) == k2(d),
    ensures
        select(docs, k1, f) == select(docs, k2, f),
    decreases docs.len(),
{
    if docs.len() > 0 {
        lemma_select_ext(docs.drop_last(), k1, k2, f);
    }
}

/// A search without tags covers servers, builds, deployments and repos,
/// and keeps exactly what the permission filter of each type lets through.
pub proof fn lemma_untagged_search(db: Database, user: User, cache: StatusCache, r: FindResourcesResponse)
    requires
        find_outcome(db, Seq::empty(), user, cache, r),
    ensures
        searched_types(Seq::empty()) == all_resource_types(),
        r.servers@.map_values(|i: ServerListItem| server_item_view(i)) == select(
            db.servers.docs@,
            |d: Resource<ServerConfig, ServerInfo>| effective_level(user, d.permissions).rank() > PermissionLevel::NoAccess.rank(),
            |d: Resource<ServerConfig, ServerInfo>| (d.id@, d.name@, cached_server_status(cache.servers@, d.id@)),
        ),
        r.deployments@.map_values(|i: DeploymentListItem| deployment_item_view(i)) == select(
            db.deployments.docs@,
            |d: Resource<DeploymentConfig, DeploymentInfo>| effective_level(user, d.permissions).rank() > PermissionLevel::Read.rank(),
            |d: Resource<DeploymentConfig, DeploymentInfo>| (d.id@, d.name@, cached_deployment_state(cache.deployments@, d.id@)),
        ),
        r.builds@.map_values(|i: BuildListItem| build_item_view(i)) == select(
            db.builds.docs@,
            |d: Resource<BuildConfig, BuildInfo>| effective_level(user, d.permissions).rank() > PermissionLevel::Read.rank(),
            |d: Resource<BuildConfig, BuildInfo>| (d.id@, d.name@, d.info.last_built_at, d.config.version),
        ),
        r.repos@.map_values(|i: RepoListItem| repo_item_view(i)) == select(
            db.repos.docs@,
            |d: Resource<RepoConfig, RepoInfo>| effective_level(user, d.permissions).rank() > PermissionLevel::Read.rank(),
            |d: Resource<RepoConfig, RepoInfo>| (d.id@, d.name@, d.info.last_pulled_at),
        ),
{
    let e: Seq<Tag> = Seq::empty();
    let none: Seq<Seq<char>> = Seq::empty();
    assert(custom_ids_of(e) == none);
    assert(server_ids_of(e) == none);
    assert(named_types(e).len() == 0);
    let all = all_resource_types();
    assert(all[0] == ResourceTargetVariant::Server);
    assert(all[1] == ResourceTargetVariant::Build);
    assert(all[2] == ResourceTargetVariant::Deployment);
    assert(all[3] == ResourceTargetVariant::Repo);
    assert(all.contains(ResourceTargetVariant::Server));
    assert(all.contains(ResourceTargetVariant::Build));
    assert(all.contains(ResourceTargetVariant::Deployment));
    assert(all.contains(ResourceTargetVariant::Repo));
    lemma_select_ext(
        db.servers.docs@,
        |d: Resource<ServerConfig, ServerInfo>| server_matches(d, none, none, user),
        |d: Resource<ServerConfig, ServerInfo>| effective_level(user, d.permissions).rank() > PermissionLevel::NoAccess.rank(),
        |d: Resource<ServerConfig, ServerInfo>| (d.id@, d.name@, cached_server_status(cache.servers@, d.id@)),
    );
    lemma_select_ext(
        db.deployments.docs@,
        |d: Resource<DeploymentConfig, DeploymentInfo>| deployment_matches(d, none, none, user),
        |d: Resource<DeploymentConfig, DeploymentInfo>| effective_level(user, d.permissions).rank() > PermissionLevel::Read.rank(),
        |d: Resource<DeploymentConfig, DeploymentInfo>| (d.id@, d.name@, cached_deployment_state(cache.deployments@, d.id@)),
    );
    lemma_select_ext(
        db.builds.docs@,
        |d: Resource<BuildConfig, BuildInfo>| build_matches(d, db.builders, none, none, user),
        |d: Resource<BuildConfig, BuildInfo>| effective_level(user, d.permissions).rank() > PermissionLevel::Read.rank(),
        |d: Resource<BuildConfig, BuildInfo>| (d.id@, d.name@, d.info.last_built_at, d.config.version),
    );
    lemma_select_ext(
        db.repos.docs@,
        |d: Resource<RepoConfig, RepoInfo>| repo_matches(d, none, none, user),
        |d: Resource<RepoConfig, RepoInfo>| effective_level(user, d.permissions).rank() > PermissionLevel::Read.rank(),
        |d: Resource<RepoConfig, RepoInfo>| (d.id@, d.name@, d.info.last_pulled_at),
    );
}

/// A container the agent on a server reports.
#[derive(Clone, Debug)]
pub struct ContainerSummary {
    pub name: String,
    pub state: DeploymentState,
}

/// State of the container named `name`; none means `NotDeployed`.
pub open spec fn container_state(containers: Seq<ContainerSummary>, name: Seq<char>) -> DeploymentState
    decreases containers.len(),
{
    if containers.len() == 0 {
        DeploymentState::NotDeployed
    } else if containers[0].name@ == name {
        containers[0].state
    } else {
        container_state(containers.drop_first(), name)
    }
}

fn find_container_state(containers: &Vec<ContainerSummary>, name: &String) -> (r: DeploymentState)
    ensures
        r == container_state(containers@, name@),
{
    let mut i: usize = 0;
    proof {
        assert(containers@.subrange(0, containers@.len() as int) =~= containers@);
    }
    while i < containers.len()
        invariant
            i <= containers@.len(),
            container_state(containers@.subrange(i as int, containers@.len() as int), name@)
                == container_state(containers@, name@),
        decreases containers@.len() - i,
    {
        let ghost rest = containers@.subrange(i as int, containers@.len() as int);
        proof {
            assert(rest.drop_first() =~= containers@.subrange(i + 1, containers@.len() as int));
        }
        if containers[i].name == *name {
            return containers[i].state;
        }
        i = i + 1;
    }
    DeploymentState::NotDeployed
}

pub open spec fn deployment_entry_view(e: DeploymentStatusEntry) -> (Seq<char>, DeploymentState) {
    (e.id@, e.state)
}

/// The states of the deployments on server `server_id`, read from the
/// containers its agent reports: a deployment's container bears its name.
pub fn deployment_states_on_server(
    deployments: &Vec<Resource<DeploymentConfig, DeploymentInfo>>,
    server_id: &String,
    containers: &Vec<ContainerSummary>,
) -> (r: Vec<DeploymentStatusEntry>)
    ensures
        r@.map_values(|e: DeploymentStatusEntry| deployment_entry_view(e)) == select(
            deployments@,
            |d: Resource<DeploymentConfig, DeploymentInfo>| d.config.server_id@ == server_id@,
            |d: Resource<DeploymentConfig, DeploymentInfo>| (d.id@, container_state(containers@, d.name@)),
        ),
{
    let mut out: Vec<DeploymentStatusEntry> = Vec::new();
    let mut i: usize = 0;
    while i < deployments.len()
        invariant
            i <= deployments@.len(),
            out@.map_values(|e: DeploymentStatusEntry| deployment_entry_view(e)) == select(
                deployments@.subrange(0, i as int),
                |d: Resource<DeploymentConfig, DeploymentInfo>| d.config.server_id@ == server_id@,
                |d: Resource<DeploymentConfig, DeploymentInfo>| (d.id@, container_state(containers@, d.name@)),
            ),
        decreases deployments@.len() - i,
    {
        proof {
            let pre = deployments@.subrange(0, i as int + 1);
            assert(pre.drop_last() =~= deployments@.subrange(0, i as int));
            assert(pre.last() == deployments@[i as int]);
        }
        let d = &deployments[i];
        if d.config.server_id == *server_id {
            let ghost prev = out@;
            out.push(DeploymentStatusEntry { id: d.id.clone(), state: find_container_state(containers, &d.name) });
            assert(out@.map_values(|e: DeploymentStatusEntry| deployment_entry_view(e)) =~= prev.map_values(
                |e: DeploymentStatusEntry| deployment_entry_view(e),
            ).push(deployment_entry_view(out@.last())));
        }
        i = i + 1;
    }
    assert(deployments@.subrange(0, deployments@.len() as int) =~= deployments@);
    out
}

pub proof fn lemma_server_status_after_set(entries: Seq<ServerStatusEntry>, i: int, e: ServerStatusEntry, y: Seq<char>)
    requires
        0 <= i < entries.len(),
        entries[i].id@ == e.id@,
        forall|j: int| 0 <= j < i ==> (#[trigger] entries[j]).id@ != e.id@,
    ensures
        cached_server_status(entries.update(i, e), y) == (if y == e.id@ {
            e.status
        } else {
            cached_server_status(entries, y)
        }),
    decreases i,
{
    let s = entries.update(i, e);
    if i == 0 {
        assert(s.drop_first() =~= entries.drop_first());
    } else {
        assert(s.drop_first() =~= entries.drop_first().update(i - 1, e));
        assert forall|j: int| 0 <= j < i - 1 implies (#[trigger] entries.drop_first()[j]).id@ != e.id@ by {
            assert(entries.drop_first()[j] == entries[j + 1]);
        }
        lemma_server_status_after_set(entries.drop_first(), i - 1, e, y);
    }
}

pub proof fn lemma_server_status_after_push(entries: Seq<ServerStatusEntry>, e: ServerStatusEntry, y: Seq<char>)
    requires
        forall|j: int| 0 <= j < entries.len() ==> (#[trigger] entries[j]).id@ != e.id@,
    ensures
        cached_server_status(entries.push(e), y) == (if y == e.id@ {
            e.status
        } else {
            cached_server_status(entries, y)
        }),
    decreases entries.len(),
{
    let s = entries.push(e);
    if entries.len() == 0 {
        assert(s[0] == e);
        assert(s.drop_first() =~= Seq::<ServerStatusEntry>::empty());
    } else {
        assert(s[0] == entries[0]);
        assert(s.drop_first() =~= entries.drop_first().push(e));
        assert forall|j: int| 0 <= j < entries.drop_first().len() implies (#[trigger] entries.drop_first()[j]).id@ != e.id@ by {
            assert(entries.drop_first()[j] == entries[j + 1]);
        }
        lemma_server_status_after_push(entries.drop_first(), e, y);
    }
}

impl StatusCache {
    /// Records the outcome of probing server `id`.
    pub fn set_server_status(&mut self, id: String, status: ServerStatus)
        ensures
            final(self).deployments == old(self).deployments,
            cached_server_status(final(self).servers@, id@) == status,
            forall|y: Seq<char>| y != id@ ==> cached_server_status(final(self).servers@, y)
                == cached_server_status(old(self).servers@, y),
    {
        let mut i: usize = 0;
        while i < self.servers.len()
            invariant
                self.servers@ == old(self).servers@,
                self.deployments == old(self).deployments,
                i <= self.servers@.len(),
                forall|j: int| 0 <= j < i ==> (#[trigger] self.servers@[j]).id@ != id@,
            decreases self.servers@.len() - i,
        {
            if self.servers[i].id == id {
                let e = ServerStatusEntry { id, status };
                let ghost before = self.servers@;
                self.servers.set(i, e);
                proof {
                    assert forall|y: Seq<char>| true implies cached_server_status(self.servers@, y) == (if y == e.id@ {
                        e.status
                    } else {
                        cached_server_status(before, y)
                    }) by {
                        lemma_server_status_after_set(before, i as int, e, y);
                    }
                }
                return;
            }
            i = i + 1;
        }
        let e = ServerStatusEntry { id, status };
        let ghost before = self.servers@;
        self.servers.push(e);
        proof {
            assert forall|y: Seq<char>| true implies cached_server_status(self.servers@, y) == (if y == e.id@ {
                e.status
            } else {
                cached_server_status(before, y)
            }) by {
                lemma_server_status_after_push(before, e, y);
            }
        }
    }

    /// Replaces the whole deployment snapshot.
    pub fn set_deployment_states(&mut self, entries: Vec<DeploymentStatusEntry>)
        ensures
            final(self).servers == old(self).servers,
            final(self).deployments@ == entries@,
    {
        self.deployments = entries;
    }
}

/// Filters of a build listing; an empty list or a zero time filters
/// nothing.
pub struct BuildQuerySpecifics {
    pub builder_ids: Vec<String>,
    pub repos: Vec<String>,
    /// Only builds last built at or after this time (milliseconds).
    pub built_since: i64,
}

/// A build passes the query's filters.
pub open spec fn build_query_matches(d: Resource<BuildConfig, BuildInfo>, builder_ids: Seq<Seq<char>>, repos: Seq<Seq<char>>, built_since: i64) -> bool {
    &&& (builder_ids.len() == 0 || builder_ids.contains(d.config.builder_id@))
    &&& (repos.len() == 0 || repos.contains(d.config.repo@))
    &&& (built_since <= 0 || d.info.last_built_at >= built_since)
}

/// The builds that pass the query and that `user` may read, in store order.
pub fn list_builds(db: &Database, query: &BuildQuerySpecifics, user: &User) -> (r: Vec<BuildListItem>)
    ensures
        r@.map_values(|i: BuildListItem| build_item_view(i)) == select(
            db.builds.docs@,
            |d: Resource<BuildConfig, BuildInfo>| build_query_matches(d, strings_view(query.builder_ids@),
                strings_view(query.repos@), query.built_since)
                && effective_level(*user, d.permissions).rank() >= PermissionLevel::Read.rank(),
            |d: Resource<BuildConfig, BuildInfo>| (d.id@, d.name@, d.info.last_built_at, d.config.version),
        ),
{
    let docs = &db.builds.docs;
    let mut out: Vec<BuildListItem> = Vec::new();
    let mut i: usize = 0;
    while i < docs.len()
        invariant
            i <= docs@.len(),
            out@.map_values(|i: BuildListItem| build_item_view(i)) == select(
                docs@.subrange(0, i as int),
                |d: Resource<BuildConfig, BuildInfo>| build_query_matches(d, strings_view(query.builder_ids@),
                    strings_view(query.repos@), query.built_since)
                    && effective_level(*user, d.permissions).rank() >= PermissionLevel::Read.rank(),
                |d: Resource<BuildConfig, BuildInfo>| (d.id@, d.name@, d.info.last_built_at, d.config.version),
            ),
        decreases docs@.len() - i,
    {
        proof {
            let pre = docs@.subrange(0, i as int + 1);
            assert(pre.drop_last() =~= docs@.subrange(0, i as int));
            assert(pre.last() == docs@[i as int]);
        }
        let d = &docs[i];
        let keep = (query.builder_ids.len() == 0 || contains_string(&query.builder_ids, &d.config.builder_id))
            && (query.repos.len() == 0 || contains_string(&query.repos, &d.config.repo))
            && (query.built_since <= 0 || d.info.last_built_at >= query.built_since)
            && effective(user, &d.permissions).to_rank() >= 1;
        if keep {
            let ghost prev = out@;
            out.push(BuildListItem {
                id: d.id.clone(),
                name: d.name.clone(),
                last_built_at: d.info.last_built_at,
                version: d.config.version,
            });
            assert(out@.map_values(|i: BuildListItem| build_item_view(i)) =~= prev.map_values(
                |i: BuildListItem| build_item_view(i),
            ).push(build_item_view(out@.last())));
        }
        i = i + 1;
    }
    assert(docs@.subrange(0, docs@.len() as int) =~= docs@);
    out
}

} // verus!
