use monitor_core::accounts::{available_accounts, builder_account_source, AccountSource};
use monitor_core::builds::{
    begin_build, create_build, finish_build, finish_clone_update, update_build, BuildHost, BuildOutcome,
    CloneOutcome, Database,
};
use monitor_core::entities::{
    BuildConfig, BuildInfo, BuilderConfig, BuilderInfo, DeploymentConfig, DeploymentInfo, DockerRunArgs,
    Operation, RepoConfig, RepoInfo, Resource, ResourceTargetVariant, ServerConfig, ServerInfo,
};
use monitor_core::ledger::{Log, UpdateStatus};
use monitor_core::permission::{PermissionEntry, PermissionLevel, PermissionsMap, User};
use monitor_core::search::{find_resources, StatusCache, Tag};
use monitor_core::store::CoreError;
use monitor_core::version::Version;

fn user(id: &str, admin: bool) -> User {
    User { id: id.to_string(), username: id.to_string(), enabled: true, admin }
}

fn grants(entries: &[(&str, PermissionLevel)]) -> PermissionsMap {
    PermissionsMap {
        entries: entries
            .iter()
            .map(|(u, l)| PermissionEntry { user_id: u.to_string(), level: *l })
            .collect(),
    }
}

fn log(stage: &str, success: bool) -> Log {
    Log { stage: stage.to_string(), std_out: None, std_err: None, success, start_ts: 0, end_ts: 0 }
}

/// Server "srv" at http://a, a server builder on it, and build "b" with
/// repo "r" on branch "main".
fn setup() -> (Database, User) {
    let admin = user("admin", true);
    let mut db = Database::new();
    let config = ServerConfig { host: "http://a".to_string(), ..ServerConfig::default() };
    db.servers
        .create("srv-id".to_string(), "srv", config, ServerInfo { reachable: true }, &admin, 1)
        .unwrap();
    db.builders
        .create(
            "builder-id".to_string(),
            "builder",
            BuilderConfig::Server { server_id: "srv-id".to_string() },
            BuilderInfo {},
            &admin,
            1,
        )
        .unwrap();
    create_build(&mut db, "b-id".to_string(), "b", "builder-id".to_string(), &admin, 2).unwrap();
    let mut build = db.builds.get(&"b-id".to_string(), &admin).unwrap().clone();
    build.config.repo = "r".to_string();
    let (uid, _) = update_build(&mut db, build, &admin, 3).unwrap();
    finish_clone_update(&mut db, uid, CloneOutcome::Cloned(vec![log("clone", true)]), 3);
    (db, admin)
}

#[test]
fn create_then_build_success() {
    let (mut db, admin) = setup();
    let id = "b-id".to_string();
    let before = db.builds.get(&id, &admin).unwrap().clone();
    assert_eq!(before.name, "b");
    assert_eq!(before.config.branch, "main");
    assert_eq!(before.config.version, Version::new(0, 0, 0));

    let job = begin_build(&mut db, &id, &admin, 10).unwrap();
    assert_eq!(job.version, Version::new(0, 0, 1));
    assert!(matches!(&job.host, BuildHost::Server(s) if s == "srv-id"));
    let started = &db.updates.updates[job.update_id];
    assert_eq!(started.status, UpdateStatus::InProgress);
    assert_eq!(started.operation, Operation::BuildBuild);

    finish_build(&mut db, &id, &job, BuildOutcome::Built(vec![log("build", true)]), 11);
    let after = db.builds.get(&id, &admin).unwrap();
    assert_eq!(after.config.version, Version::new(0, 0, 1));
    assert_eq!(after.info.last_built_at, 11);
    let update = &db.updates.updates[job.update_id];
    assert_eq!(update.status, UpdateStatus::Complete);
    assert!(update.success);
    assert_eq!(update.end_ts, Some(11));
    assert_eq!(update.version, Some(Version::new(0, 0, 1)));
}

#[test]
fn build_busy() {
    let (mut db, admin) = setup();
    let id = "b-id".to_string();
    let job = begin_build(&mut db, &id, &admin, 10).unwrap();
    assert_eq!(job.version, Version::new(0, 0, 1));
    finish_build(&mut db, &id, &job, BuildOutcome::Busy, 11);
    let update = &db.updates.updates[job.update_id];
    assert!(!update.success);
    assert_eq!(update.status, UpdateStatus::Complete);
    assert!(update.logs.iter().any(|l| !l.success && l.std_err.as_deref() == Some("builder busy")));
    let stored = db.builds.get(&id, &admin).unwrap();
    assert_eq!(stored.config.version, Version::new(0, 0, 0));
    assert_eq!(stored.info.last_built_at, 0);
}

#[test]
fn update_triggers_reclone() {
    let (mut db, admin) = setup();
    let id = "b-id".to_string();
    let mut build = db.builds.get(&id, &admin).unwrap().clone();
    build.config.repo = "r2".to_string();
    let (uid, reclone) = update_build(&mut db, build, &admin, 20).unwrap();
    assert!(reclone);
    {
        let update = &db.updates.updates[uid];
        assert_eq!(update.operation, Operation::UpdateBuild);
        assert_eq!(update.status, UpdateStatus::InProgress);
        assert_eq!(update.logs[0].std_out.as_deref(), Some("repo\n"));
    }
    finish_clone_update(&mut db, uid, CloneOutcome::Failed("agent unreachable".to_string()), 21);
    let update = &db.updates.updates[uid];
    assert_eq!(update.status, UpdateStatus::Complete);
    assert!(!update.success);
    assert_eq!(update.logs.len(), 2);
    assert_eq!(update.logs[1].std_err.as_deref(), Some("agent unreachable"));
    assert_eq!(db.builds.get(&id, &admin).unwrap().config.repo, "r2");
}

#[test]
fn update_with_successful_clone() {
    let (mut db, admin) = setup();
    let id = "b-id".to_string();
    let mut build = db.builds.get(&id, &admin).unwrap().clone();
    build.config.branch = "dev".to_string();
    let (uid, reclone) = update_build(&mut db, build, &admin, 20).unwrap();
    assert!(reclone);
    finish_clone_update(&mut db, uid, CloneOutcome::Cloned(vec![log("clone repo", true)]), 21);
    let update = &db.updates.updates[uid];
    assert!(update.success);
    assert_eq!(update.logs.len(), 2);
    assert_eq!(update.logs[1].stage, "clone repo");
}

fn build_doc(id: &str, name: &str, permissions: PermissionsMap) -> Resource<BuildConfig, BuildInfo> {
    Resource {
        id: id.to_string(),
        name: name.to_string(),
        permissions,
        tags: vec![],
        created_at: 0,
        updated_at: 0,
        config: BuildConfig::default(),
        info: BuildInfo { last_built_at: 0 },
    }
}

#[test]
fn non_admin_scoping() {
    let mut db = Database::new();
    let u = user("u", false);
    db.builds.create_one(build_doc("b1", "b1", grants(&[("u", PermissionLevel::Read)]))).unwrap();
    db.builds.create_one(build_doc("b2", "b2", grants(&[("other", PermissionLevel::Write)]))).unwrap();
    assert_eq!(db.builds.list_ids(&u), vec!["b1".to_string()]);
    assert_eq!(db.builds.summary(&u), 1);
    assert_eq!(db.builds.get(&"b2".to_string(), &u).err(), Some(CoreError::Forbidden));
    assert_eq!(db.builds.get(&"b1".to_string(), &u).unwrap().name, "b1");
}

#[test]
fn accounts_merging() {
    let (db, admin) = setup();
    let source = builder_account_source(&db.builders, &"builder-id".to_string(), &admin).unwrap();
    let server_id = match source {
        AccountSource::Server { server_id } => server_id,
        AccountSource::Listed { .. } => panic!("a server builder lists no accounts"),
    };
    assert_eq!(server_id, "srv-id");
    let global_github = vec!["g1".to_string()];
    let agent_github = vec!["g2".to_string(), "g1".to_string()];
    let merged = available_accounts(&global_github, &vec![], &agent_github, &vec![]);
    assert_eq!(merged.github, vec!["g1".to_string(), "g2".to_string()]);
    assert!(merged.docker.is_empty());
}

fn tagged<C, I>(mut r: Resource<C, I>, tags: &[&str]) -> Resource<C, I> {
    r.tags = tags.iter().map(|t| t.to_string()).collect();
    r
}

fn resource<C, I>(id: &str, permissions: PermissionsMap, config: C, info: I) -> Resource<C, I> {
    Resource { id: id.to_string(), name: id.to_string(), permissions, tags: vec![], created_at: 0, updated_at: 0, config, info }
}

fn repo_config(server_id: &str) -> RepoConfig {
    RepoConfig {
        server_id: server_id.to_string(),
        repo: String::new(),
        branch: "main".to_string(),
        github_account: String::new(),
        on_clone: monitor_core::entities::empty_command(),
        on_pull: monitor_core::entities::empty_command(),
    }
}

fn deployment_config(server_id: &str) -> DeploymentConfig {
    DeploymentConfig { server_id: server_id.to_string(), build_id: None, docker_run_args: DockerRunArgs::default() }
}

#[test]
fn tag_search() {
    let mut db = Database::new();
    let u = user("u", false);
    let write = || grants(&[("u", PermissionLevel::Write)]);
    let read = || grants(&[("u", PermissionLevel::Read)]);
    let server = |id: &str| resource(id, write(), ServerConfig::default(), ServerInfo { reachable: true });
    db.servers.create_one(tagged(server("srv"), &["prod"])).unwrap();
    db.servers.create_one(tagged(server("other"), &["prod"])).unwrap();
    db.servers.create_one(server("srv-untagged")).unwrap();
    db.builders
        .create_one(resource("bd", write(), BuilderConfig::Server { server_id: "srv".to_string() }, BuilderInfo {}))
        .unwrap();
    let mut on_srv = BuildConfig::default();
    on_srv.builder_id = "bd".to_string();
    db.builds
        .create_one(tagged(resource("b-prod", write(), on_srv.clone(), BuildInfo { last_built_at: 5 }), &["prod", "x"]))
        .unwrap();
    db.builds.create_one(tagged(resource("b-read", read(), on_srv.clone(), BuildInfo { last_built_at: 0 }), &["prod"])).unwrap();
    db.builds.create_one(tagged(resource("b-elsewhere", write(), BuildConfig::default(), BuildInfo { last_built_at: 0 }), &["prod"])).unwrap();
    db.deployments
        .create_one(tagged(resource("d-srv", write(), deployment_config("srv"), DeploymentInfo { is_core: false }), &["prod"]))
        .unwrap();
    db.deployments
        .create_one(tagged(resource("d-other", write(), deployment_config("other"), DeploymentInfo { is_core: false }), &["prod"]))
        .unwrap();
    db.repos.create_one(tagged(resource("r-srv", write(), repo_config("srv"), RepoInfo { last_pulled_at: 7 }), &["prod"])).unwrap();
    db.repos.create_one(resource("r-untagged", write(), repo_config("srv"), RepoInfo { last_pulled_at: 0 })).unwrap();

    let tags = vec![Tag::Custom { tag_id: "prod".to_string() }, Tag::Server { server_id: "srv".to_string() }];
    let found = find_resources(&db, tags, &u, &StatusCache::new());
    let ids = |v: Vec<String>| v;
    assert_eq!(ids(found.servers.iter().map(|i| i.id.clone()).collect()), vec!["srv".to_string()]);
    assert_eq!(ids(found.builds.iter().map(|i| i.id.clone()).collect()), vec!["b-prod".to_string()]);
    assert_eq!(found.builds[0].last_built_at, 5);
    assert_eq!(ids(found.deployments.iter().map(|i| i.id.clone()).collect()), vec!["d-srv".to_string()]);
    assert_eq!(ids(found.repos.iter().map(|i| i.id.clone()).collect()), vec!["r-srv".to_string()]);
    assert_eq!(found.repos[0].last_pulled_at, 7);
}

#[test]
fn tag_search_by_resource_type() {
    let mut db = Database::new();
    let admin = user("admin", true);
    db.servers.create("s".to_string(), "s", ServerConfig::default(), ServerInfo { reachable: true }, &admin, 0).unwrap();
    db.repos.create("r".to_string(), "r", repo_config("s"), RepoInfo { last_pulled_at: 0 }, &admin, 0).unwrap();
    let tags = vec![
        Tag::ResourceType { resource: ResourceTargetVariant::Repo },
        Tag::ResourceType { resource: ResourceTargetVariant::Builder },
    ];
    let found = find_resources(&db, tags, &admin, &StatusCache::new());
    assert!(found.servers.is_empty());
    assert_eq!(found.repos.len(), 1);
}
