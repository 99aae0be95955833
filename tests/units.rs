use monitor_core::accounts::{builder_account_source, merge_accounts, string_lt, AccountSource};
use monitor_core::builds::{
    begin_build, begin_reclone_build, create_build, delete_build, finish_build, finish_clone_update,
    get_build_check_permissions, update_build, BuildHost, BuildOutcome, CloneOutcome, Database,
};
use monitor_core::diff::{build_diff, needs_reclone, needs_redeploy, repo_needs_reclone_exec};
use monitor_core::entities::{
    BuildConfig, BuildInfo, BuilderConfig, BuilderInfo, Command, Conversion, DeploymentConfig, DockerRunArgs,
    Operation, RepoConfig, Resource, ResourceTargetVariant, ServerConfig, ServerInfo,
};
use monitor_core::ledger::{all_logs_success, Log, Update, UpdateLedger, UpdateStatus, UpdateTarget};
use monitor_core::name::to_monitor_name;
use monitor_core::permission::{effective, has_permission, PermissionEntry, PermissionLevel, PermissionsMap, User};
use monitor_core::search::{find_resources, list_builds, seperate_tags, BuildQuerySpecifics, DeploymentState, ServerStatus, ServerStatusEntry, StatusCache, Tag};
use monitor_core::store::{Collection, CoreError};
use monitor_core::version::Version;

fn user(id: &str, admin: bool) -> User {
    User { id: id.to_string(), username: id.to_string(), enabled: true, admin }
}

fn log(stage: &str, success: bool) -> Log {
    Log { stage: stage.to_string(), std_out: None, std_err: None, success, start_ts: 0, end_ts: 0 }
}

fn strings(v: &[&str]) -> Vec<String> {
    v.iter().map(|s| s.to_string()).collect()
}

#[test]
fn name_is_normalized() {
    assert_eq!(to_monitor_name("My App"), "my-app");
    assert_eq!(to_monitor_name("Web_Server-2!"), "web_server-2");
    assert_eq!(to_monitor_name("a.b/c"), "abc");
    assert_eq!(to_monitor_name(""), "");
    assert_eq!(to_monitor_name("ÄB c"), "b-c");
    assert_eq!(to_monitor_name(&to_monitor_name("Hello World")), "hello-world");
}

#[test]
fn version_increments_with_rollover() {
    let mut v = Version::new(0, 0, 0);
    v.increment();
    assert_eq!(v, Version::new(0, 0, 1));
    let mut v = Version::new(1, 2, 9);
    v.increment();
    assert_eq!(v, Version::new(1, 3, 0));
    let mut v = Version::new(1, 9, 9);
    v.increment();
    assert_eq!(v, Version::new(2, 0, 0));
    let mut v = Version::new(0, 0, 15);
    v.increment();
    assert_eq!(v, Version::new(0, 1, 0));
    let mut v = Version::new(u64::MAX, 9, 9);
    v.increment();
    assert_eq!(v, Version::new(u64::MAX, 0, 0));
    let mut v = Version::default();
    for _ in 0..23 {
        v.increment();
    }
    assert_eq!(v, Version::new(0, 2, 3));
}

#[test]
fn permission_levels() {
    let perms = PermissionsMap {
        entries: vec![
            PermissionEntry { user_id: "u".to_string(), level: PermissionLevel::Execute },
            PermissionEntry { user_id: "v".to_string(), level: PermissionLevel::Read },
        ],
    };
    assert_eq!(perms.get_user_permissions(&"u".to_string()), PermissionLevel::Execute);
    assert_eq!(perms.get_user_permissions(&"w".to_string()), PermissionLevel::NoAccess);
    assert_eq!(effective(&user("w", true), &perms), PermissionLevel::Write);
    assert!(has_permission(&user("u", false), &perms, PermissionLevel::Read));
    assert!(!has_permission(&user("v", false), &perms, PermissionLevel::Execute));
    assert!(PermissionLevel::Write.at_least(&PermissionLevel::Execute));
    assert!(!PermissionLevel::NoAccess.at_least(&PermissionLevel::Read));
    let creator = PermissionsMap::for_creator(&"c".to_string());
    assert_eq!(creator.get_user_permissions(&"c".to_string()), PermissionLevel::Write);
    assert_eq!(PermissionsMap::new().get_user_permissions(&"c".to_string()), PermissionLevel::NoAccess);
}

fn builder_db() -> (Database, User) {
    let admin = user("admin", true);
    let mut db = Database::new();
    db.servers.create("s".to_string(), "srv", ServerConfig::default(), ServerInfo { reachable: true }, &admin, 1).unwrap();
    db.builders
        .create("bd".to_string(), "bd", BuilderConfig::Server { server_id: "s".to_string() }, BuilderInfo {}, &admin, 1)
        .unwrap();
    (db, admin)
}

#[test]
fn create_reads_back_normalized_with_creator_write() {
    let (mut db, admin) = builder_db();
    let uid = create_build(&mut db, "b".to_string(), "My Build", "bd".to_string(), &admin, 5).unwrap();
    let b = db.builds.get(&"b".to_string(), &admin).unwrap();
    assert_eq!(b.name, "my-build");
    assert_eq!(b.permissions.get_user_permissions(&"admin".to_string()), PermissionLevel::Write);
    assert_eq!(b.created_at, 5);
    assert_eq!(b.updated_at, 5);
    assert_eq!(b.config.builder_id, "bd");
    let u = &db.updates.updates[uid];
    assert_eq!(u.operation, Operation::CreateBuild);
    assert!(matches!(&u.target, UpdateTarget::Build(id) if id == "b"));
    assert_eq!(u.status, UpdateStatus::Complete);
    assert!(u.success);
}

#[test]
fn create_errors() {
    let (mut db, admin) = builder_db();
    create_build(&mut db, "b".to_string(), "b", "bd".to_string(), &admin, 5).unwrap();
    assert_eq!(create_build(&mut db, "b".to_string(), "other", "bd".to_string(), &admin, 5), Err(CoreError::DuplicateKey));
    assert_eq!(create_build(&mut db, "b2".to_string(), "B", "bd".to_string(), &admin, 5), Err(CoreError::DuplicateName));
    assert_eq!(create_build(&mut db, "b3".to_string(), "x", "missing".to_string(), &admin, 5), Err(CoreError::NotFound));
    assert_eq!(
        create_build(&mut db, "b4".to_string(), "y", "bd".to_string(), &user("nobody", false), 5),
        Err(CoreError::Forbidden)
    );
    assert_eq!(db.builds.docs.len(), 1);
}

#[test]
fn update_keeps_permissions_and_creation_time() {
    let (mut db, admin) = builder_db();
    create_build(&mut db, "b".to_string(), "b", "bd".to_string(), &admin, 5).unwrap();
    let mut proposed = db.builds.get(&"b".to_string(), &admin).unwrap().clone();
    proposed.created_at = 99;
    proposed.permissions = PermissionsMap::new();
    proposed.config.use_buildx = true;
    let (uid, reclone) = update_build(&mut db, proposed, &admin, 8).unwrap();
    assert!(!reclone);
    let b = db.builds.get(&"b".to_string(), &admin).unwrap();
    assert_eq!(b.created_at, 5);
    assert_eq!(b.updated_at, 8);
    assert!(b.config.use_buildx);
    assert_eq!(b.permissions.get_user_permissions(&"admin".to_string()), PermissionLevel::Write);
    finish_clone_update(&mut db, uid, CloneOutcome::Skipped, 9);
    let u = &db.updates.updates[uid];
    assert_eq!(u.logs.len(), 1);
    assert_eq!(u.logs[0].std_out.as_deref(), Some("use_buildx\n"));
    assert!(u.success);
}

#[test]
fn update_errors() {
    let (mut db, admin) = builder_db();
    create_build(&mut db, "b".to_string(), "b", "bd".to_string(), &admin, 5).unwrap();
    create_build(&mut db, "c".to_string(), "c", "bd".to_string(), &admin, 5).unwrap();
    let mut proposed = db.builds.get(&"b".to_string(), &admin).unwrap().clone();
    proposed.name = "c".to_string();
    assert_eq!(update_build(&mut db, proposed.clone(), &admin, 6), Err(CoreError::DuplicateName));
    proposed.name = "b".to_string();
    assert_eq!(update_build(&mut db, proposed.clone(), &user("x", false), 6), Err(CoreError::Forbidden));
    proposed.id = "zzz".to_string();
    assert_eq!(update_build(&mut db, proposed, &admin, 6), Err(CoreError::NotFound));
}

#[test]
fn delete_twice_is_not_found() {
    let (mut db, admin) = builder_db();
    create_build(&mut db, "b".to_string(), "b", "bd".to_string(), &admin, 5).unwrap();
    let id = "b".to_string();
    assert_eq!(delete_build(&mut db, &id, &user("x", false), log("delete repo", true), 6).err(), Some(CoreError::Forbidden));
    let (deleted, uid) = delete_build(&mut db, &id, &admin, log("delete repo", false), 6).unwrap();
    assert_eq!(deleted.name, "b");
    let u = &db.updates.updates[uid];
    assert_eq!(u.operation, Operation::DeleteBuild);
    assert!(matches!(u.target, UpdateTarget::System));
    assert_eq!(u.logs.len(), 2);
    assert_eq!(u.logs[1].std_out.as_deref(), Some("deleted build b"));
    assert!(!u.success);
    assert_eq!(delete_build(&mut db, &id, &admin, log("delete repo", true), 7).err(), Some(CoreError::NotFound));
    assert_eq!(db.builds.get(&id, &admin).err(), Some(CoreError::NotFound));
}

#[test]
fn build_unreachable_and_failed_stage() {
    let (mut db, admin) = builder_db();
    create_build(&mut db, "b".to_string(), "b", "bd".to_string(), &admin, 5).unwrap();
    let id = "b".to_string();
    let job = begin_build(&mut db, &id, &admin, 10).unwrap();
    finish_build(&mut db, &id, &job, BuildOutcome::Unreachable("timed out".to_string()), 11);
    assert!(!db.updates.updates[job.update_id].success);
    assert_eq!(db.updates.updates[job.update_id].logs[0].std_err.as_deref(), Some("timed out"));
    let job = begin_build(&mut db, &id, &admin, 12).unwrap();
    finish_build(&mut db, &id, &job, BuildOutcome::Built(vec![log("clone", true), log("build", false)]), 13);
    assert!(!db.updates.updates[job.update_id].success);
    assert_eq!(db.builds.get(&id, &admin).unwrap().config.version, Version::new(0, 0, 0));
}

#[test]
fn repeated_builds_apply_increment_each_time() {
    let (mut db, admin) = builder_db();
    create_build(&mut db, "b".to_string(), "b", "bd".to_string(), &admin, 5).unwrap();
    let id = "b".to_string();
    for k in 0..12 {
        let job = begin_build(&mut db, &id, &admin, 10 + k).unwrap();
        finish_build(&mut db, &id, &job, BuildOutcome::Built(vec![log("build", true)]), 10 + k);
    }
    assert_eq!(db.builds.get(&id, &admin).unwrap().config.version, Version::new(0, 1, 2));
}

#[test]
fn build_needs_write_and_host() {
    let (mut db, admin) = builder_db();
    create_build(&mut db, "b".to_string(), "b", "bd".to_string(), &admin, 5).unwrap();
    let id = "b".to_string();
    assert_eq!(begin_build(&mut db, &id, &user("x", false), 10).err(), Some(CoreError::Forbidden));
    assert_eq!(begin_build(&mut db, &"nope".to_string(), &admin, 10).err(), Some(CoreError::NotFound));
    db.servers.delete(&"s".to_string(), &admin).unwrap();
    assert_eq!(begin_build(&mut db, &id, &admin, 10).err(), Some(CoreError::NotFound));
    assert!(get_build_check_permissions(&db, &id, &admin, PermissionLevel::Write).is_ok());
    assert_eq!(
        get_build_check_permissions(&db, &id, &user("x", false), PermissionLevel::Read).err(),
        Some(CoreError::Forbidden)
    );
}

#[test]
fn aws_builder_and_reclone() {
    let admin = user("admin", true);
    let mut db = Database::new();
    let aws = BuilderConfig::Aws {
        region: "us-east-1".to_string(),
        instance_type: "t3".to_string(),
        github_accounts: strings(&["z", "a"]),
        docker_accounts: strings(&["d"]),
    };
    db.builders.create("aws".to_string(), "aws", aws, BuilderInfo {}, &admin, 1).unwrap();
    create_build(&mut db, "b".to_string(), "b", "aws".to_string(), &admin, 2).unwrap();
    let job = begin_build(&mut db, &"b".to_string(), &admin, 3).unwrap();
    assert!(matches!(job.host, BuildHost::Aws));
    let (uid, host) = begin_reclone_build(&mut db, &"b".to_string(), &admin, 4).unwrap();
    assert!(matches!(host, BuildHost::Aws));
    assert_eq!(db.updates.updates[uid].operation, Operation::RecloneBuild);
    finish_clone_update(&mut db, uid, CloneOutcome::Cloned(vec![log("clone", true)]), 5);
    assert!(db.updates.updates[uid].success);
    match builder_account_source(&db.builders, &"aws".to_string(), &admin).unwrap() {
        AccountSource::Listed { github, docker } => {
            assert_eq!(github, strings(&["z", "a"]));
            assert_eq!(docker, strings(&["d"]));
        }
        AccountSource::Server { .. } => panic!("a cloud builder lists its accounts"),
    }
    assert!(matches!(
        builder_account_source(&db.builders, &"aws".to_string(), &user("x", false)),
        Err(CoreError::Forbidden)
    ));
    assert!(matches!(builder_account_source(&db.builders, &"none".to_string(), &admin), Err(CoreError::NotFound)));
}

#[test]
fn accounts_sorted_and_unique() {
    let merged = merge_accounts(&strings(&["b", "a", "b"]), &strings(&["c", "a", "ab", ""]));
    assert_eq!(merged, strings(&["", "a", "ab", "b", "c"]));
    assert!(merge_accounts(&vec![], &vec![]).is_empty());
    assert!(string_lt(&"a".to_string(), &"b".to_string()));
    assert!(string_lt(&"a".to_string(), &"ab".to_string()));
    assert!(!string_lt(&"b".to_string(), &"ab".to_string()));
    assert!(!string_lt(&"a".to_string(), &"a".to_string()));
    assert!(string_lt(&"Z".to_string(), &"a".to_string()));
}

fn build_config(repo: &str) -> BuildConfig {
    let mut c = BuildConfig::default();
    c.repo = repo.to_string();
    c
}

#[test]
fn reclone_and_redeploy_decisions() {
    let a = build_config("r");
    let mut b = build_config("r");
    assert!(!needs_reclone(&a, &b));
    b.docker_account = "d".to_string();
    assert!(!needs_reclone(&a, &b));
    b.on_clone = Command { path: ".".to_string(), command: "make".to_string() };
    assert!(needs_reclone(&a, &b));
    assert_eq!(build_diff(&a, &b), "docker_account\non_clone\n");
    assert_eq!(build_diff(&a, &a), "");

    let d1 = DeploymentConfig { server_id: "s".to_string(), build_id: None, docker_run_args: DockerRunArgs::default() };
    let mut d2 = d1.clone();
    d2.server_id = "t".to_string();
    assert!(!needs_redeploy(&d1, &d2));
    d2.docker_run_args.ports.push(Conversion { local: "80".to_string(), container: "8080".to_string() });
    assert!(needs_redeploy(&d1, &d2));
    let mut d3 = d1.clone();
    d3.docker_run_args.restart = "always".to_string();
    assert!(needs_redeploy(&d1, &d3));

    let r1 = RepoConfig {
        server_id: "s".to_string(),
        repo: "r".to_string(),
        branch: "main".to_string(),
        github_account: String::new(),
        on_clone: monitor_core::entities::empty_command(),
        on_pull: monitor_core::entities::empty_command(),
    };
    let mut r2 = r1.clone();
    r2.on_pull.command = "git pull".to_string();
    assert!(!repo_needs_reclone_exec(&r1, &r2));
    r2.branch = "dev".to_string();
    assert!(repo_needs_reclone_exec(&r1, &r2));
}

#[test]
fn defaults() {
    let run = DockerRunArgs::default();
    assert_eq!(run.network, "bridge");
    assert_eq!(run.restart, "no");
    assert!(run.image.is_none());
    let build = BuildConfig::default();
    assert_eq!(build.branch, "main");
    assert_eq!(build.build_path, ".");
    assert_eq!(build.dockerfile_path, "Dockerfile");
    let server = ServerConfig::default();
    assert_eq!((server.cpu_alert, server.mem_alert, server.disk_alert), (50, 75, 75));
}

#[test]
fn ledger_lifecycle() {
    let mut ledger = UpdateLedger::new();
    let mut u = Update::in_progress(Operation::PruneImagesServer, UpdateTarget::Server("s".to_string()), &"op".to_string(), 3);
    u.logs.push(Log::simple("prune", "ok".to_string(), 3));
    let id = ledger.add_update(u);
    assert_eq!(id, 0);
    assert_eq!(ledger.updates[0].status, UpdateStatus::InProgress);
    assert_eq!(ledger.updates[0].end_ts, None);
    ledger.complete(id, vec![Log::error("prune", "failed".to_string(), 4)], 5);
    let done = &ledger.updates[0];
    assert_eq!(done.status, UpdateStatus::Complete);
    assert_eq!(done.end_ts, Some(5));
    assert!(!done.success);
    assert_eq!(done.logs.len(), 2);
    assert!(all_logs_success(&vec![log("a", true), log("b", true)]));
    assert!(all_logs_success(&vec![]));
    assert!(!all_logs_success(&vec![log("a", true), log("b", false)]));
    let mut lone = Update::in_progress(Operation::StopDeployment, UpdateTarget::Deployment("d".to_string()), &"op".to_string(), 1);
    lone.finalize(2);
    assert!(lone.success);
    assert_eq!(lone.end_ts, Some(2));
}

#[test]
fn tags_are_separated() {
    let sep = seperate_tags(vec![]);
    assert_eq!(
        sep.resource_types,
        vec![ResourceTargetVariant::Server, ResourceTargetVariant::Build, ResourceTargetVariant::Deployment, ResourceTargetVariant::Repo]
    );
    let sep = seperate_tags(vec![
        Tag::ResourceType { resource: ResourceTargetVariant::Repo },
        Tag::Custom { tag_id: "t".to_string() },
        Tag::ResourceType { resource: ResourceTargetVariant::System },
        Tag::ResourceType { resource: ResourceTargetVariant::Repo },
        Tag::Server { server_id: "s".to_string() },
        Tag::ResourceType { resource: ResourceTargetVariant::Build },
    ]);
    assert_eq!(sep.resource_types, vec![ResourceTargetVariant::Repo, ResourceTargetVariant::Build]);
    assert_eq!(sep.custom_tag_ids, strings(&["t"]));
    assert_eq!(sep.server_ids, strings(&["s"]));
    let only_excluded = seperate_tags(vec![Tag::ResourceType { resource: ResourceTargetVariant::Builder }]);
    assert_eq!(only_excluded.resource_types.len(), 4);
}

fn grant(id: &str, level: PermissionLevel) -> PermissionsMap {
    PermissionsMap { entries: vec![PermissionEntry { user_id: id.to_string(), level }] }
}

#[test]
fn untagged_search_filters_by_permission() {
    let mut servers: Collection<ServerConfig, ServerInfo> = Collection::new();
    let doc = |id: &str, p: PermissionsMap| Resource {
        id: id.to_string(),
        name: id.to_string(),
        permissions: p,
        tags: vec![],
        created_at: 0,
        updated_at: 0,
        config: ServerConfig::default(),
        info: ServerInfo { reachable: true },
    };
    servers.create_one(doc("s-read", grant("u", PermissionLevel::Read))).unwrap();
    servers.create_one(doc("s-none", grant("v", PermissionLevel::Write))).unwrap();
    let mut db = Database::new();
    db.servers = servers;
    let bdoc = |id: &str, p: PermissionsMap| Resource {
        id: id.to_string(),
        name: id.to_string(),
        permissions: p,
        tags: vec![],
        created_at: 0,
        updated_at: 0,
        config: BuildConfig::default(),
        info: BuildInfo { last_built_at: 0 },
    };
    db.builds.create_one(bdoc("b-read", grant("u", PermissionLevel::Read))).unwrap();
    db.builds.create_one(bdoc("b-exec", grant("u", PermissionLevel::Execute))).unwrap();
    let cache = StatusCache {
        servers: vec![ServerStatusEntry { id: "s-read".to_string(), status: ServerStatus::Healthy }],
        deployments: vec![],
    };
    let u = user("u", false);
    let found = find_resources(&db, vec![], &u, &cache);
    assert_eq!(found.servers.len(), 1);
    assert_eq!(found.servers[0].id, "s-read");
    assert_eq!(found.servers[0].status, ServerStatus::Healthy);
    assert_eq!(found.builds.len(), 1);
    assert_eq!(found.builds[0].id, "b-exec");
    assert!(found.deployments.is_empty() && found.repos.is_empty());
    assert_eq!(cache.server_status(&"other".to_string()), ServerStatus::NotOk);
    assert_eq!(cache.deployment_state(&"d".to_string()), DeploymentState::Unknown);
    let everything = find_resources(&db, vec![], &user("root", true), &cache);
    assert_eq!(everything.servers.len(), 2);
    assert_eq!(everything.builds.len(), 2);
}

#[test]
fn summary_and_listing_for_admin_and_user() {
    let (db, admin) = builder_db();
    assert_eq!(db.servers.summary(&admin), 1);
    assert_eq!(db.servers.summary(&user("x", false)), 0);
    assert!(db.servers.list_ids(&user("x", false)).is_empty());
    assert_eq!(db.builders.list_ids(&admin), strings(&["bd"]));
}

#[test]
fn build_listing_applies_query_and_scope() {
    let (mut db, admin) = builder_db();
    db.builders
        .create("bd2".to_string(), "bd2", BuilderConfig::Server { server_id: "s".to_string() }, BuilderInfo {}, &admin, 1)
        .unwrap();
    create_build(&mut db, "b1".to_string(), "b1", "bd".to_string(), &admin, 5).unwrap();
    create_build(&mut db, "b2".to_string(), "b2", "bd2".to_string(), &admin, 5).unwrap();
    let job = begin_build(&mut db, &"b1".to_string(), &admin, 50).unwrap();
    finish_build(&mut db, &"b1".to_string(), &job, BuildOutcome::Built(vec![log("build", true)]), 50);
    let all = BuildQuerySpecifics { builder_ids: vec![], repos: vec![], built_since: 0 };
    assert_eq!(list_builds(&db, &all, &admin).len(), 2);
    let by_builder = BuildQuerySpecifics { builder_ids: strings(&["bd2"]), repos: vec![], built_since: 0 };
    let items = list_builds(&db, &by_builder, &admin);
    assert_eq!(items.len(), 1);
    assert_eq!(items[0].id, "b2");
    let recent = BuildQuerySpecifics { builder_ids: vec![], repos: vec![], built_since: 40 };
    let items = list_builds(&db, &recent, &admin);
    assert_eq!(items.len(), 1);
    assert_eq!(items[0].id, "b1");
    assert_eq!(items[0].version, Version::new(0, 0, 1));
    let by_repo = BuildQuerySpecifics { builder_ids: vec![], repos: strings(&["none"]), built_since: 0 };
    assert!(list_builds(&db, &by_repo, &admin).is_empty());
    assert!(list_builds(&db, &all, &user("x", false)).is_empty());
}
