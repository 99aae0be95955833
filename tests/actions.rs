use monitor_core::actions::{
    begin_deployment_action, cancel_action, update_deployment, begin_reclone_repo, begin_server_action, create_deployment, create_repo, create_server,
    delete_deployment, delete_repo, delete_server, finish_action, finish_repo_reclone,
};
use monitor_core::builds::Database;
use monitor_core::entities::{Operation, ServerConfig};
use monitor_core::ledger::{Log, UpdateStatus, UpdateTarget};
use monitor_core::permission::User;
use monitor_core::search::{deployment_states_on_server, ContainerSummary, DeploymentState, ServerStatus, StatusCache};
use monitor_core::store::CoreError;

fn user(id: &str, admin: bool) -> User {
    User { id: id.to_string(), username: id.to_string(), enabled: true, admin }
}

fn log(stage: &str, success: bool) -> Log {
    Log { stage: stage.to_string(), std_out: None, std_err: None, success, start_ts: 0, end_ts: 0 }
}

fn with_server() -> (Database, User) {
    let admin = user("admin", true);
    let mut db = Database::new();
    let config = ServerConfig { host: "http://a".to_string(), ..ServerConfig::default() };
    let uid = create_server(&mut db, "s".to_string(), "Main Server", config, &admin, 1).unwrap();
    assert_eq!(db.updates.updates[uid].operation, Operation::CreateServer);
    (db, admin)
}

#[test]
fn server_creation_normalizes_and_rejects_duplicates() {
    let (mut db, admin) = with_server();
    let s = db.servers.get(&"s".to_string(), &admin).unwrap();
    assert_eq!(s.name, "main-server");
    assert_eq!(s.config.host, "http://a");
    assert_eq!(
        create_server(&mut db, "t".to_string(), "main server", ServerConfig::default(), &admin, 2),
        Err(CoreError::DuplicateName)
    );
}

#[test]
fn deployment_and_repo_need_write_on_server() {
    let (mut db, admin) = with_server();
    let stranger = user("x", false);
    assert_eq!(create_deployment(&mut db, "d".to_string(), "d", "s".to_string(), &stranger, 2), Err(CoreError::Forbidden));
    assert_eq!(create_deployment(&mut db, "d".to_string(), "d", "nope".to_string(), &admin, 2), Err(CoreError::NotFound));
    let uid = create_deployment(&mut db, "d".to_string(), "Web App", "s".to_string(), &admin, 2).unwrap();
    assert!(matches!(&db.updates.updates[uid].target, UpdateTarget::Deployment(id) if id == "d"));
    let d = db.deployments.get(&"d".to_string(), &admin).unwrap();
    assert_eq!(d.name, "web-app");
    assert_eq!(d.config.server_id, "s");
    assert_eq!(d.config.docker_run_args.network, "bridge");
    assert_eq!(create_repo(&mut db, "r".to_string(), "r", "s".to_string(), "org/r".to_string(), &stranger, 3), Err(CoreError::Forbidden));
    create_repo(&mut db, "r".to_string(), "r", "s".to_string(), "org/r".to_string(), &admin, 3).unwrap();
    let r = db.repos.get(&"r".to_string(), &admin).unwrap();
    assert_eq!(r.config.repo, "org/r");
    assert_eq!(r.config.branch, "main");
}

#[test]
fn prune_action_lifecycle() {
    let (mut db, admin) = with_server();
    assert_eq!(
        begin_server_action(&mut db, &"s".to_string(), Operation::PruneImagesServer, &user("x", false), 5),
        Err(CoreError::Forbidden)
    );
    let uid = begin_server_action(&mut db, &"s".to_string(), Operation::PruneImagesServer, &admin, 5).unwrap();
    assert_eq!(db.updates.updates[uid].status, UpdateStatus::InProgress);
    finish_action(&mut db, uid, Ok(vec![log("prune images", true)]), 6);
    let u = &db.updates.updates[uid];
    assert_eq!(u.status, UpdateStatus::Complete);
    assert!(u.success);
    assert_eq!(u.end_ts, Some(6));
}

#[test]
fn deployment_action_with_unreachable_agent() {
    let (mut db, admin) = with_server();
    create_deployment(&mut db, "d".to_string(), "d", "s".to_string(), &admin, 2).unwrap();
    let (uid, server) = begin_deployment_action(&mut db, &"d".to_string(), Operation::StopDeployment, &admin, 5).unwrap();
    assert_eq!(server, "s");
    finish_action(&mut db, uid, Err("connection refused".to_string()), 6);
    let u = &db.updates.updates[uid];
    assert!(!u.success);
    assert_eq!(u.logs[0].std_err.as_deref(), Some("connection refused"));
    assert_eq!(
        begin_deployment_action(&mut db, &"none".to_string(), Operation::DeployDeployment, &admin, 7).err(),
        Some(CoreError::NotFound)
    );
}

#[test]
fn repo_reclone_records_pull_time_on_success() {
    let (mut db, admin) = with_server();
    create_repo(&mut db, "r".to_string(), "r", "s".to_string(), "org/r".to_string(), &admin, 3).unwrap();
    let id = "r".to_string();
    let (uid, server) = begin_reclone_repo(&mut db, &id, &admin, 10).unwrap();
    assert_eq!(server, "s");
    finish_repo_reclone(&mut db, &id, uid, Ok(vec![log("clone", false)]), 11);
    assert_eq!(db.repos.get(&id, &admin).unwrap().info.last_pulled_at, 0);
    let (uid, _) = begin_reclone_repo(&mut db, &id, &admin, 12).unwrap();
    finish_repo_reclone(&mut db, &id, uid, Ok(vec![log("clone", true)]), 13);
    assert_eq!(db.repos.get(&id, &admin).unwrap().info.last_pulled_at, 13);
    assert_eq!(db.updates.updates[uid].operation, Operation::RecloneRepo);
}

#[test]
fn deletes_record_cleanup_then_vanish() {
    let (mut db, admin) = with_server();
    create_deployment(&mut db, "d".to_string(), "d", "s".to_string(), &admin, 2).unwrap();
    create_repo(&mut db, "r".to_string(), "r", "s".to_string(), "org/r".to_string(), &admin, 3).unwrap();
    let (d, uid) = delete_deployment(&mut db, &"d".to_string(), &admin, vec![log("stop", true), log("remove", true)], 4).unwrap();
    assert_eq!(d.id, "d");
    let u = &db.updates.updates[uid];
    assert_eq!(u.operation, Operation::DeleteDeployment);
    assert_eq!(u.logs.len(), 3);
    assert_eq!(u.logs[2].std_out.as_deref(), Some("deleted d"));
    assert!(u.success);
    assert_eq!(delete_deployment(&mut db, &"d".to_string(), &admin, vec![], 5).err(), Some(CoreError::NotFound));
    let (_, uid) = delete_repo(&mut db, &"r".to_string(), &admin, vec![log("delete repo", false)], 6).unwrap();
    assert!(!db.updates.updates[uid].success);
    assert_eq!(delete_server(&mut db, &"s".to_string(), &user("x", false), 7).err(), Some(CoreError::Forbidden));
    let (_, uid) = delete_server(&mut db, &"s".to_string(), &admin, 7).unwrap();
    assert!(db.updates.updates[uid].success);
    assert!(db.servers.docs.is_empty());
}

#[test]
fn deployment_edit_decides_redeploy() {
    let (mut db, admin) = with_server();
    create_deployment(&mut db, "d".to_string(), "d", "s".to_string(), &admin, 2).unwrap();
    let mut proposed = db.deployments.get(&"d".to_string(), &admin).unwrap().clone();
    proposed.config.docker_run_args.image = Some("nginx".to_string());
    let (uid, redeploy) = update_deployment(&mut db, proposed.clone(), &admin, 3).unwrap();
    assert!(redeploy);
    assert_eq!(db.updates.updates[uid].operation, Operation::UpdateDeployment);
    assert_eq!(db.updates.updates[uid].logs[0].std_out.as_deref(), Some("image\n"));
    proposed.config.build_id = Some("b".to_string());
    let (uid, redeploy) = update_deployment(&mut db, proposed.clone(), &admin, 4).unwrap();
    assert!(!redeploy);
    assert_eq!(db.updates.updates[uid].logs[0].std_out.as_deref(), Some("build_id\n"));
    assert_eq!(update_deployment(&mut db, proposed.clone(), &user("x", false), 5), Err(CoreError::Forbidden));
    proposed.id = "missing".to_string();
    assert_eq!(update_deployment(&mut db, proposed, &admin, 5), Err(CoreError::NotFound));
    let stored = db.deployments.get(&"d".to_string(), &admin).unwrap();
    assert_eq!(stored.config.docker_run_args.image.as_deref(), Some("nginx"));
    assert_eq!(stored.updated_at, 4);
    assert_eq!(stored.created_at, 2);
}

#[test]
fn cancelled_action_fails() {
    let (mut db, admin) = with_server();
    let uid = begin_server_action(&mut db, &"s".to_string(), Operation::PruneNetworksServer, &admin, 5).unwrap();
    cancel_action(&mut db, uid, 6);
    let u = &db.updates.updates[uid];
    assert_eq!(u.status, UpdateStatus::Complete);
    assert!(!u.success);
    assert_eq!(u.logs.last().unwrap().stage, "cancelled");
}

#[test]
fn status_cache_refresh() {
    let (mut db, admin) = with_server();
    create_server(&mut db, "t".to_string(), "other", ServerConfig::default(), &admin, 1).unwrap();
    create_deployment(&mut db, "d1".to_string(), "web", "s".to_string(), &admin, 2).unwrap();
    create_deployment(&mut db, "d2".to_string(), "db", "s".to_string(), &admin, 2).unwrap();
    create_deployment(&mut db, "d3".to_string(), "cache", "t".to_string(), &admin, 2).unwrap();
    let containers = vec![
        ContainerSummary { name: "web".to_string(), state: DeploymentState::Running },
        ContainerSummary { name: "cache".to_string(), state: DeploymentState::Exited },
    ];
    let entries = deployment_states_on_server(&db.deployments.docs, &"s".to_string(), &containers);
    assert_eq!(entries.len(), 2);
    assert_eq!((entries[0].id.as_str(), entries[0].state), ("d1", DeploymentState::Running));
    assert_eq!((entries[1].id.as_str(), entries[1].state), ("d2", DeploymentState::NotDeployed));
    let mut cache = StatusCache::new();
    cache.set_deployment_states(entries);
    assert_eq!(cache.deployment_state(&"d1".to_string()), DeploymentState::Running);
    assert_eq!(cache.deployment_state(&"d3".to_string()), DeploymentState::Unknown);
    cache.set_server_status("s".to_string(), ServerStatus::Healthy);
    cache.set_server_status("t".to_string(), ServerStatus::Disabled);
    cache.set_server_status("s".to_string(), ServerStatus::NotOk);
    assert_eq!(cache.servers.len(), 2);
    assert_eq!(cache.server_status(&"s".to_string()), ServerStatus::NotOk);
    assert_eq!(cache.server_status(&"t".to_string()), ServerStatus::Disabled);
}
