use vstd::prelude::*;
use crate::builds::{pushed_update, completed_with, Database};
use crate::entities::{
    empty_command, DeploymentConfig, DeploymentInfo, DockerRunArgs, Operation, RepoConfig, RepoInfo, ServerConfig,
    ServerInfo,
};
use crate::ledger::{Log, Update, UpdateLedger, UpdateStatus, UpdateTarget};
use crate::permission::{has_permission, permitted, PermissionLevel, User};
use crate::entities::{Deployment, Repo, Resource, Server};
use crate::diff::{deployment_diff, deployment_diff_text, deployment_needs_redeploy, needs_redeploy};
use crate::store::{create_outcome, delete_outcome, update_outcome, Collection, CoreError};

verus! {

/// A result with its value dropped.
pub open spec fn as_unit(r: Result<usize, CoreError>) -> Result<(), CoreError> {
    match r {
        Ok(_) => Ok(()),
        Err(e) => Err(e),
    }
}

/// Records an update that opens now, with no logs yet.
fn open_update(ledger: &mut UpdateLedger, operation: Operation, target: UpdateTarget, user: &User, now: i64) -> (uid: usize)
    requires
        old(ledger).wf(),
    ensures
        pushed_update(*old(ledger), *final(ledger), uid),
        ({
            let u = final(ledger).updates@[uid as int];
            &&& u.operation == operation
            &&& u.target == target
            &&& u.status == UpdateStatus::InProgress
            &&& u.start_ts == now
            &&& u.logs@.len() == 0
            &&& u.operator@ == user.id@
        }),
{
    let update = Update::in_progress(operation, target, &user.id, now);
    let ghost before = ledger.updates@;
    let uid = ledger.add_update(update);
    assert(ledger.updates@.drop_last() =~= before);
    uid
}

/// Records an update that opened and closed now, successfully.
fn record_done(ledger: &mut UpdateLedger, operation: Operation, target: UpdateTarget, user: &User, now: i64) -> (uid: usize)
    requires
        old(ledger).wf(),
    ensures
        pushed_update(*old(ledger), *final(ledger), uid),
        ({
            let u = final(ledger).updates@[uid as int];
            &&& u.operation == operation
            &&& u.target == target
            &&& u.status == UpdateStatus::Complete
            &&& u.success
            &&& u.operator@ == user.id@
        }),
{
    let mut update = Update::in_progress(operation, target, &user.id, now);
    update.finalize(now);
    let ghost before = ledger.updates@;
    let uid = ledger.add_update(update);
    assert(ledger.updates@.drop_last() =~= before);
    uid
}

/// Creates a server, with its creator holding `Write`.
pub fn create_server(db: &mut Database, id: String, name: &str, config: ServerConfig, user: &User, now: i64)
    -> (r: Result<usize, CoreError>)
    requires
        old(db).wf(),
    ensures
        final(db).wf(),
        final(db).builds == old(db).builds,
        final(db).builders == old(db).builders,
        final(db).deployments == old(db).deployments,
        final(db).repos == old(db).repos,
        create_outcome(old(db).servers, final(db).servers, id@, name@, config, ServerInfo { reachable: false }, *user, now,
            as_unit(r)),
        r is Err ==> final(db).updates == old(db).updates,
        r matches Ok(uid) ==> pushed_update(old(db).updates, final(db).updates, uid)
            && final(db).updates.updates@[uid as int].operation == Operation::CreateServer
            && final(db).updates.updates@[uid as int].target == UpdateTarget::Server(id)
            && final(db).updates.updates@[uid as int].success,
{
    let target = id.clone();
    match db.servers.create(id, name, config, ServerInfo { reachable: false }, user, now) {
        Err(e) => Err(e),
        Ok(()) => Ok(record_done(&mut db.updates, Operation::CreateServer, UpdateTarget::Server(target), user, now)),
    }
}

/// Creates a deployment on server `server_id`, on which the user must hold
/// `Write`.
pub fn create_deployment(db: &mut Database, id: String, name: &str, server_id: String, user: &User, now: i64)
    -> (r: Result<usize, CoreError>)
    requires
        old(db).wf(),
    ensures
        final(db).wf(),
        final(db).servers == old(db).servers,
        final(db).builds == old(db).builds,
        final(db).builders == old(db).builders,
        final(db).repos == old(db).repos,
        match old(db).servers.get_doc(server_id@) {
            None => r == Err::<usize, CoreError>(CoreError::NotFound),
            Some(s) => !permitted(*user, s.permissions, PermissionLevel::Write)
                ==> r == Err::<usize, CoreError>(CoreError::Forbidden),
        },
        r is Err ==> final(db).deployments.docs@ == old(db).deployments.docs@ && final(db).updates == old(db).updates,
        old(db).servers.get_doc(server_id@) matches Some(s) && permitted(*user, s.permissions, PermissionLevel::Write)
            ==> exists|c: DeploymentConfig| {
            &&& #[trigger] create_outcome(old(db).deployments, final(db).deployments, id@, name@, c,
                DeploymentInfo { is_core: false }, *user, now,
                as_unit(r))
            &&& c.server_id@ == server_id@
            &&& c.build_id is None
        },
        r matches Ok(uid) ==> pushed_update(old(db).updates, final(db).updates, uid)
            && final(db).updates.updates@[uid as int].operation == Operation::CreateDeployment
            && final(db).updates.updates@[uid as int].target == UpdateTarget::Deployment(id)
            && final(db).updates.updates@[uid as int].success,
{
    let i = match db.servers.find(&server_id) {
        None => {
            return Err(CoreError::NotFound);
        },
        Some(i) => i,
    };
    if !has_permission(user, &db.servers.docs[i].permissions, PermissionLevel::Write) {
        return Err(CoreError::Forbidden);
    }
    let config = DeploymentConfig { server_id, build_id: None, docker_run_args: DockerRunArgs::default() };
    let ghost c = config;
    let target = id.clone();
    let cr = db.deployments.create(id, name, config, DeploymentInfo { is_core: false }, user, now);
    match cr {
        Err(e) => {
            assert(create_outcome(old(db).deployments, db.deployments, target@, name@, c,
                DeploymentInfo { is_core: false }, *user, now, Err::<(), CoreError>(e)));
            Err(e)
        },
        Ok(()) => {
            let uid = record_done(&mut db.updates, Operation::CreateDeployment, UpdateTarget::Deployment(target), user, now);
            assert(create_outcome(old(db).deployments, db.deployments, target@, name@, c,
                DeploymentInfo { is_core: false }, *user, now, Ok::<(), CoreError>(())));
            Ok(uid)
        },
    }
}

/// Creates a repo on server `server_id`, on which the user must hold
/// `Write`.
pub fn create_repo(db: &mut Database, id: String, name: &str, server_id: String, repo: String, user: &User, now: i64)
    -> (r: Result<usize, CoreError>)
    requires
        old(db).wf(),
    ensures
        final(db).wf(),
        final(db).servers == old(db).servers,
        final(db).builds == old(db).builds,
        final(db).builders == old(db).builders,
        final(db).deployments == old(db).deployments,
        match old(db).servers.get_doc(server_id@) {
            None => r == Err::<usize, CoreError>(CoreError::NotFound),
            Some(s) => !permitted(*user, s.permissions, PermissionLevel::Write)
                ==> r == Err::<usize, CoreError>(CoreError::Forbidden),
        },
        r is Err ==> final(db).repos.docs@ == old(db).repos.docs@ && final(db).updates == old(db).updates,
        old(db).servers.get_doc(server_id@) matches Some(s) && permitted(*user, s.permissions, PermissionLevel::Write)
            ==> exists|c: RepoConfig| {
            &&& #[trigger] create_outcome(old(db).repos, final(db).repos, id@, name@, c,
                RepoInfo { last_pulled_at: 0 }, *user, now,
                as_unit(r))
            &&& c.server_id@ == server_id@
            &&& c.repo@ == repo@
            &&& c.branch@ == "main"@
        },
        r matches Ok(uid) ==> pushed_update(old(db).updates, final(db).updates, uid)
            && final(db).updates.updates@[uid as int].operation == Operation::CreateRepo
            && final(db).updates.updates@[uid as int].target == UpdateTarget::Repo(id)
            && final(db).updates.updates@[uid as int].success,
{
    let i = match db.servers.find(&server_id) {
        None => {
            return Err(CoreError::NotFound);
        },
        Some(i) => i,
    };
    if !has_permission(user, &db.servers.docs[i].permissions, PermissionLevel::Write) {
        return Err(CoreError::Forbidden);
    }
    let config = RepoConfig {
        server_id,
        repo,
        branch: String::from_str("main"),
        github_account: String::new(),
        on_clone: empty_command(),
        on_pull: empty_command(),
    };
    let ghost c = config;
    let target = id.clone();
    let cr = db.repos.create(id, name, config, RepoInfo { last_pulled_at: 0 }, user, now);
    match cr {
        Err(e) => {
            assert(create_outcome(old(db).repos, db.repos, target@, name@, c,
                RepoInfo { last_pulled_at: 0 }, *user, now, Err::<(), CoreError>(e)));
            Err(e)
        },
        Ok(()) => {
            let uid = record_done(&mut db.updates, Operation::CreateRepo, UpdateTarget::Repo(target), user, now);
            assert(create_outcome(old(db).repos, db.repos, target@, name@, c,
                RepoInfo { last_pulled_at: 0 }, *user, now, Ok::<(), CoreError>(())));
            Ok(uid)
        },
    }
}

pub open spec fn is_server_action(op: Operation) -> bool {
    op == Operation::PruneImagesServer || op == Operation::PruneContainersServer || op == Operation::PruneNetworksServer
}

pub open spec fn is_deployment_action(op: Operation) -> bool {
    ||| op == Operation::DeployDeployment
    ||| op == Operation::StopDeployment
    ||| op == Operation::StartDeployment
    ||| op == Operation::PullDeployment
    ||| op == Operation::RecloneDeployment
}

/// Starts a prune on server `server_id`: checks `Write` on it and opens the
/// update. Close it with `finish_action`.
pub fn begin_server_action(db: &mut Database, server_id: &String, operation: Operation, user: &User, now: i64)
    -> (r: Result<usize, CoreError>)
    requires
        old(db).wf(),
        is_server_action(operation),
    ensures
        final(db).wf(),
        final(db).servers == old(db).servers,
        final(db).builds == old(db).builds,
        final(db).builders == old(db).builders,
        final(db).deployments == old(db).deployments,
        final(db).repos == old(db).repos,
        r is Err ==> final(db).updates == old(db).updates,
        match old(db).servers.get_doc(server_id@) {
            None => r == Err::<usize, CoreError>(CoreError::NotFound),
            Some(s) => if !permitted(*user, s.permissions, PermissionLevel::Write) {
                r == Err::<usize, CoreError>(CoreError::Forbidden)
            } else {
                &&& r is Ok
                &&& pushed_update(old(db).updates, final(db).updates, r->Ok_0)
                &&& final(db).updates.updates@[r->Ok_0 as int].operation == operation
                &&& final(db).updates.updates@[r->Ok_0 as int].target == UpdateTarget::Server(s.id)
                &&& final(db).updates.updates@[r->Ok_0 as int].status == UpdateStatus::InProgress
            },
        },
{
    let target = match db.servers.find(server_id) {
        None => {
            return Err(CoreError::NotFound);
        },
        Some(i) => {
            if !has_permission(user, &db.servers.docs[i].permissions, PermissionLevel::Write) {
                return Err(CoreError::Forbidden);
            }
            db.servers.docs[i].id.clone()
        },
    };
    Ok(open_update(&mut db.updates, operation, UpdateTarget::Server(target), user, now))
}

/// Starts an action on deployment `deployment_id`: checks `Write` on it,
/// resolves its server and opens the update. Returns the update's id and
/// the server to call. Close it with `finish_action`.
pub fn begin_deployment_action(db: &mut Database, deployment_id: &String, operation: Operation, user: &User, now: i64)
    -> (r: Result<(usize, String), CoreError>)
    requires
        old(db).wf(),
        is_deployment_action(operation),
    ensures
        final(db).wf(),
        final(db).servers == old(db).servers,
        final(db).builds == old(db).builds,
        final(db).builders == old(db).builders,
        final(db).deployments == old(db).deployments,
        final(db).repos == old(db).repos,
        r is Err ==> final(db).updates == old(db).updates,
        match old(db).deployments.get_doc(deployment_id@) {
            None => r == Err::<(usize, String), CoreError>(CoreError::NotFound),
            Some(d) => if !permitted(*user, d.permissions, PermissionLevel::Write) {
                r == Err::<(usize, String), CoreError>(CoreError::Forbidden)
            } else if old(db).servers.get_doc(d.config.server_id@) is None {
                r == Err::<(usize, String), CoreError>(CoreError::NotFound)
            } else {
                &&& r is Ok
                &&& r->Ok_0.1@ == d.config.server_id@
                &&& pushed_update(old(db).updates, final(db).updates, r->Ok_0.0)
                &&& final(db).updates.updates@[r->Ok_0.0 as int].operation == operation
                &&& final(db).updates.updates@[r->Ok_0.0 as int].target == UpdateTarget::Deployment(d.id)
                &&& final(db).updates.updates@[r->Ok_0.0 as int].status == UpdateStatus::InProgress
            },
        },
{
    let (target, server_id) = match db.deployments.find(deployment_id) {
        None => {
            return Err(CoreError::NotFound);
        },
        Some(i) => {
            if !has_permission(user, &db.deployments.docs[i].permissions, PermissionLevel::Write) {
                return Err(CoreError::Forbidden);
            }
            if db.servers.find(&db.deployments.docs[i].config.server_id).is_none() {
                return Err(CoreError::NotFound);
            }
            (db.deployments.docs[i].id.clone(), db.deployments.docs[i].config.server_id.clone())
        },
    };
    let uid = open_update(&mut db.updates, operation, UpdateTarget::Deployment(target), user, now);
    Ok((uid, server_id))
}

/// The logs that a periphery call's result adds to an update: its logs, or
/// one failed log carrying the transport error.
pub open spec fn call_logs_added(result: Result<Vec<Log>, String>, added: Seq<Log>) -> bool {
    match result {
        Ok(logs) => added == logs@,
        Err(msg) => added.len() == 1 && !added[0].success && added[0].std_err == Some(msg),
    }
}

/// Closes an action with what its periphery call came back with.
pub fn finish_action(db: &mut Database, uid: usize, result: Result<Vec<Log>, String>, now: i64)
    requires
        old(db).wf(),
        uid < old(db).updates.updates@.len(),
        old(db).updates.updates@[uid as int].start_ts <= now,
    ensures
        final(db).wf(),
        final(db).servers == old(db).servers,
        final(db).builds == old(db).builds,
        final(db).builders == old(db).builders,
        final(db).deployments == old(db).deployments,
        final(db).repos == old(db).repos,
        exists|added: Seq<Log>| call_logs_added(result, added) && completed_with(old(db).updates, final(db).updates, uid, added, now),
{
    let extra = match result {
        Ok(logs) => logs,
        Err(msg) => {
            let mut v: Vec<Log> = Vec::new();
            v.push(Log::error("periphery", msg, now));
            v
        },
    };
    let ghost added = extra@;
    assert(call_logs_added(result, added));
    db.updates.complete(uid, extra, now);
    assert(completed_with(old(db).updates, db.updates, uid, added, now));
}

/// Starts a reclone of repo `repo_id`: checks `Write` on it, resolves its
/// server and opens a `RecloneRepo` update. Returns the update's id and
/// the server to call. Close it with `finish_repo_reclone`.
pub fn begin_reclone_repo(db: &mut Database, repo_id: &String, user: &User, now: i64)
    -> (r: Result<(usize, String), CoreError>)
    requires
        old(db).wf(),
    ensures
        final(db).wf(),
        final(db).servers == old(db).servers,
        final(db).builds == old(db).builds,
        final(db).builders == old(db).builders,
        final(db).deployments == old(db).deployments,
        final(db).repos == old(db).repos,
        r is Err ==> final(db).updates == old(db).updates,
        match old(db).repos.get_doc(repo_id@) {
            None => r == Err::<(usize, String), CoreError>(CoreError::NotFound),
            Some(d) => if !permitted(*user, d.permissions, PermissionLevel::Write) {
                r == Err::<(usize, String), CoreError>(CoreError::Forbidden)
            } else if old(db).servers.get_doc(d.config.server_id@) is None {
                r == Err::<(usize, String), CoreError>(CoreError::NotFound)
            } else {
                &&& r is Ok
                &&& r->Ok_0.1@ == d.config.server_id@
                &&& pushed_update(old(db).updates, final(db).updates, r->Ok_0.0)
                &&& final(db).updates.updates@[r->Ok_0.0 as int].operation == Operation::RecloneRepo
                &&& final(db).updates.updates@[r->Ok_0.0 as int].target == UpdateTarget::Repo(d.id)
                &&& final(db).updates.updates@[r->Ok_0.0 as int].status == UpdateStatus::InProgress
            },
        },
{
    let (target, server_id) = match db.repos.find(repo_id) {
        None => {
            return Err(CoreError::NotFound);
        },
        Some(i) => {
            if !has_permission(user, &db.repos.docs[i].permissions, PermissionLevel::Write) {
                return Err(CoreError::Forbidden);
            }
            if db.servers.find(&db.repos.docs[i].config.server_id).is_none() {
                return Err(CoreError::NotFound);
            }
            (db.repos.docs[i].id.clone(), db.repos.docs[i].config.server_id.clone())
        },
    };
    let uid = open_update(&mut db.updates, Operation::RecloneRepo, UpdateTarget::Repo(target), user, now);
    Ok((uid, server_id))
}

/// Closes a repo reclone; when every stage succeeded the repo records
/// `now` as its last pull.
pub fn finish_repo_reclone(db: &mut Database, repo_id: &String, uid: usize, result: Result<Vec<Log>, String>, now: i64)
    requires
        old(db).wf(),
        uid < old(db).updates.updates@.len(),
        old(db).updates.updates@[uid as int].start_ts <= now,
    ensures
        final(db).wf(),
        final(db).servers == old(db).servers,
        final(db).builds == old(db).builds,
        final(db).builders == old(db).builders,
        final(db).deployments == old(db).deployments,
        exists|added: Seq<Log>| call_logs_added(result, added) && completed_with(old(db).updates, final(db).updates, uid, added, now),
        forall|y: Seq<char>| y != repo_id@ ==> final(db).repos.get_doc(y) == old(db).repos.get_doc(y),
        if final(db).updates.updates@[uid as int].success {
            match old(db).repos.get_doc(repo_id@) {
                None => final(db).repos.docs@ == old(db).repos.docs@,
                Some(d) => final(db).repos.get_doc(repo_id@) == Some(
                    crate::entities::Resource { info: RepoInfo { last_pulled_at: now }, ..d },
                ),
            }
        } else {
            final(db).repos == old(db).repos
        },
{
    finish_action(db, uid, result, now);
    if db.updates.updates[uid].success {
        db.repos.set_info(repo_id, RepoInfo { last_pulled_at: now });
    }
}

/// What a delete records: `cleanup` (the remote steps that came first,
/// failed or not) and then one log naming what went, on a closed `System`
/// update that succeeded exactly when the cleanup did.
pub open spec fn delete_recorded(before: UpdateLedger, after: UpdateLedger, uid: usize, operation: Operation, cleanup: Seq<Log>) -> bool {
    &&& pushed_update(before, after, uid)
    &&& ({
        let u = after.updates@[uid as int];
        &&& u.operation == operation
        &&& u.target == UpdateTarget::System
        &&& u.status == UpdateStatus::Complete
        &&& u.logs@.len() == cleanup.len() + 1
        &&& u.logs@.subrange(0, cleanup.len() as int) == cleanup
        &&& u.success == crate::ledger::logs_succeeded(cleanup)
    })
}

/// A result carrying a deleted document, with the update id dropped.
pub open spec fn deleted_doc<C, I>(r: Result<(Resource<C, I>, usize), CoreError>) -> Result<Resource<C, I>, CoreError> {
    match r {
        Ok((d, _)) => Ok(d),
        Err(e) => Err(e),
    }
}

fn delete_with_update<C, I>(
    docs: &mut Collection<C, I>,
    ledger: &mut UpdateLedger,
    id: &String,
    user: &User,
    cleanup: Vec<Log>,
    operation: Operation,
    now: i64,
) -> (r: Result<(Resource<C, I>, usize), CoreError>)
    requires
        old(docs).wf(),
        old(ledger).wf(),
    ensures
        delete_outcome(*old(docs), *final(docs), id@, *user, deleted_doc(r)),
        final(ledger).wf(),
        r is Err ==> *final(ledger) == *old(ledger),
        r matches Ok((_, uid)) ==> delete_recorded(*old(ledger), *final(ledger), uid, operation, cleanup@),
{
    let dr = docs.delete(id, user);
    match dr {
        Err(e) => Err(e),
        Ok(doc) => {
            let mut msg = String::from_str("deleted ");
            msg.append(doc.name.as_str());
            let mut update = Update::in_progress(operation, UpdateTarget::System, &user.id, now);
            let ghost c = cleanup@;
            let mut cleanup = cleanup;
            update.logs.append(&mut cleanup);
            update.logs.push(Log::simple("delete", msg, now));
            let ghost logs = update.logs@;
            update.finalize(now);
            proof {
                assert(logs.subrange(0, c.len() as int) =~= c);
                if crate::ledger::logs_succeeded(c) {
                    assert(crate::ledger::logs_succeeded(logs)) by {
                        assert forall|i: int| 0 <= i < logs.len() implies #[trigger] logs[i].success by {
                            if i < c.len() {
                                assert(logs[i] == c[i]);
                            }
                        }
                    }
                } else {
                    let k = choose|k: int| 0 <= k < c.len() && !(#[trigger] c[k]).success;
                    assert(logs[k] == c[k]);
                }
            }
            let ghost before = ledger.updates@;
            let uid = ledger.add_update(update);
            assert(ledger.updates@.drop_last() =~= before);
            Ok((doc, uid))
        },
    }
}

/// Deletes a deployment once its container was stopped and removed
/// (`cleanup` are those steps' logs), recording a `DeleteDeployment` update.
pub fn delete_deployment(db: &mut Database, id: &String, user: &User, cleanup: Vec<Log>, now: i64)
    -> (r: Result<(Deployment, usize), CoreError>)
    requires
        old(db).wf(),
    ensures
        final(db).wf(),
        final(db).servers == old(db).servers,
        final(db).builds == old(db).builds,
        final(db).builders == old(db).builders,
        final(db).repos == old(db).repos,
        delete_outcome(old(db).deployments, final(db).deployments, id@, *user, deleted_doc(r)),
        r is Err ==> final(db).updates == old(db).updates,
        r matches Ok((_, uid)) ==> delete_recorded(old(db).updates, final(db).updates, uid, Operation::DeleteDeployment, cleanup@),
{
    delete_with_update(&mut db.deployments, &mut db.updates, id, user, cleanup, Operation::DeleteDeployment, now)
}

/// Deletes a repo once its working copy was removed from its server
/// (`cleanup` is that step's log), recording a `DeleteRepo` update.
pub fn delete_repo(db: &mut Database, id: &String, user: &User, cleanup: Vec<Log>, now: i64)
    -> (r: Result<(Repo, usize), CoreError>)
    requires
        old(db).wf(),
    ensures
        final(db).wf(),
        final(db).servers == old(db).servers,
        final(db).builds == old(db).builds,
        final(db).builders == old(db).builders,
        final(db).deployments == old(db).deployments,
        delete_outcome(old(db).repos, final(db).repos, id@, *user, deleted_doc(r)),
        r is Err ==> final(db).updates == old(db).updates,
        r matches Ok((_, uid)) ==> delete_recorded(old(db).updates, final(db).updates, uid, Operation::DeleteRepo, cleanup@),
{
    delete_with_update(&mut db.repos, &mut db.updates, id, user, cleanup, Operation::DeleteRepo, now)
}

/// Deletes a server, recording a `DeleteServer` update.
pub fn delete_server(db: &mut Database, id: &String, user: &User, now: i64) -> (r: Result<(Server, usize), CoreError>)
    requires
        old(db).wf(),
    ensures
        final(db).wf(),
        final(db).builds == old(db).builds,
        final(db).builders == old(db).builders,
        final(db).deployments == old(db).deployments,
        final(db).repos == old(db).repos,
        delete_outcome(old(db).servers, final(db).servers, id@, *user, deleted_doc(r)),
        r is Err ==> final(db).updates == old(db).updates,
        r matches Ok((_, uid)) ==> delete_recorded(old(db).updates, final(db).updates, uid, Operation::DeleteServer, Seq::empty()),
{
    let none: Vec<Log> = Vec::new();
    assert(none@ =~= Seq::<Log>::empty());
    delete_with_update(&mut db.servers, &mut db.updates, id, user, none, Operation::DeleteServer, now)
}

/// A result with its value dropped.
pub open spec fn pair_as_unit(r: Result<(usize, bool), CoreError>) -> Result<(), CoreError> {
    match r {
        Ok(_) => Ok(()),
        Err(e) => Err(e),
    }
}

/// Applies a config edit to a deployment and opens its `UpdateDeployment`
/// update, whose first log lists the changed fields. Returns the update's
/// id and whether the edit calls for a redeploy.
pub fn update_deployment(db: &mut Database, proposed: Deployment, user: &User, now: i64)
    -> (r: Result<(usize, bool), CoreError>)
    requires
        old(db).wf(),
    ensures
        final(db).wf(),
        final(db).servers == old(db).servers,
        final(db).builds == old(db).builds,
        final(db).builders == old(db).builders,
        final(db).repos == old(db).repos,
        update_outcome(old(db).deployments, final(db).deployments, proposed, *user, now, pair_as_unit(r)),
        r is Err ==> final(db).updates == old(db).updates,
        r matches Ok((uid, redeploy)) ==> {
            let cur = old(db).deployments.get_doc(proposed.id@)->Some_0;
            &&& redeploy == deployment_needs_redeploy(cur.config, proposed.config)
            &&& pushed_update(old(db).updates, final(db).updates, uid)
            &&& ({
                let u = final(db).updates.updates@[uid as int];
                &&& u.operation == Operation::UpdateDeployment
                &&& u.target == UpdateTarget::Deployment(proposed.id)
                &&& u.status == UpdateStatus::InProgress
                &&& u.logs@.len() == 1
                &&& u.logs@[0].std_out is Some
                &&& u.logs@[0].std_out->Some_0@ == deployment_diff_text(cur.config, proposed.config)
            })
        },
{
    let ghost p = proposed;
    let i = match db.deployments.find(&proposed.id) {
        None => {
            let ur = db.deployments.update(proposed, user, now);
            assert(update_outcome(old(db).deployments, db.deployments, p, *user, now, ur));
            return Err(CoreError::NotFound);
        },
        Some(i) => i,
    };
    let diff = deployment_diff(&db.deployments.docs[i].config, &proposed.config);
    let redeploy = needs_redeploy(&db.deployments.docs[i].config, &proposed.config);
    let target = proposed.id.clone();
    let ur = db.deployments.update(proposed, user, now);
    assert(update_outcome(old(db).deployments, db.deployments, p, *user, now, ur));
    match ur {
        Err(e) => Err(e),
        Ok(()) => {
            let mut update = Update::in_progress(Operation::UpdateDeployment, UpdateTarget::Deployment(target), &user.id, now);
            update.logs.push(Log::simple("deployment update", diff, now));
            let ghost before = db.updates.updates@;
            let uid = db.updates.add_update(update);
            assert(db.updates.updates@.drop_last() =~= before);
            Ok((uid, redeploy))
        },
    }
}

/// Closes an action that was cancelled: a failed `cancelled` log ends it.
pub fn cancel_action(db: &mut Database, uid: usize, now: i64)
    requires
        old(db).wf(),
        uid < old(db).updates.updates@.len(),
        old(db).updates.updates@[uid as int].start_ts <= now,
    ensures
        final(db).wf(),
        final(db).servers == old(db).servers,
        final(db).builds == old(db).builds,
        final(db).builders == old(db).builders,
        final(db).deployments == old(db).deployments,
        final(db).repos == old(db).repos,
        exists|added: Seq<Log>| completed_with(old(db).updates, final(db).updates, uid, added, now)
            && added.len() == 1 && !added[0].success && added[0].stage@ == "cancelled"@,
        !final(db).updates.updates@[uid as int].success,
{
    let mut extra: Vec<Log> = Vec::new();
    extra.push(Log::error("cancelled", String::from_str("cancelled"), now));
    let ghost added = extra@;
    db.updates.complete(uid, extra, now);
    assert(completed_with(old(db).updates, db.updates, uid, added, now));
    let ghost all = old(db).updates.updates@[uid as int].logs@ + added;
    assert(!all[all.len() - 1].success);
}

} // verus!
