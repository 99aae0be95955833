use vstd::prelude::*;
use crate::diff::{build_diff, build_diff_text, build_needs_reclone, needs_reclone};
use crate::entities::{
    Build, BuildConfig, BuildInfo, BuilderConfig, BuilderInfo, DeploymentConfig, DeploymentInfo,
    Operation, RepoConfig, RepoInfo, Resource, ServerConfig, ServerInfo,
};
use crate::ledger::{logs_succeeded, Log, Update, UpdateLedger, UpdateStatus, UpdateTarget};
use crate::permission::{has_permission, permitted, PermissionLevel, User};
use crate::store::{create_outcome, lookup, update_outcome, Collection, CoreError};
use crate::version::{next_version, Version};

verus! {

/// Every persisted collection.
pub struct Database {
    pub servers: Collection<ServerConfig, ServerInfo>,
    pub builds: Collection<BuildConfig, BuildInfo>,
    pub deployments: Collection<DeploymentConfig, DeploymentInfo>,
    pub repos: Collection<RepoConfig, RepoInfo>,
    pub builders: Collection<BuilderConfig, BuilderInfo>,
    pub updates: UpdateLedger,
}

impl Database {
    pub open spec fn wf(&self) -> bool {
        &&& self.servers.wf()
        &&& self.builds.wf()
        &&& self.deployments.wf()
        &&& self.repos.wf()
        &&& self.builders.wf()
        &&& self.updates.wf()
    }

    pub fn new() -> (r: Database)
        ensures
            r.wf(),
            r.servers.docs@.len() == 0,
            r.builds.docs@.len() == 0,
            r.deployments.docs@.len() == 0,
            r.repos.docs@.len() == 0,
            r.builders.docs@.len() == 0,
            r.updates.updates@.len() == 0,
    {
        Database {
            servers: Collection::new(),
            builds: Collection::new(),
            deployments: Collection::new(),
            repos: Collection::new(),
            builders: Collection::new(),
            updates: UpdateLedger::new(),
        }
    }
}

/// The build with id `build_id`, where `user` holds at least `level` on it.
pub fn get_build_check_permissions<'a>(db: &'a Database, build_id: &String, user: &User, level: PermissionLevel)
    -> (r: Result<&'a Build, CoreError>)
    requires
        db.wf(),
    ensures
        match db.builds.get_doc(build_id@) {
            None => r == Err::<&Build, CoreError>(CoreError::NotFound),
            Some(b) => if permitted(*user, b.permissions, level) {
                r is Ok && *r->Ok_0 == b
            } else {
                r == Err::<&Build, CoreError>(CoreError::Forbidden)
            },
        },
{
    match db.builds.find(build_id) {
        None => Err(CoreError::NotFound),
        Some(i) => {
            if has_permission(user, &db.builds.docs[i].permissions, level) {
                Ok(&db.builds.docs[i])
            } else {
                Err(CoreError::Forbidden)
            }
        },
    }
}

/// Creates a build that runs on builder `builder_id`, on which the user
/// must hold `Write`; records a successful `CreateBuild` update.
pub fn create_build(db: &mut Database, id: String, name: &str, builder_id: String, user: &User, now: i64)
    -> (r: Result<usize, CoreError>)
    requires
        old(db).wf(),
    ensures
        final(db).wf(),
        final(db).servers == old(db).servers,
        final(db).builders == old(db).builders,
        final(db).deployments == old(db).deployments,
        final(db).repos == old(db).repos,
        match old(db).builders.get_doc(builder_id@) {
            None => r == Err::<usize, CoreError>(CoreError::NotFound),
            Some(p) => !permitted(*user, p.permissions, PermissionLevel::Write)
                ==> r == Err::<usize, CoreError>(CoreError::Forbidden),
        },
        r is Err ==> final(db).builds.docs@ == old(db).builds.docs@ && final(db).updates == old(db).updates,
        old(db).builders.get_doc(builder_id@) matches Some(p) && permitted(*user, p.permissions, PermissionLevel::Write)
            ==> exists|c: BuildConfig, cr: Result<(), CoreError>| {
            &&& create_outcome(old(db).builds, final(db).builds, id@, name@, c, BuildInfo { last_built_at: 0 }, *user, now, cr)
            &&& c.builder_id@ == builder_id@
            &&& c.version == (Version { major: 0, minor: 0, patch: 0 })
            &&& c.branch@ == "main"@
            &&& (cr is Ok <==> r is Ok)
            &&& (cr matches Err(e) ==> r == Err::<usize, CoreError>(e))
        },
        r matches Ok(uid) ==> {
            &&& uid == old(db).updates.updates@.len()
            &&& final(db).updates.updates@.len() == uid + 1
            &&& final(db).updates.updates@.drop_last() == old(db).updates.updates@
            &&& ({
                let u = final(db).updates.updates@[uid as int];
                &&& u.operation == Operation::CreateBuild
                &&& u.target == UpdateTarget::Build(id)
                &&& u.status == UpdateStatus::Complete
                &&& u.success
                &&& u.operator@ == user.id@
            })
        },
{
    let i = match db.builders.find(&builder_id) {
        None => {
            return Err(CoreError::NotFound);
        },
        Some(i) => i,
    };
    if !has_permission(user, &db.builders.docs[i].permissions, PermissionLevel::Write) {
        return Err(CoreError::Forbidden);
    }
    let mut config = BuildConfig::default();
    config.builder_id = builder_id;
    let ghost c = config;
    let ghost gid = id@;
    let ghost builds0 = db.builds;
    let target_id = id.clone();
    let cr = db.builds.create(id, name, config, BuildInfo { last_built_at: 0 }, user, now);
    assert(create_outcome(builds0, db.builds, gid, name@, c, BuildInfo { last_built_at: 0 }, *user, now, cr));
    match cr {
        Err(e) => Err(e),
        Ok(()) => {
            let mut update = Update::in_progress(Operation::CreateBuild, UpdateTarget::Build(target_id), &user.id, now);
            update.finalize(now);
            let ghost before = db.updates.updates@;
            let uid = db.updates.add_update(update);
            proof {
                assert(db.updates.updates@.drop_last() =~= before);
                assert(update.logs@.len() == 0);
            }
            Ok(uid)
        },
    }
}

/// What the periphery's build call came back with.
pub enum BuildOutcome {
    /// The stage logs of a build that ran.
    Built(Vec<Log>),
    /// The builder refused to start.
    Busy,
    /// The agent could not be reached.
    Unreachable(String),
}

/// What the periphery's clone call came back with, if one was made.
pub enum CloneOutcome {
    Skipped,
    Cloned(Vec<Log>),
    Failed(String),
}

/// Where a build runs.
#[derive(Clone, Debug)]
pub enum BuildHost {
    /// A registered server, by id.
    Server(String),
    /// A cloud instance provisioned for the build.
    Aws,
}

/// A build action that has started: its update and the version it builds.
pub struct BuildJob {
    pub update_id: usize,
    pub version: Version,
    pub host: BuildHost,
}

/// The logs that a clone outcome adds to an update.
pub open spec fn clone_logs_added(clone: CloneOutcome, added: Seq<Log>) -> bool {
    match clone {
        CloneOutcome::Skipped => added.len() == 0,
        CloneOutcome::Cloned(logs) => added == logs@,
        CloneOutcome::Failed(msg) => added.len() == 1 && !added[0].success && added[0].std_err == Some(msg),
    }
}

/// The logs that a build outcome adds to an update.
pub open spec fn build_logs_added(outcome: BuildOutcome, added: Seq<Log>) -> bool {
    match outcome {
        BuildOutcome::Built(logs) => added == logs@,
        BuildOutcome::Busy => added.len() == 1 && !added[0].success && added[0].std_err is Some
            && added[0].std_err->Some_0@ == "builder busy"@,
        BuildOutcome::Unreachable(msg) => added.len() == 1 && !added[0].success && added[0].std_err == Some(msg),
    }
}

/// Update `uid` of `after` is update `uid` of `before` with `added`
/// appended and closed at `now`; nothing else in the ledger changed.
pub open spec fn completed_with(before: UpdateLedger, after: UpdateLedger, uid: usize, added: Seq<Log>, now: i64) -> bool {
    &&& after.wf()
    &&& after.updates@.len() == before.updates@.len()
    &&& forall|j: int| 0 <= j < before.updates@.len() && j != uid ==> #[trigger] after.updates@[j] == before.updates@[j]
    &&& ({
        let (u0, u1) = (before.updates@[uid as int], after.updates@[uid as int]);
        &&& u1.logs@ == u0.logs@ + added
        &&& u1.status == UpdateStatus::Complete
        &&& u1.end_ts == Some(now)
        &&& u1.success == logs_succeeded(u0.logs@ + added)
        &&& u1.wf()
        &&& u1.operation == u0.operation
        &&& u1.target == u0.target
        &&& u1.version == u0.version
        &&& u1.operator == u0.operator
    })
}

/// `after` holds `u` appended to `before`, with its ledger id.
pub open spec fn pushed_update(before: UpdateLedger, after: UpdateLedger, uid: usize) -> bool {
    &&& after.wf()
    &&& uid == before.updates@.len()
    &&& after.updates@.len() == uid + 1
    &&& after.updates@.drop_last() == before.updates@
}

fn clone_logs(clone: CloneOutcome, now: i64) -> (r: Vec<Log>)
    ensures
        clone_logs_added(clone, r@),
{
    match clone {
        CloneOutcome::Skipped => Vec::new(),
        CloneOutcome::Cloned(logs) => logs,
        CloneOutcome::Failed(msg) => {
            let mut v: Vec<Log> = Vec::new();
            v.push(Log::error("clone repo", msg, now));
            v
        },
    }
}

/// What `update_build` promises.
pub open spec fn update_build_outcome(
    before: Database,
    after: Database,
    proposed: Build,
    user: User,
    now: i64,
    r: Result<(usize, bool), CoreError>,
) -> bool {
    &&& after.wf()
    &&& after.servers == before.servers
    &&& after.builders == before.builders
    &&& after.deployments == before.deployments
    &&& after.repos == before.repos
    &&& update_outcome(before.builds, after.builds, proposed, user, now, match r {
        Ok(_) => Ok::<(), CoreError>(()),
        Err(e) => Err::<(), CoreError>(e),
    })
    &&& r is Err ==> after.updates == before.updates
    &&& r matches Ok((uid, reclone)) ==> {
        let cur = before.builds.get_doc(proposed.id@)->Some_0;
        &&& reclone == build_needs_reclone(cur.config, proposed.config)
        &&& pushed_update(before.updates, after.updates, uid)
        &&& ({
            let u = after.updates.updates@[uid as int];
            &&& u.operation == Operation::UpdateBuild
            &&& u.target == UpdateTarget::Build(proposed.id)
            &&& u.status == UpdateStatus::InProgress
            &&& u.start_ts == now
            &&& u.operator@ == user.id@
            &&& u.logs@.len() == 1
            &&& u.logs@[0].success
            &&& u.logs@[0].std_out is Some
            &&& u.logs@[0].std_out->Some_0@ == build_diff_text(cur.config, proposed.config)
        })
    }
}

/// Applies a config edit to a build and opens its `UpdateBuild` update,
/// whose first log lists the changed fields. Returns the update's id and
/// whether the edit calls for a reclone.
pub fn update_build(db: &mut Database, proposed: Build, user: &User, now: i64) -> (r: Result<(usize, bool), CoreError>)
    requires
        old(db).wf(),
    ensures
        update_build_outcome(*old(db), *final(db), proposed, *user, now, r),
{
    let ghost p = proposed;
    let i = match db.builds.find(&proposed.id) {
        None => {
            let ur = db.builds.update(proposed, user, now);
            assert(update_outcome(old(db).builds, db.builds, p, *user, now, ur));
            return Err(CoreError::NotFound);
        },
        Some(i) => i,
    };
    let diff = build_diff(&db.builds.docs[i].config, &proposed.config);
    let reclone = needs_reclone(&db.builds.docs[i].config, &proposed.config);
    let target_id = proposed.id.clone();
    let ur = db.builds.update(proposed, user, now);
    assert(update_outcome(old(db).builds, db.builds, p, *user, now, ur));
    match ur {
        Err(e) => Err(e),
        Ok(()) => {
            let mut update = Update::in_progress(Operation::UpdateBuild, UpdateTarget::Build(target_id), &user.id, now);
            update.logs.push(Log::simple("build update", diff, now));
            let ghost before = db.updates.updates@;
            let uid = db.updates.add_update(update);
            proof {
                assert(db.updates.updates@.drop_last() =~= before);
            }
            Ok((uid, reclone))
        },
    }
}

/// Closes a clone-carrying update (a config edit or a reclone) with what
/// the clone came back with.
pub fn finish_clone_update(db: &mut Database, uid: usize, clone: CloneOutcome, now: i64)
    requires
        old(db).wf(),
        uid < old(db).updates.updates@.len(),
        old(db).updates.updates@[uid as int].start_ts <= now,
    ensures
        final(db).wf(),
        final(db).servers == old(db).servers,
        final(db).builds == old(db).builds,
        final(db).builders == old(db).builders,
        final(db).deployments == old(db).deployments,
        final(db).repos == old(db).repos,
        exists|added: Seq<Log>| clone_logs_added(clone, added)
            && completed_with(old(db).updates, final(db).updates, uid, added, now),
{
    let extra = clone_logs(clone, now);
    let ghost added = extra@;
    db.updates.complete(uid, extra, now);
    assert(completed_with(old(db).updates, db.updates, uid, added, now));
}

/// The server a build runs on, through its builder.
fn resolve_build_host(db: &Database, builder_id: &String) -> (r: Result<BuildHost, CoreError>)
    requires
        db.wf(),
    ensures
        r is Ok <==> host_resolves(*db, builder_id@),
        r is Err ==> r == Err::<BuildHost, CoreError>(CoreError::NotFound),
{
    match db.builders.find(builder_id) {
        None => Err(CoreError::NotFound),
        Some(i) => match &db.builders.docs[i].config {
            BuilderConfig::Server { server_id } => {
                match db.servers.find(server_id) {
                    None => Err(CoreError::NotFound),
                    Some(_) => Ok(BuildHost::Server(server_id.clone())),
                }
            },
            BuilderConfig::Aws { .. } => Ok(BuildHost::Aws),
        },
    }
}

/// The builder exists and, if it is a server builder, so does its server.
pub open spec fn host_resolves(db: Database, builder_id: Seq<char>) -> bool {
    match db.builders.get_doc(builder_id) {
        None => false,
        Some(b) => match b.config {
            BuilderConfig::Server { server_id } => db.servers.get_doc(server_id@) is Some,
            BuilderConfig::Aws { .. } => true,
        },
    }
}

/// What `begin_build` promises.
pub open spec fn begin_build_outcome(
    before: Database,
    after: Database,
    build_id: Seq<char>,
    user: User,
    now: i64,
    r: Result<BuildJob, CoreError>,
) -> bool {
    &&& after.wf()
    &&& after.servers == before.servers
    &&& after.builds == before.builds
    &&& after.builders == before.builders
    &&& after.deployments == before.deployments
    &&& after.repos == before.repos
    &&& match before.builds.get_doc(build_id) {
        None => r == Err::<BuildJob, CoreError>(CoreError::NotFound),
        Some(b) => if !permitted(user, b.permissions, PermissionLevel::Write) {
            r == Err::<BuildJob, CoreError>(CoreError::Forbidden)
        } else if !host_resolves(before, b.config.builder_id@) {
            r == Err::<BuildJob, CoreError>(CoreError::NotFound)
        } else {
            &&& r is Ok
            &&& r->Ok_0.version == next_version(b.config.version)
            &&& pushed_update(before.updates, after.updates, r->Ok_0.update_id)
            &&& ({
                let u = after.updates.updates@[r->Ok_0.update_id as int];
                &&& u.operation == Operation::BuildBuild
                &&& u.target == UpdateTarget::Build(b.id)
                &&& u.status == UpdateStatus::InProgress
                &&& u.start_ts == now
                &&& u.logs@.len() == 0
                &&& u.version == Some(r->Ok_0.version)
                &&& u.operator@ == user.id@
            })
        },
    }
    &&& r is Err ==> after.updates == before.updates
}

/// Starts the build action: checks `Write`, resolves where it runs, bumps
/// the version in memory and opens a `BuildBuild` update carrying it.
pub fn begin_build(db: &mut Database, build_id: &String, user: &User, now: i64) -> (r: Result<BuildJob, CoreError>)
    requires
        old(db).wf(),
    ensures
        begin_build_outcome(*old(db), *final(db), build_id@, *user, now, r),
{
    let (mut version, host, target_id) = {
        let build = match get_build_check_permissions(db, build_id, user, PermissionLevel::Write) {
            Err(e) => {
                return Err(e);
            },
            Ok(b) => b,
        };
        let host = match resolve_build_host(db, &build.config.builder_id) {
            Err(e) => {
                return Err(e);
            },
            Ok(h) => h,
        };
        (build.config.version, host, build.id.clone())
    };
    version.increment();
    let mut update = Update::in_progress(Operation::BuildBuild, UpdateTarget::Build(target_id), &user.id, now);
    update.version = Some(version);
    let ghost before = db.updates.updates@;
    let uid = db.updates.add_update(update);
    proof {
        assert(db.updates.updates@.drop_last() =~= before);
    }
    Ok(BuildJob { update_id: uid, version, host })
}

/// Stores a built version and the time it was built on build `id`.
fn record_build(builds: &mut Collection<BuildConfig, BuildInfo>, id: &String, version: Version, now: i64)
    requires
        old(builds).wf(),
    ensures
        final(builds).wf(),
        forall|y: Seq<char>| y != id@ ==> final(builds).get_doc(y) == old(builds).get_doc(y),
        match old(builds).get_doc(id@) {
            None => final(builds).get_doc(id@) is None,
            Some(b) => final(builds).get_doc(id@) == Some(Resource {
                config: BuildConfig { version, ..b.config },
                info: BuildInfo { last_built_at: now },
                ..b
            }),
        },
{
    let i = match builds.find(id) {
        None => {
            return;
        },
        Some(i) => i,
    };
    let ghost before = builds.docs@;
    let mut doc = builds.docs.remove(i);
    doc.config.version = version;
    doc.info.last_built_at = now;
    builds.docs.insert(i, doc);
    proof {
        assert(builds.docs@ =~= before.update(i as int, doc));
        assert forall|y: Seq<char>| true implies lookup(builds.docs@, y) == (if y == doc.id@ {
            Some(doc)
        } else {
            lookup(before, y)
        }) by {
            crate::store::lemma_lookup_after_set(before, i as int, doc, y);
        }
        let s = builds.docs@;
        assert forall|a: int, b: int| 0 <= a < s.len() && 0 <= b < s.len() && a != b
            implies (#[trigger] s[a]).name@ != (#[trigger] s[b]).name@ by {
            if a != i {
                assert(s[a] == before[a]);
            }
            if b != i {
                assert(s[b] == before[b]);
            }
        }
    }
}

/// What `finish_build` promises.
pub open spec fn finish_build_outcome(
    before: Database,
    after: Database,
    build_id: Seq<char>,
    job: BuildJob,
    outcome: BuildOutcome,
    now: i64,
) -> bool {
    &&& after.wf()
    &&& after.servers == before.servers
    &&& after.builders == before.builders
    &&& after.deployments == before.deployments
    &&& after.repos == before.repos
    &&& exists|added: Seq<Log>| build_logs_added(outcome, added)
        && completed_with(before.updates, after.updates, job.update_id, added, now)
    &&& forall|y: Seq<char>| y != build_id ==> after.builds.get_doc(y) == before.builds.get_doc(y)
    &&& if outcome is Built && after.updates.updates@[job.update_id as int].success {
        match before.builds.get_doc(build_id) {
            None => after.builds.get_doc(build_id) is None,
            Some(b) => after.builds.get_doc(build_id) == Some(Resource {
                config: BuildConfig { version: job.version, ..b.config },
                info: BuildInfo { last_built_at: now },
                ..b
            }),
        }
    } else {
        after.builds == before.builds
    }
}

/// Closes the build action with what the periphery came back with. Only a
/// build that ran with every stage successful stores its version.
pub fn finish_build(db: &mut Database, build_id: &String, job: &BuildJob, outcome: BuildOutcome, now: i64)
    requires
        old(db).wf(),
        job.update_id < old(db).updates.updates@.len(),
        old(db).updates.updates@[job.update_id as int].start_ts <= now,
    ensures
        finish_build_outcome(*old(db), *final(db), build_id@, *job, outcome, now),
{
    let built = match &outcome {
        BuildOutcome::Built(_) => true,
        _ => false,
    };
    let extra = match outcome {
        BuildOutcome::Built(logs) => logs,
        BuildOutcome::Busy => {
            let mut v: Vec<Log> = Vec::new();
            v.push(Log::error("build", String::from_str("builder busy"), now));
            v
        },
        BuildOutcome::Unreachable(msg) => {
            let mut v: Vec<Log> = Vec::new();
            v.push(Log::error("build", msg, now));
            v
        },
    };
    let ghost added = extra@;
    assert(build_logs_added(outcome, added));
    db.updates.complete(job.update_id, extra, now);
    assert(completed_with(old(db).updates, db.updates, job.update_id, added, now));
    if built && db.updates.updates[job.update_id].success {
        record_build(&mut db.builds, build_id, job.version, now);
    }
}

/// Starts a reclone of a build: checks `Write`, resolves where it runs and
/// opens a `RecloneBuild` update. Close it with `finish_clone_update`.
pub fn begin_reclone_build(db: &mut Database, build_id: &String, user: &User, now: i64)
    -> (r: Result<(usize, BuildHost), CoreError>)
    requires
        old(db).wf(),
    ensures
        final(db).wf(),
        final(db).servers == old(db).servers,
        final(db).builds == old(db).builds,
        final(db).builders == old(db).builders,
        final(db).deployments == old(db).deployments,
        final(db).repos == old(db).repos,
        r is Err ==> final(db).updates == old(db).updates,
        match old(db).builds.get_doc(build_id@) {
            None => r == Err::<(usize, BuildHost), CoreError>(CoreError::NotFound),
            Some(b) => if !permitted(*user, b.permissions, PermissionLevel::Write) {
                r == Err::<(usize, BuildHost), CoreError>(CoreError::Forbidden)
            } else if !host_resolves(*old(db), b.config.builder_id@) {
                r == Err::<(usize, BuildHost), CoreError>(CoreError::NotFound)
            } else {
                &&& r is Ok
                &&& pushed_update(old(db).updates, final(db).updates, r->Ok_0.0)
                &&& ({
                    let u = final(db).updates.updates@[r->Ok_0.0 as int];
                    &&& u.operation == Operation::RecloneBuild
                    &&& u.target == UpdateTarget::Build(b.id)
                    &&& u.status == UpdateStatus::InProgress
                    &&& u.start_ts == now
                    &&& u.logs@.len() == 0
                    &&& u.operator@ == user.id@
                })
            },
        },
{
    let (host, target_id) = {
        let build = match get_build_check_permissions(db, build_id, user, PermissionLevel::Write) {
            Err(e) => {
                return Err(e);
            },
            Ok(b) => b,
        };
        let host = match resolve_build_host(db, &build.config.builder_id) {
            Err(e) => {
                return Err(e);
            },
            Ok(h) => h,
        };
        (host, build.id.clone())
    };
    let update = Update::in_progress(Operation::RecloneBuild, UpdateTarget::Build(target_id), &user.id, now);
    let ghost before = db.updates.updates@;
    let uid = db.updates.add_update(update);
    proof {
        assert(db.updates.updates@.drop_last() =~= before);
    }
    Ok((uid, host))
}

/// Deletes a build once its working copy was cleaned up on its host
/// (`cleanup` is that step's log, failed or not), and records a
/// `DeleteBuild` update on the system.
pub fn delete_build(db: &mut Database, build_id: &String, user: &User, cleanup: Log, now: i64)
    -> (r: Result<(Build, usize), CoreError>)
    requires
        old(db).wf(),
    ensures
        final(db).wf(),
        final(db).servers == old(db).servers,
        final(db).builders == old(db).builders,
        final(db).deployments == old(db).deployments,
        final(db).repos == old(db).repos,
        crate::store::delete_outcome(old(db).builds, final(db).builds, build_id@, *user, match r {
            Ok((b, _)) => Ok::<Build, CoreError>(b),
            Err(e) => Err::<Build, CoreError>(e),
        }),
        r is Err ==> final(db).updates == old(db).updates,
        r matches Ok((_, uid)) ==> {
            &&& pushed_update(old(db).updates, final(db).updates, uid)
            &&& ({
                let u = final(db).updates.updates@[uid as int];
                &&& u.operation == Operation::DeleteBuild
                &&& u.target == UpdateTarget::System
                &&& u.status == UpdateStatus::Complete
                &&& u.logs@.len() == 2
                &&& u.logs@[0] == cleanup
                &&& u.success == cleanup.success
            })
        },
{
    let dr = db.builds.delete(build_id, user);
    assert(crate::store::delete_outcome(old(db).builds, db.builds, build_id@, *user, dr));
    match dr {
        Err(e) => {
            Err(e)
        },
        Ok(build) => {
            let mut msg = String::from_str("deleted build ");
            msg.append(build.name.as_str());
            let mut update = Update::in_progress(Operation::DeleteBuild, UpdateTarget::System, &user.id, now);
            update.logs.push(cleanup);
            update.logs.push(Log::simple("delete build", msg, now));
            let ghost logs = update.logs@;
            update.finalize(now);
            proof {
                if cleanup.success {
                    assert(crate::ledger::logs_succeeded(logs));
                } else {
                    assert(!logs[0].success);
                }
            }
            let ghost before = db.updates.updates@;
            let uid = db.updates.add_update(update);
            proof {
                assert(db.updates.updates@.drop_last() =~= before);
            }
            Ok((build, uid))
        },
    }
}

/// One successful build action (begin, then a build that ran with every
/// stage successful) stores the next version of the one stored before.
pub proof fn lemma_successful_build_round(
    db0: Database,
    db1: Database,
    db2: Database,
    build_id: Seq<char>,
    user: User,
    now: i64,
    job: BuildJob,
    outcome: BuildOutcome,
    later: i64,
)
    requires
        db0.wf(),
        begin_build_outcome(db0, db1, build_id, user, now, Ok(job)),
        finish_build_outcome(db1, db2, build_id, job, outcome, later),
        outcome is Built,
        db2.updates.updates@[job.update_id as int].success,
    ensures
        db0.builds.get_doc(build_id) is Some,
        db2.builds.get_doc(build_id) is Some,
        db2.builds.get_doc(build_id)->Some_0.config.version
            == next_version(db0.builds.get_doc(build_id)->Some_0.config.version),
        db2.builds.get_doc(build_id)->Some_0.info.last_built_at == later,
{
}

/// Stored versions that each follow from a successful build of the one
/// before: after `n` builds from `v` the stored version is `v` incremented
/// `n` times.
pub proof fn lemma_repeated_builds(stored: Seq<Version>, v: Version, n: nat)
    requires
        stored.len() == n + 1,
        stored[0] == v,
        forall|k: int| 0 <= k < n ==> #[trigger] stored[k + 1] == next_version(stored[k]),
    ensures
        stored[n as int] == crate::version::version_after(v, n),
    decreases n,
{
    if n > 0 {
        let m = (n - 1) as nat;
        lemma_repeated_builds(stored.subrange(0, n as int), v, m);
        assert(stored.subrange(0, n as int)[m as int] == stored[m as int]);
        assert(stored[(m + 1) as int] == next_version(stored[m as int]));
    }
}

/// A config edit that does not call for a reclone, closed without a
/// clone, leaves its update with the diff log alone and no clone stage.
pub proof fn lemma_no_reclone_no_clone_stage(
    db0: Database,
    db1: Database,
    db2: Database,
    proposed: Build,
    user: User,
    now: i64,
    r: Result<(usize, bool), CoreError>,
    later: i64,
)
    requires
        db0.wf(),
        update_build_outcome(db0, db1, proposed, user, now, r),
        r is Ok,
        !build_needs_reclone(db0.builds.get_doc(proposed.id@)->Some_0.config, proposed.config),
        exists|added: Seq<Log>| clone_logs_added(CloneOutcome::Skipped, added)
            && completed_with(db1.updates, db2.updates, r->Ok_0.0, added, later),
    ensures
        !r->Ok_0.1,
        db2.updates.updates@[r->Ok_0.0 as int].logs@.len() == 1,
        db2.updates.updates@[r->Ok_0.0 as int].logs@[0] == db1.updates.updates@[r->Ok_0.0 as int].logs@[0],
        db2.updates.updates@[r->Ok_0.0 as int].success,
{
    let added = choose|added: Seq<Log>| clone_logs_added(CloneOutcome::Skipped, added)
        && completed_with(db1.updates, db2.updates, r->Ok_0.0, added, later);
    let u1 = db1.updates.updates@[r->Ok_0.0 as int];
    assert(u1.logs@ + added =~= u1.logs@);
}

} // verus!
