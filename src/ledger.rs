use vstd::prelude::*;
use crate::entities::Operation;
use crate::version::Version;

verus! {

/// Output of one stage of an operation.
#[derive(Clone, Debug)]
pub struct Log {
    pub stage: String,
    pub std_out: Option<String>,
    pub std_err: Option<String>,
    pub success: bool,
    pub start_ts: i64,
    pub end_ts: i64,
}

impl Log {
    /// A successful stage that only reports `msg`.
    pub fn simple(stage: &str, msg: String, ts: i64) -> (r: Log)
        ensures
            r.stage@ == stage@,
            r.std_out == Some(msg),
            r.std_err.is_none(),
            r.success,
            r.start_ts == ts,
            r.end_ts == ts,
    {
        Log { stage: stage.to_owned(), std_out: Some(msg), std_err: None, success: true, start_ts: ts, end_ts: ts }
    }

    /// A failed stage with `msg` as its error output.
    pub fn error(stage: &str, msg: String, ts: i64) -> (r: Log)
        ensures
            r.stage@ == stage@,
            r.std_out.is_none(),
            r.std_err == Some(msg),
            !r.success,
            r.start_ts == ts,
            r.end_ts == ts,
    {
        Log { stage: stage.to_owned(), std_out: None, std_err: Some(msg), success: false, start_ts: ts, end_ts: ts }
    }
}

pub open spec fn logs_succeeded(logs: Seq<Log>) -> bool {
    forall|i: int| 0 <= i < logs.len() ==> #[trigger] logs[i].success
}

/// Whether every stage succeeded.
pub fn all_logs_success(logs: &Vec<Log>) -> (r: bool)
    ensures
        r == logs_succeeded(logs@),
{
    let mut i: usize = 0;
    while i < logs.len()
        invariant
            i <= logs@.len(),
            forall|j: int| 0 <= j < i ==> #[trigger] logs@[j].success,
        decreases logs@.len() - i,
    {
        if !logs[i].success {
            return false;
        }
        i = i + 1;
    }
    true
}

#[derive(Clone, Copy, Debug, PartialEq, Eq, Structural)]
pub enum UpdateStatus {
    Queued,
    InProgress,
    Complete,
}

/// What an update is about.
#[derive(Clone, Debug)]
pub enum UpdateTarget {
    System,
    Server(String),
    Build(String),
    Deployment(String),
    Repo(String),
    Builder(String),
}

/// Audit record of one operation.
#[derive(Clone, Debug)]
pub struct Update {
    /// Position in the ledger.
    pub id: usize,
    pub operation: Operation,
    pub target: UpdateTarget,
    pub start_ts: i64,
    pub end_ts: Option<i64>,
    pub status: UpdateStatus,
    pub success: bool,
    pub logs: Vec<Log>,
    pub operator: String,
    pub version: Option<Version>,
}

impl Update {
    /// `end_ts` is set exactly when the update is complete, and not before
    /// its start.
    pub open spec fn wf(&self) -> bool {
        &&& (self.end_ts.is_some() <==> self.status == UpdateStatus::Complete)
        &&& (self.end_ts matches Some(e) ==> self.start_ts <= e)
    }

    /// A fresh in-progress update with no logs yet.
    pub fn in_progress(operation: Operation, target: UpdateTarget, operator: &String, start_ts: i64) -> (r: Update)
        ensures
            r.wf(),
            r.operation == operation,
            r.target == target,
            r.start_ts == start_ts,
            r.status == UpdateStatus::InProgress,
            r.end_ts.is_none(),
            r.success,
            r.logs@.len() == 0,
            r.operator@ == operator@,
            r.version.is_none(),
    {
        Update {
            id: 0,
            operation,
            target,
            start_ts,
            end_ts: None,
            status: UpdateStatus::InProgress,
            success: true,
            logs: Vec::new(),
            operator: operator.clone(),
            version: None,
        }
    }

    /// Closes the update at `now`: complete, and successful exactly when
    /// every stage succeeded.
    pub fn finalize(&mut self, now: i64)
        requires
            old(self).start_ts <= now,
        ensures
            final(self).wf(),
            final(self).status == UpdateStatus::Complete,
            final(self).end_ts == Some(now),
            final(self).success == logs_succeeded(old(self).logs@),
            final(self).logs == old(self).logs,
            final(self).id == old(self).id,
            final(self).operation == old(self).operation,
            final(self).target == old(self).target,
            final(self).start_ts == old(self).start_ts,
            final(self).operator == old(self).operator,
            final(self).version == old(self).version,
    {
        self.success = all_logs_success(&self.logs);
        self.end_ts = Some(now);
        self.status = UpdateStatus::Complete;
    }
}

/// The updates recorded so far, each at the position given by its id.
pub struct UpdateLedger {
    pub updates: Vec<Update>,
}

impl UpdateLedger {
    pub open spec fn wf(&self) -> bool {
        forall|i: int| 0 <= i < self.updates@.len() ==> #[trigger] self.updates@[i].id == i
    }

    pub fn new() -> (r: UpdateLedger)
        ensures
            r.wf(),
            r.updates@.len() == 0,
    {
        UpdateLedger { updates: Vec::new() }
    }

    /// Records `update` and returns its id.
    pub fn add_update(&mut self, update: Update) -> (id: usize)
        requires
            old(self).wf(),
        ensures
            final(self).wf(),
            id == old(self).updates@.len(),
            final(self).updates@ == old(self).updates@.push(Update { id, ..update }),
    {
        let id = self.updates.len();
        let mut u = update;
        u.id = id;
        self.updates.push(u);
        id
    }

    /// Overwrites the recorded update with `update.id`; an unknown id
    /// changes nothing.
    pub fn update_update(&mut self, update: Update)
        requires
            old(self).wf(),
        ensures
            final(self).wf(),
            update.id < old(self).updates@.len() ==> final(self).updates@
                == old(self).updates@.update(update.id as int, update),
            update.id >= old(self).updates@.len() ==> final(self).updates@ == old(self).updates@,
    {
        if update.id < self.updates.len() {
            let id = update.id;
            self.updates.set(id, update);
        }
    }
}

impl UpdateLedger {
    /// Appends `extra` to the logs of update `id` and closes it at `now`.
    pub fn complete(&mut self, id: usize, extra: Vec<Log>, now: i64)
        requires
            old(self).wf(),
            id < old(self).updates@.len(),
            old(self).updates@[id as int].start_ts <= now,
        ensures
            final(self).wf(),
            final(self).updates@.len() == old(self).updates@.len(),
            forall|j: int| 0 <= j < old(self).updates@.len() && j != id ==> #[trigger] final(self).updates@[j]
                == old(self).updates@[j],
            ({
                let (u0, u1) = (old(self).updates@[id as int], final(self).updates@[id as int]);
                &&& u1.logs@ == u0.logs@ + extra@
                &&& u1.status == UpdateStatus::Complete
                &&& u1.end_ts == Some(now)
                &&& u1.success == logs_succeeded(u0.logs@ + extra@)
                &&& u1.wf()
                &&& u1.operation == u0.operation
                &&& u1.target == u0.target
                &&& u1.start_ts == u0.start_ts
                &&& u1.version == u0.version
                &&& u1.operator == u0.operator
            }),
    {
        let ghost before = self.updates@;
        let mut u = self.updates.remove(id);
        let mut extra = extra;
        u.logs.append(&mut extra);
        u.finalize(now);
        self.updates.insert(id, u);
        proof {
            assert forall|j: int| 0 <= j < before.len() && j != id implies #[trigger] self.updates@[j] == before[j] by {
                if j < id {
                    assert(self.updates@[j] == before.remove(id as int)[j]);
                } else {
                    assert(self.updates@[j] == before.remove(id as int)[j - 1]);
                }
            }
        }
    }
}

/// Past build as an old-style record.
#[derive(Clone, Debug)]
pub struct BuildRecord {
    pub start_ts: i64,
    pub end_ts: i64,
    pub successful: bool,
    pub logs: Vec<Log>,
    pub version: Option<Version>,
}

} // verus!
