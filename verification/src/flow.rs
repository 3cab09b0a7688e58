use vstd::prelude::*;

use crate::stamp::Stamp;
use crate::status::Status;
use crate::task::Task;

verus! {

/// Some task in the sequence has failed.
pub open spec fn any_failed(ts: Seq<Task>) -> bool {
    exists|i: int| 0 <= i < ts.len() && ts[i].status == Status::FAILED
}

/// Every task in the sequence has completed (vacuously true of an empty
/// sequence).
pub open spec fn all_completed(ts: Seq<Task>) -> bool {
    forall|i: int| 0 <= i < ts.len() ==> ts[i].status == Status::COMPLETED
}

/// Some task in the sequence is running.
pub open spec fn any_running(ts: Seq<Task>) -> bool {
    exists|i: int| 0 <= i < ts.len() && ts[i].status == Status::RUNNING
}

/// The fixed-priority derivation rule for a flow's status: any failed task
/// makes the flow failed; else all tasks completed makes it completed; else
/// any running task makes it running; else it is pending. An empty sequence
/// derives to completed, since the second rule holds vacuously.
pub open spec fn derived_status(ts: Seq<Task>) -> Status {
    if any_failed(ts) {
        Status::FAILED
    } else if all_completed(ts) {
        Status::COMPLETED
    } else if any_running(ts) {
        Status::RUNNING
    } else {
        Status::PENDING
    }
}

/// A named, ordered collection of tasks representing one pipeline run.
pub struct Flow {
    pub id: String,
    pub name: String,
    pub description: String,
    pub tasks: Vec<Task>,
    pub status: Status,
    pub started_at: Option<Stamp>,
    pub completed_at: Option<Stamp>,
}

/// The flow value that `update_status` leaves behind: the status recomputed
/// from the tasks, the completion time set to `now` exactly when the
/// recomputed status is terminal, everything else untouched.
pub open spec fn recomputed(f: Flow, now: Stamp) -> Flow {
    Flow {
        id: f.id,
        name: f.name,
        description: f.description,
        tasks: f.tasks,
        status: derived_status(f.tasks@),
        started_at: f.started_at,
        completed_at: if derived_status(f.tasks@).is_terminal() {
            Some(now)
        } else {
            f.completed_at
        },
    }
}

/// Law: recomputing the status is idempotent. A second recomputation with no
/// intervening task change yields the same status, whatever instants the two
/// recomputations read.
pub proof fn lemma_update_status_idempotent(f: Flow, t1: Stamp, t2: Stamp)
    ensures
        recomputed(recomputed(f, t1), t2).status == recomputed(f, t1).status,
{
}

impl Flow {
    /// A well-formed flow record: the optional fields are set exactly when
    /// the status says so, the completion time does not precede the start
    /// time, and every task is well formed.
    pub open spec fn wf(self) -> bool {
        &&& (self.completed_at is Some <==> self.status.is_terminal())
        &&& (self.started_at is Some <==> self.status != Status::PENDING)
        &&& (self.completed_at is Some ==> self.completed_at->0.secs >= self.started_at->0.secs)
        &&& (forall|i: int| 0 <= i < self.tasks@.len() ==> self.tasks@[i].wf())
    }

    /// A fresh flow: pending, with no tasks, no timestamps.
    pub fn new(id: &str, name: &str, description: &str) -> (f: Flow)
        ensures
            f.id@ == id@,
            f.name@ == name@,
            f.description@ == description@,
            f.tasks@.len() == 0,
            f.status == Status::PENDING,
            f.started_at is None,
            f.completed_at is None,
            f.wf(),
    {
        Flow {
            id: id.to_string(),
            name: name.to_string(),
            description: description.to_string(),
            tasks: Vec::new(),
            status: Status::PENDING,
            started_at: None,
            completed_at: None,
        }
    }

    /// Appends one task; nothing else changes. The task sequence is
    /// append-only during a run.
    pub fn add_task(&mut self, task: Task)
        ensures
            final(self).tasks@ == old(self).tasks@.push(task),
            final(self).id == old(self).id,
            final(self).name == old(self).name,
            final(self).description == old(self).description,
            final(self).status == old(self).status,
            final(self).started_at == old(self).started_at,
            final(self).completed_at == old(self).completed_at,
            old(self).wf() && task.wf() ==> final(self).wf(),
    {
        self.tasks.push(task);
        proof {
            if old(self).wf() && task.wf() {
                assert forall|i: int| 0 <= i < self.tasks@.len() implies self.tasks@[i].wf() by {
                    if i < old(self).tasks@.len() {
                        assert(self.tasks@[i] == old(self).tasks@[i]);
                    } else {
                        assert(self.tasks@[i] == task);
                    }
                }
            }
        }
    }

    /// Pending to running; records the start time.
    pub fn start(&mut self, now: Stamp)
        requires
            old(self).wf(),
            old(self).status == Status::PENDING,
        ensures
            final(self).status == Status::RUNNING,
            final(self).started_at == Some(now),
            final(self).completed_at is None,
            final(self).tasks == old(self).tasks,
            final(self).id == old(self).id,
            final(self).name == old(self).name,
            final(self).description == old(self).description,
            final(self).wf(),
    {
        self.status = Status::RUNNING;
        self.started_at = Some(now);
    }

    /// Running to completed; records the completion time.
    pub fn complete(&mut self, now: Stamp)
        requires
            old(self).wf(),
            old(self).status == Status::RUNNING,
            now.secs >= old(self).started_at->0.secs,
        ensures
            final(self).status == Status::COMPLETED,
            final(self).completed_at == Some(now),
            final(self).started_at == old(self).started_at,
            final(self).tasks == old(self).tasks,
            final(self).id == old(self).id,
            final(self).name == old(self).name,
            final(self).description == old(self).description,
            final(self).wf(),
    {
        self.status = Status::COMPLETED;
        self.completed_at = Some(now);
    }

    /// Running to failed; records the completion time.
    pub fn fail(&mut self, now: Stamp)
        requires
            old(self).wf(),
            old(self).status == Status::RUNNING,
            now.secs >= old(self).started_at->0.secs,
        ensures
            final(self).status == Status::FAILED,
            final(self).completed_at == Some(now),
            final(self).started_at == old(self).started_at,
            final(self).tasks == old(self).tasks,
            final(self).id == old(self).id,
            final(self).name == old(self).name,
            final(self).description == old(self).description,
            final(self).wf(),
    {
        self.status = Status::FAILED;
        self.completed_at = Some(now);
    }

    /// Recomputes the status from the tasks by the fixed-priority rule: the
    /// pull-based path, distinct from the explicit transitions above. It
    /// sets the completion time exactly when the recomputed status is
    /// terminal; it leaves the start time, the tasks and the metadata alone.
    pub fn update_status(&mut self, now: Stamp)
        ensures
            *final(self) == recomputed(*old(self), now),
            final(self).status == derived_status(old(self).tasks@),
            final(self).tasks == old(self).tasks,
            derived_status(old(self).tasks@).is_terminal() ==> final(self).completed_at == Some(
                now,
            ),
            !derived_status(old(self).tasks@).is_terminal() ==> final(self).completed_at == old(
                self,
            ).completed_at,
    {
        let n = self.tasks.len();
        let mut i: usize = 0;
        let mut saw_failed = false;
        let mut saw_running = false;
        let mut rest_completed = true;
        while i < n
            invariant
                n == self.tasks@.len(),
                i <= n,
                saw_failed == exists|j: int|
                    0 <= j < i && self.tasks@[j].status == Status::FAILED,
                saw_running == exists|j: int|
                    0 <= j < i && self.tasks@[j].status == Status::RUNNING,
                rest_completed == forall|j: int|
                    0 <= j < i ==> self.tasks@[j].status == Status::COMPLETED,
            decreases n - i,
        {
            let st = self.tasks[i].status;
            if st == Status::FAILED {
                saw_failed = true;
            }
            if st == Status::RUNNING {
                saw_running = true;
            }
            if st != Status::COMPLETED {
                rest_completed = false;
            }
            i += 1;
        }
        if saw_failed {
            self.status = Status::FAILED;
            self.completed_at = Some(now);
        } else if rest_completed {
            self.status = Status::COMPLETED;
            self.completed_at = Some(now);
        } else if saw_running {
            self.status = Status::RUNNING;
        } else {
            self.status = Status::PENDING;
        }
    }
}

} // verus!
