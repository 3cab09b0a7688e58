use vstd::prelude::*;

use crate::stamp::Stamp;
use crate::status::Status;

verus! {

/// One unit of work, tracked from pending through running to completed or
/// failed. The identifier and the display metadata never change; the
/// timestamps are each set exactly once.
pub struct Task {
    pub id: String,
    pub name: String,
    pub description: String,
    pub status: Status,
    pub started_at: Option<Stamp>,
    pub completed_at: Option<Stamp>,
    pub error_message: Option<String>,
}

impl Task {
    /// A well-formed lifecycle record: the optional fields are set exactly
    /// when the status says so, and the completion time does not precede the
    /// start time.
    pub open spec fn wf(self) -> bool {
        &&& (self.error_message is Some <==> self.status == Status::FAILED)
        &&& (self.completed_at is Some <==> self.status.is_terminal())
        &&& (self.started_at is Some <==> self.status != Status::PENDING)
        &&& (self.completed_at is Some ==> self.completed_at->0.secs >= self.started_at->0.secs)
    }

    /// A fresh task: pending, with no timestamps and no error.
    pub fn new(id: &str, name: &str, description: &str) -> (t: Task)
        ensures
            t.id@ == id@,
            t.name@ == name@,
            t.description@ == description@,
            t.status == Status::PENDING,
            t.started_at is None,
            t.completed_at is None,
            t.error_message is None,
            t.wf(),
    {
        Task {
            id: id.to_string(),
            name: name.to_string(),
            description: description.to_string(),
            status: Status::PENDING,
            started_at: None,
            completed_at: None,
            error_message: None,
        }
    }

    /// Pending to running; records the start time.
    pub fn start(&mut self, now: Stamp)
        requires
            old(self).wf(),
            old(self).status == Status::PENDING,
        ensures
            final(self).status == Status::RUNNING,
            final(self).started_at == Some(now),
            final(self).completed_at is None,
            final(self).error_message is None,
            final(self).id == old(self).id,
            final(self).name == old(self).name,
            final(self).description == old(self).description,
            final(self).wf(),
    {
        self.status = Status::RUNNING;
        self.started_at = Some(now);
    }

    /// Running to completed; records the completion time. The start time,
    /// once set, never changes.
    pub fn complete(&mut self, now: Stamp)
        requires
            old(self).wf(),
            old(self).status == Status::RUNNING,
            now.secs >= old(self).started_at->0.secs,
        ensures
            final(self).status == Status::COMPLETED,
            final(self).completed_at == Some(now),
            final(self).started_at == old(self).started_at,
            final(self).error_message is None,
            final(self).id == old(self).id,
            final(self).name == old(self).name,
            final(self).description == old(self).description,
            final(self).wf(),
    {
        self.status = Status::COMPLETED;
        self.completed_at = Some(now);
    }

    /// Running to failed; records the completion time and the error text.
    /// The start time, once set, never changes.
    pub fn fail(&mut self, error: &str, now: Stamp)
        requires
            old(self).wf(),
            old(self).status == Status::RUNNING,
            now.secs >= old(self).started_at->0.secs,
        ensures
            final(self).status == Status::FAILED,
            final(self).completed_at == Some(now),
            final(self).started_at == old(self).started_at,
            final(self).error_message matches Some(m) && m@ == error@,
            final(self).id == old(self).id,
            final(self).name == old(self).name,
            final(self).description == old(self).description,
            final(self).wf(),
    {
        self.status = Status::FAILED;
        self.completed_at = Some(now);
        self.error_message = Some(error.to_string());
    }
}

/// Law: a well-formed task carries an error message exactly when it failed.
pub proof fn lemma_error_message_iff_failed(t: Task)
    requires
        t.wf(),
    ensures
        t.error_message is Some <==> t.status == Status::FAILED,
{
}

/// Law: a well-formed task has a completion time exactly when it reached a
/// terminal state, and a start time exactly when it left the pending state;
/// when both times are present the completion time is not earlier.
pub proof fn lemma_timestamps_track_status(t: Task)
    requires
        t.wf(),
    ensures
        t.completed_at is Some <==> (t.status == Status::COMPLETED || t.status == Status::FAILED),
        t.started_at is Some <==> t.status != Status::PENDING,
        t.completed_at is Some ==> t.completed_at->0.secs >= t.started_at->0.secs,
{
}

} // verus!
