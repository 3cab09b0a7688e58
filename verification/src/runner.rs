use vstd::prelude::*;

use crate::flow::derived_status;
use crate::flow::Flow;
use crate::stamp::Stamp;
use crate::status::Status;
use crate::task::Task;

verus! {

/// Where the driver stands in its run.
#[derive(Clone, Copy, Debug, PartialEq, Eq, Structural)]
pub enum RunPhase {
    /// Created; the flow has not started yet.
    Ready,
    /// The flow runs and no task is in flight.
    Idle,
    /// The task taken from the head of the queue is in flight.
    Working,
    /// The run ended: the flow completed or failed.
    Done,
}

/// Drives the tasks of one flow in order, fail-fast: the first task failure
/// fails the flow and leaves the rest of the queue untouched. Tasks join the
/// flow's sequence as they finish, so a snapshot taken after a failure shows
/// every task that was attempted — the failed one last — and none that was
/// not.
pub struct Runner {
    pub flow: Flow,
    pub queue: Vec<Task>,
    pub current: Option<Task>,
    pub phase: RunPhase,
}

impl Runner {
    /// The tasks already recorded on the flow.
    pub open spec fn done_tasks(self) -> Seq<Task> {
        self.flow.tasks@
    }

    /// The driver's invariant, phase by phase. Whatever the phase, every
    /// queued task still waits, and every task recorded on the flow — save a
    /// final failed one — has completed.
    pub open spec fn wf(self) -> bool {
        &&& self.flow.wf()
        &&& (forall|i: int|
            0 <= i < self.queue@.len() ==> self.queue@[i].wf() && self.queue@[i].status
                == Status::PENDING)
        &&& match self.phase {
            RunPhase::Ready => {
                &&& self.flow.status == Status::PENDING
                &&& self.current is None
                &&& self.done_tasks().len() == 0
            },
            RunPhase::Idle => {
                &&& self.flow.status == Status::RUNNING
                &&& self.current is None
                &&& (forall|i: int|
                    0 <= i < self.done_tasks().len() ==> self.done_tasks()[i].status
                        == Status::COMPLETED)
            },
            RunPhase::Working => {
                &&& self.flow.status == Status::RUNNING
                &&& self.current matches Some(t) && t.wf() && t.status == Status::RUNNING
                &&& (forall|i: int|
                    0 <= i < self.done_tasks().len() ==> self.done_tasks()[i].status
                        == Status::COMPLETED)
            },
            RunPhase::Done => {
                &&& self.current is None
                &&& {
                    ||| (self.flow.status == Status::COMPLETED && (forall|i: int|
                        0 <= i < self.done_tasks().len() ==> self.done_tasks()[i].status
                            == Status::COMPLETED))
                    ||| (self.flow.status == Status::FAILED && self.done_tasks().len() > 0
                        && self.done_tasks().last().status == Status::FAILED && (forall|i: int|
                        0 <= i < self.done_tasks().len() - 1 ==> self.done_tasks()[i].status
                            == Status::COMPLETED))
                }
            },
        }
    }

    /// Takes over a pending flow with no tasks recorded yet, and the queue
    /// of tasks to run, in order.
    pub fn new(flow: Flow, queue: Vec<Task>) -> (r: Runner)
        requires
            flow.wf(),
            flow.status == Status::PENDING,
            flow.tasks@.len() == 0,
            forall|i: int|
                0 <= i < queue@.len() ==> queue@[i].wf() && queue@[i].status == Status::PENDING,
        ensures
            r.wf(),
            r.phase == RunPhase::Ready,
            r.flow == flow,
            r.queue == queue,
    {
        Runner { flow, queue, current: None, phase: RunPhase::Ready }
    }

    /// Starts the flow.
    pub fn start_run(&mut self, now: Stamp)
        requires
            old(self).wf(),
            old(self).phase == RunPhase::Ready,
        ensures
            final(self).wf(),
            final(self).phase == RunPhase::Idle,
            final(self).flow.status == Status::RUNNING,
            final(self).flow.started_at == Some(now),
            final(self).flow.completed_at is None,
            final(self).flow.tasks == old(self).flow.tasks,
            final(self).flow.id == old(self).flow.id,
            final(self).flow.name == old(self).flow.name,
            final(self).flow.description == old(self).flow.description,
            final(self).queue == old(self).queue,
    {
        self.flow.start(now);
        self.phase = RunPhase::Idle;
    }

    /// True while a task remains to start.
    pub fn has_next(&self) -> (b: bool)
        ensures
            b == (self.phase == RunPhase::Idle && self.queue@.len() > 0),
    {
        self.phase == RunPhase::Idle && self.queue.len() > 0
    }

    /// Takes the task at the head of the queue and starts it.
    pub fn start_task(&mut self, now: Stamp)
        requires
            old(self).wf(),
            old(self).phase == RunPhase::Idle,
            old(self).queue@.len() > 0,
        ensures
            final(self).wf(),
            final(self).phase == RunPhase::Working,
            final(self).queue@ == old(self).queue@.drop_first(),
            final(self).flow.tasks == old(self).flow.tasks,
            final(self).current matches Some(t) && t.status == Status::RUNNING && t.started_at
                == Some(now) && t.id@ == old(self).queue@[0].id@ && t.name@ == old(
                self,
            ).queue@[0].name@ && t.description@ == old(self).queue@[0].description@,
            final(self).flow.status == old(self).flow.status,
            final(self).flow.started_at == old(self).flow.started_at,
            final(self).flow.completed_at == old(self).flow.completed_at,
            final(self).flow.id == old(self).flow.id,
            final(self).flow.name == old(self).flow.name,
            final(self).flow.description == old(self).flow.description,
    {
        let mut t = self.queue.remove(0);
        t.start(now);
        self.current = Some(t);
        self.phase = RunPhase::Working;
        proof {
            assert(final(self).queue@ =~= old(self).queue@.drop_first());
        }
    }

    /// What a successful step leaves behind: the finished task joins the
    /// flow's sequence as completed, the queue and the flow's lifecycle are
    /// untouched, and the run goes on.
    pub open spec fn ok_step(pre: Runner, post: Runner, now: Stamp) -> bool {
        &&& post.phase == RunPhase::Idle
        &&& post.flow.status == Status::RUNNING
        &&& post.queue == pre.queue
        &&& post.current is None
        &&& post.done_tasks().len() == pre.done_tasks().len() + 1
        &&& post.done_tasks().last().status == Status::COMPLETED
        &&& post.done_tasks().last().completed_at == Some(now)
        &&& post.done_tasks().last().started_at == pre.current->0.started_at
        &&& post.done_tasks().last().error_message is None
        &&& post.done_tasks().last().id@ == pre.current->0.id@
        &&& post.done_tasks().last().name@ == pre.current->0.name@
        &&& post.done_tasks().last().description@ == pre.current->0.description@
        &&& (forall|i: int|
            0 <= i < pre.done_tasks().len() ==> post.done_tasks()[i] == pre.done_tasks()[i])
        &&& post.flow.started_at == pre.flow.started_at
        &&& post.flow.completed_at == pre.flow.completed_at
        &&& post.flow.id == pre.flow.id
        &&& post.flow.name == pre.flow.name
        &&& post.flow.description == pre.flow.description
    }

    /// What a failed step leaves behind: the task joins the flow's sequence
    /// as failed and carries the error text, the flow fails at once, and the
    /// queue is left untouched — no further task is attempted.
    pub open spec fn err_step(pre: Runner, post: Runner, msg: Seq<char>, now: Stamp) -> bool {
        &&& post.phase == RunPhase::Done
        &&& post.flow.status == Status::FAILED
        &&& post.flow.completed_at == Some(now)
        &&& post.queue == pre.queue
        &&& post.current is None
        &&& post.done_tasks().len() == pre.done_tasks().len() + 1
        &&& post.done_tasks().last().status == Status::FAILED
        &&& post.done_tasks().last().error_message matches Some(m) && m@ == msg
        &&& post.done_tasks().last().completed_at matches Some(c) && c.agrees(now)
        &&& post.done_tasks().last().started_at == pre.current->0.started_at
        &&& post.done_tasks().last().id@ == pre.current->0.id@
        &&& post.done_tasks().last().name@ == pre.current->0.name@
        &&& post.done_tasks().last().description@ == pre.current->0.description@
        &&& (forall|i: int|
            0 <= i < pre.done_tasks().len() ==> post.done_tasks()[i] == pre.done_tasks()[i])
        &&& post.flow.started_at == pre.flow.started_at
        &&& post.flow.id == pre.flow.id
        &&& post.flow.name == pre.flow.name
        &&& post.flow.description == pre.flow.description
    }

    /// Records the outcome of the task in flight. On success the task
    /// completes and the run goes on; on an error the task fails with that
    /// error's text, the whole flow fails at once, and the queue is left as
    /// it stands. Returns whether the step failed.
    pub fn finish_task(&mut self, outcome: Result<(), String>, now: Stamp) -> (failed: bool)
        requires
            old(self).wf(),
            old(self).phase == RunPhase::Working,
            now.secs >= old(self).current->0.started_at->0.secs,
            now.secs >= old(self).flow.started_at->0.secs,
        ensures
            final(self).wf(),
            failed == (outcome is Err),
            outcome is Ok ==> Runner::ok_step(*old(self), *final(self), now),
            outcome matches Err(m) ==> Runner::err_step(*old(self), *final(self), m@, now),
    {
        let mut t = self.current.take().unwrap();
        match outcome {
            Ok(()) => {
                t.complete(now);
                self.flow.add_task(t);
                self.phase = RunPhase::Idle;
                false
            },
            Err(e) => {
                t.fail(e.as_str(), now.duplicate());
                self.flow.add_task(t);
                self.flow.fail(now);
                self.phase = RunPhase::Done;
                true
            },
        }
    }

    /// Ends a run whose every task has completed: the flow completes.
    pub fn finalize(&mut self, now: Stamp)
        requires
            old(self).wf(),
            old(self).phase == RunPhase::Idle,
            old(self).queue@.len() == 0,
            now.secs >= old(self).flow.started_at->0.secs,
        ensures
            final(self).wf(),
            final(self).phase == RunPhase::Done,
            final(self).flow.status == Status::COMPLETED,
            final(self).flow.completed_at == Some(now),
            final(self).flow.started_at == old(self).flow.started_at,
            final(self).flow.tasks == old(self).flow.tasks,
            final(self).flow.id == old(self).flow.id,
            final(self).flow.name == old(self).flow.name,
            final(self).flow.description == old(self).flow.description,
            final(self).queue == old(self).queue,
            forall|i: int|
                0 <= i < final(self).done_tasks().len() ==> final(self).done_tasks()[i].status
                    == Status::COMPLETED,
    {
        self.flow.complete(now);
        self.phase = RunPhase::Done;
    }
}

/// Law: when the run has ended, the status the driver set by the explicit
/// transitions agrees with the status the fixed-priority rule derives from
/// the recorded tasks — save that a run that recorded no task at all ends
/// completed under both readings only because the all-completed rule holds
/// vacuously.
pub proof fn lemma_done_agrees_with_derivation(r: Runner)
    requires
        r.wf(),
        r.phase == RunPhase::Done,
    ensures
        r.flow.status == derived_status(r.flow.tasks@),
{
    let ts = r.flow.tasks@;
    if r.flow.status == Status::COMPLETED {
        assert(!crate::flow::any_failed(ts));
        assert(crate::flow::all_completed(ts));
    } else {
        assert(ts[ts.len() - 1].status == Status::FAILED);
        assert(crate::flow::any_failed(ts));
    }
}

} // verus!
