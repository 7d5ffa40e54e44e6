//! A batch of tasks that run independently, at most `limit` of them at a
//! time: the probes of several clips, or the thumbnails of new videos. The
//! caller runs the tasks and tells the batch when one has ended; the batch
//! decides which task starts next.

use vstd::prelude::*;

verus! {

/// What the caller of a batch is to do next.
#[derive(Clone, Copy, Debug, PartialEq, Eq, Structural)]
pub enum Step {
    /// Start the task with this number.
    Start(usize),
    /// Start nothing; come back when a running task has ended.
    Wait,
    /// Nothing is left to do: every task has ended.
    Done,
}

/// A `Batch` as a mathematical value.
pub struct BatchView {
    /// How many tasks may run at a time.
    pub limit: nat,
    /// How many tasks the batch has.
    pub total: nat,
    /// How many tasks have been started, in order from task 0.
    pub started: nat,
    /// How many of these have ended.
    pub finished: nat,
    /// How many of these have failed.
    pub failed: nat,
}

impl BatchView {
    /// How many tasks are running.
    pub open spec fn running(self) -> int {
        self.started - self.finished
    }

    /// What holds of a batch at every moment: no more tasks run than the
    /// limit allows.
    pub open spec fn wf(self) -> bool {
        &&& self.failed <= self.finished <= self.started <= self.total
        &&& self.running() <= self.limit
    }

    /// The batch of `total` tasks of which none has been started.
    pub open spec fn initial(total: nat, limit: nat) -> BatchView {
        BatchView { limit, total, started: 0, finished: 0, failed: 0 }
    }

    /// The batch after the caller has asked what to do next, and the answer.
    pub open spec fn next(self) -> (BatchView, Step) {
        if self.started < self.total && self.running() < self.limit {
            (BatchView { started: self.started + 1, ..self }, Step::Start(self.started as usize))
        } else if self.finished < self.total {
            (self, Step::Wait)
        } else {
            (self, Step::Done)
        }
    }

    /// The batch after a task has ended. Where no task is running, nothing
    /// changes.
    pub open spec fn ended(self, success: bool) -> BatchView {
        if self.finished < self.started {
            BatchView {
                finished: self.finished + 1,
                failed: if success {
                    self.failed
                } else {
                    self.failed + 1
                },
                ..self
            }
        } else {
            self
        }
    }

    /// The batch after a run of events: `None` for the caller asking what to
    /// do next, `Some(success)` for a task that has ended.
    pub open spec fn after_all(self, events: Seq<Option<bool>>) -> BatchView
        decreases events.len(),
    {
        if events.len() == 0 {
            self
        } else {
            let before = self.after_all(events.drop_last());
            match events.last() {
                None => before.next().0,
                Some(success) => before.ended(success),
            }
        }
    }
}

/// A batch of tasks of which at most `limit` run at a time.
#[derive(Debug)]
pub struct Batch {
    limit: usize,
    total: usize,
    started: usize,
    finished: usize,
    failed: usize,
}

impl View for Batch {
    type V = BatchView;

    closed spec fn view(&self) -> BatchView {
        BatchView {
            limit: self.limit as nat,
            total: self.total as nat,
            started: self.started as nat,
            finished: self.finished as nat,
            failed: self.failed as nat,
        }
    }
}

impl Batch {
    #[verifier::type_invariant]
    spec fn inv(self) -> bool {
        self@.wf()
    }

    /// The batch of `total` tasks, of which at most `limit` may run at a
    /// time.
    pub fn new(total: usize, limit: usize) -> (batch: Batch)
        ensures
            batch@ == BatchView::initial(total as nat, limit as nat),
            batch@.wf(),
    {
        Batch { limit, total, started: 0, finished: 0, failed: 0 }
    }

    /// How many tasks are running: never more than the limit.
    pub fn running(&self) -> (count: usize)
        ensures
            count == self@.running(),
            count <= self@.limit,
            self@.wf(),
    {
        proof {
            use_type_invariant(self);
        }
        self.started - self.finished
    }

    /// How many tasks have failed.
    pub fn failed(&self) -> (count: usize)
        ensures
            count == self@.failed,
    {
        self.failed
    }

    /// Decides what the caller does next.
    pub fn next_step(&mut self) -> (step: Step)
        ensures
            old(self)@.wf(),
            final(self)@.wf(),
            final(self)@ == old(self)@.next().0,
            step == old(self)@.next().1,
    {
        proof {
            use_type_invariant(&*self);
        }
        if self.started < self.total && self.started - self.finished < self.limit {
            let index = self.started;
            self.started = self.started + 1;
            Step::Start(index)
        } else if self.finished < self.total {
            Step::Wait
        } else {
            Step::Done
        }
    }

    /// Takes note that a task has ended, with `success` where it did its
    /// work. Answers whether a task was running; where none was, nothing
    /// changes.
    pub fn task_ended(&mut self, success: bool) -> (taken: bool)
        ensures
            final(self)@.wf(),
            taken == (old(self)@.finished < old(self)@.started),
            final(self)@ == old(self)@.ended(success),
    {
        proof {
            use_type_invariant(&*self);
        }
        if self.finished < self.started {
            *self = Batch {
                limit: self.limit,
                total: self.total,
                started: self.started,
                finished: self.finished + 1,
                failed: if success {
                    self.failed
                } else {
                    self.failed + 1
                },
            };
            true
        } else {
            false
        }
    }
}

/// With a limit of K, at most K tasks of a batch run at any moment, however
/// many tasks it has and in whatever order they end.
pub proof fn lemma_batch_is_bounded(total: nat, limit: nat, events: Seq<Option<bool>>)
    ensures
        BatchView::initial(total, limit).after_all(events).wf(),
        BatchView::initial(total, limit).after_all(events).running() <= limit,
        BatchView::initial(total, limit).after_all(events).limit == limit,
        BatchView::initial(total, limit).after_all(events).total == total,
    decreases events.len(),
{
    if events.len() > 0 {
        lemma_batch_is_bounded(total, limit, events.drop_last());
    }
}

/// A task is started only while fewer tasks run than the limit allows, and
/// a batch is done only when every task has ended. With a limit above zero
/// the caller waits only while a task is running.
pub proof fn lemma_batch_steps(batch: BatchView)
    requires
        batch.wf(),
    ensures
        batch.next().1 is Start ==> batch.running() < batch.limit && batch.next().1 == Step::Start(
            batch.started as usize,
        ),
        batch.next().1 == Step::Done ==> batch.finished == batch.total && batch.running() == 0,
        batch.next().1 == Step::Wait && batch.limit > 0 ==> batch.running() > 0,
{
}

/// A task that fails holds up no other: whether a task ended well or not
/// makes no difference to what the batch answers next.
pub proof fn lemma_failure_holds_up_nothing(batch: BatchView)
    requires
        batch.wf(),
    ensures
        batch.ended(false).next().1 == batch.ended(true).next().1,
        batch.ended(false).running() == batch.ended(true).running(),
{
}

} // verus!
