//! The decisions of a handler: its lifecycle (idle, running, stopped) and the
//! queue of jobs that its worker runs one by one.

use crate::queue::{Fifo, put_all, take_all, lemma_fifo_order};
use vstd::prelude::*;

verus! {

/// What the worker finds in its queue: a posted task, or the wake-up that
/// `stop` posts so that a worker blocked on an empty queue sees the stop.
pub enum Job<T> {
    Run(T),
    Wake,
}

/// What the caller of `start` must do next.
#[derive(PartialEq, Eq, Structural, Debug, Clone, Copy)]
pub enum StartAction {
    Nothing,
    SpawnWorker,
}

/// What the caller of `stop` must do next.
#[derive(PartialEq, Eq, Structural, Debug, Clone, Copy)]
pub enum StopAction {
    Nothing,
    JoinWorker,
}

/// The status flags `(started, alive)` after `start` from `(s, a)`, and the action.
pub open spec fn start_step(s: bool, a: bool) -> (bool, bool, StartAction) {
    if s || a {
        (s, a, StartAction::Nothing)
    } else {
        (true, true, StartAction::SpawnWorker)
    }
}

/// The status flags `(started, alive)` after `stop` from `(s, a)`, and the action.
pub open spec fn stop_step(s: bool, a: bool) -> (bool, bool, StopAction) {
    if !s || !a {
        (s, a, StopAction::Nothing)
    } else {
        (s, false, StopAction::JoinWorker)
    }
}

/// The jobs that posting `tasks`, in order, appends.
pub open spec fn run_jobs<T>(tasks: Seq<T>) -> Seq<Job<T>> {
    tasks.map_values(|t: T| Job::Run(t))
}

/// The state of one handler: its two status flags and its pending jobs.
pub struct HandlerCore<T> {
    started: bool,
    alive: bool,
    jobs: Fifo<Job<T>>,
}

impl<T> HandlerCore<T> {
    pub closed spec fn started(&self) -> bool {
        self.started
    }

    pub closed spec fn alive(&self) -> bool {
        self.alive
    }

    pub closed spec fn pending(&self) -> Seq<Job<T>> {
        self.jobs@
    }

    /// A handler that was never started, with no pending job.
    pub fn new() -> (h: HandlerCore<T>)
        ensures
            !h.started(),
            !h.alive(),
            h.pending() == Seq::<Job<T>>::empty(),
    {
        HandlerCore { started: false, alive: false, jobs: Fifo::new() }
    }

    pub fn is_started(&self) -> (res: bool)
        ensures
            res == self.started(),
    {
        self.started
    }

    pub fn is_alive(&self) -> (res: bool)
        ensures
            res == self.alive(),
    {
        self.alive
    }

    /// Marks the handler started and alive, unless it is one or the other
    /// already; says whether a worker must be spawned.
    pub fn start(&mut self) -> (act: StartAction)
        ensures
            (final(self).started(), final(self).alive(), act) == start_step(
                old(self).started(),
                old(self).alive(),
            ),
            final(self).pending() == old(self).pending(),
    {
        if self.started || self.alive {
            StartAction::Nothing
        } else {
            self.started = true;
            self.alive = true;
            StartAction::SpawnWorker
        }
    }

    /// Marks a running handler no longer alive and posts the wake-up job;
    /// elsewhere does nothing. Says whether the worker must be joined.
    pub fn stop(&mut self) -> (act: StopAction)
        ensures
            (final(self).started(), final(self).alive(), act) == stop_step(
                old(self).started(),
                old(self).alive(),
            ),
            act == StopAction::JoinWorker ==> final(self).pending() == old(self).pending().push(
                Job::Wake,
            ),
            act == StopAction::Nothing ==> final(self).pending() == old(self).pending(),
    {
        if !self.started || !self.alive {
            StopAction::Nothing
        } else {
            self.alive = false;
            self.jobs.put(Job::Wake);
            StopAction::JoinWorker
        }
    }

    /// Queues a task, whatever the state: before `start` it waits for the
    /// worker, after `stop` it is never run.
    pub fn post(&mut self, task: T)
        ensures
            final(self).pending() == old(self).pending().push(Job::Run(task)),
            final(self).started() == old(self).started(),
            final(self).alive() == old(self).alive(),
    {
        self.jobs.put(Job::Run(task));
    }

    /// The next job for the worker, taken off the head of the queue; `None`
    /// where nothing is pending (the worker then waits for a post).
    pub fn next_job(&mut self) -> (res: Option<Job<T>>)
        ensures
            old(self).pending().len() == 0 ==> res.is_none() && final(self).pending()
                == old(self).pending(),
            old(self).pending().len() > 0 ==> res == Some(old(self).pending()[0])
                && final(self).pending() == old(self).pending().drop_first(),
            final(self).started() == old(self).started(),
            final(self).alive() == old(self).alive(),
    {
        self.jobs.take()
    }

    /// Whether the worker goes on after a job: only while the handler is alive.
    pub fn keeps_running(&self) -> (res: bool)
        ensures
            res == self.alive(),
    {
        self.alive
    }
}

/// Starting twice in a row spawns one worker and leaves the handler alive;
/// stopping twice after one start joins once and leaves it not alive.
pub proof fn lemma_start_stop_idempotent()
    ensures
        ({
            let (s1, a1, act1) = start_step(false, false);
            let (s2, a2, act2) = start_step(s1, a1);
            &&& act1 == StartAction::SpawnWorker
            &&& act2 == StartAction::Nothing
            &&& a2
            &&& s2
        }),
        ({
            let (s1, a1, _x) = start_step(false, false);
            let (s2, a2, act2) = stop_step(s1, a1);
            let (s3, a3, act3) = stop_step(s2, a2);
            &&& act2 == StopAction::JoinWorker
            &&& act3 == StopAction::Nothing
            &&& !a3
            &&& s3
        }),
{
}

/// Whatever the flags, a second `start` right after a first spawns nothing,
/// and a second `stop` right after a first joins nothing.
pub proof fn lemma_repeat_is_noop(s: bool, a: bool)
    ensures
        ({
            let (s1, a1, _x) = start_step(s, a);
            start_step(s1, a1) == (s1, a1, StartAction::Nothing)
        }),
        ({
            let (s1, a1, _x) = stop_step(s, a);
            stop_step(s1, a1) == (s1, a1, StopAction::Nothing)
        }),
{
}

/// Tasks posted one after another reach the worker each exactly once, in
/// the order they were posted, after the jobs already pending.
pub proof fn lemma_posted_tasks_run_in_order<T>(pending: Seq<Job<T>>, tasks: Seq<T>)
    ensures
        take_all(put_all(pending, run_jobs(tasks)), pending.len() + tasks.len()) == pending
            + run_jobs(tasks),
{
    lemma_fifo_order(pending, run_jobs(tasks));
}

} // verus!
