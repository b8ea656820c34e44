use std::collections::VecDeque;
use vstd::prelude::*;

use crate::task::{PollStart, TaskState};

verus! {

/// What the run loop does next.
#[derive(Clone, Copy, Debug, PartialEq, Eq, Structural)]
pub enum Step {
    /// Poll the future of the task with this id once, then report the result with `complete`.
    Poll(usize),
    /// An entry of the task with this id was taken off the queue and dropped: the task has
    /// finished, or a poll of it is already in flight.
    Skip(usize),
    /// Nothing is queued, but a wake may still come: block until one does.
    Idle,
    /// Nothing is queued and no wake can come any more: the loop ends.
    Stopped,
}

/// Why a spawn was refused.
#[derive(Clone, Copy, Debug, PartialEq, Eq, Structural)]
pub enum SpawnError {
    /// The scheduler no longer accepts work.
    NotRunning,
}

impl SpawnError {
    /// A description of the error for people.
    pub fn message(&self) -> (r: &'static str)
        ensures
            *self == SpawnError::NotRunning ==> r@ == "scheduler not running"@,
    {
        match self {
            SpawnError::NotRunning => "scheduler not running",
        }
    }
}

/// The scheduler as a mathematical value.
pub struct SchedulerView {
    /// The poll state of each task, indexed by task id.
    pub tasks: Seq<TaskState>,
    /// For each task, how many of its wakers are alive outside the scheduler.
    pub wakers: Seq<usize>,
    /// Ids of the tasks awaiting a poll attempt, front first.
    pub queue: Seq<usize>,
    /// Whether the scheduler still holds its own handle for spawns.
    pub open: bool,
}

impl SchedulerView {
    pub open spec fn wf(self) -> bool {
        &&& self.tasks.len() == self.wakers.len()
        &&& forall|i: int| 0 <= i < self.tasks.len() ==> (#[trigger] self.tasks[i]).wf()
        &&& forall|i: int| 0 <= i < self.queue.len() ==> (#[trigger] self.queue[i]) < self.tasks.len()
    }

    pub open spec fn has_task(self, id: usize) -> bool {
        id < self.tasks.len()
    }

    /// A wake can still reach the queue: the scheduler's own handle is held,
    /// or some task has a waker alive.
    pub open spec fn producers_alive(self) -> bool {
        self.open || exists|i: int| 0 <= i < self.wakers.len() && #[trigger] self.wakers[i] > 0
    }

    pub open spec fn initial() -> SchedulerView {
        SchedulerView { tasks: Seq::empty(), wakers: Seq::empty(), queue: Seq::empty(), open: true }
    }

    /// A new task, not yet polled, is added and queued for its first poll.
    pub open spec fn spawned(self) -> SchedulerView {
        SchedulerView {
            tasks: self.tasks.push(TaskState::fresh()),
            wakers: self.wakers.push(0),
            queue: self.queue.push(self.tasks.len() as usize),
            open: self.open,
        }
    }

    pub open spec fn woken(self, id: usize) -> SchedulerView {
        SchedulerView { queue: self.queue.push(id), ..self }
    }

    pub open spec fn closed(self) -> SchedulerView {
        SchedulerView { open: false, ..self }
    }

    pub open spec fn waker_retained(self, id: usize) -> SchedulerView {
        SchedulerView {
            wakers: self.wakers.update(id as int, (self.wakers[id as int] + 1) as usize),
            ..self
        }
    }

    pub open spec fn waker_released(self, id: usize) -> SchedulerView {
        SchedulerView {
            wakers: self.wakers.update(id as int, (self.wakers[id as int] - 1) as usize),
            ..self
        }
    }

    pub open spec fn completed(self, id: usize, ready: bool) -> SchedulerView {
        SchedulerView {
            tasks: self.tasks.update(id as int, self.tasks[id as int].after_finish(ready)),
            ..self
        }
    }

    /// Every transition keeps the state well formed.
    pub proof fn lemma_wf_preserved(self, id: usize, ready: bool)
        requires
            self.wf(),
        ensures
            self.closed().wf(),
            self.after_step().wf(),
            self.tasks.len() < usize::MAX ==> self.spawned().wf(),
            self.has_task(id) ==> self.woken(id).wf(),
            self.has_task(id) ==> self.waker_retained(id).wf(),
            self.has_task(id) ==> self.waker_released(id).wf(),
            self.has_task(id) ==> self.completed(id, ready).wf(),
    {
        let s = self.spawned();
        assert forall|i: int| 0 <= i < s.queue.len() implies (#[trigger] s.queue[i]) < s.tasks.len() by {
            if i < self.queue.len() {
                assert(s.queue[i] == self.queue[i]);
            }
        }
        assert forall|i: int| 0 <= i < s.tasks.len() implies (#[trigger] s.tasks[i]).wf() by {
            if i < self.tasks.len() {
                assert(s.tasks[i] == self.tasks[i]);
            }
        }
        let w = self.woken(id);
        if self.has_task(id) {
            assert forall|i: int| 0 <= i < w.queue.len() implies (#[trigger] w.queue[i]) < w.tasks.len() by {
                if i < self.queue.len() {
                    assert(w.queue[i] == self.queue[i]);
                }
            }
        }
        let a = self.after_step();
        if self.queue.len() > 0 {
            assert forall|i: int| 0 <= i < a.queue.len() implies (#[trigger] a.queue[i]) < a.tasks.len() by {
                assert(a.queue[i] == self.queue[i + 1]);
            }
            assert forall|i: int| 0 <= i < a.tasks.len() implies (#[trigger] a.tasks[i]).wf() by {
                if i != self.queue[0] as int {
                    assert(a.tasks[i] == self.tasks[i]);
                }
            }
        }
        let c = self.completed(id, ready);
        if self.has_task(id) {
            assert forall|i: int| 0 <= i < c.tasks.len() implies (#[trigger] c.tasks[i]).wf() by {
                if i != id as int {
                    assert(c.tasks[i] == self.tasks[i]);
                }
            }
        }
    }

    /// What the run loop is told to do from this state.
    pub open spec fn next_step(self) -> Step {
        if self.queue.len() == 0 {
            if self.producers_alive() {
                Step::Idle
            } else {
                Step::Stopped
            }
        } else if self.tasks[self.queue[0] as int].start_of() == PollStart::Started {
            Step::Poll(self.queue[0])
        } else {
            Step::Skip(self.queue[0])
        }
    }

    /// The state once the run loop has been told what to do: the front entry
    /// is taken off the queue, and its task takes the poll slot if it can.
    pub open spec fn after_step(self) -> SchedulerView {
        if self.queue.len() == 0 {
            self
        } else {
            let id = self.queue[0];
            SchedulerView {
                tasks: self.tasks.update(id as int, self.tasks[id as int].after_start()),
                queue: self.queue.drop_first(),
                ..self
            }
        }
    }
}

/// The scheduling state of an executor: its tasks, the ready queue, and the
/// wakers alive outside it.
pub struct Scheduler {
    tasks: Vec<TaskState>,
    wakers: Vec<usize>,
    queue: VecDeque<usize>,
    open: bool,
}

impl View for Scheduler {
    type V = SchedulerView;

    closed spec fn view(&self) -> SchedulerView {
        SchedulerView { tasks: self.tasks@, wakers: self.wakers@, queue: self.queue@, open: self.open }
    }
}

impl Scheduler {
    /// An empty scheduler that accepts spawns.
    pub fn new() -> (r: Scheduler)
        ensures
            r@ == SchedulerView::initial(),
            r@.wf(),
    {
        let r = Scheduler { tasks: Vec::new(), wakers: Vec::new(), queue: VecDeque::new(), open: true };
        assert(r@.tasks =~= Seq::<TaskState>::empty());
        assert(r@.wakers =~= Seq::<usize>::empty());
        assert(r@.queue =~= Seq::<usize>::empty());
        r
    }

    pub fn is_open(&self) -> (r: bool)
        ensures
            r == self@.open,
    {
        self.open
    }

    pub fn task_count(&self) -> (r: usize)
        ensures
            r == self@.tasks.len(),
    {
        self.tasks.len()
    }

    pub fn queued(&self) -> (r: usize)
        ensures
            r == self@.queue.len(),
    {
        self.queue.len()
    }

    pub fn task(&self, id: usize) -> (r: TaskState)
        requires
            self@.has_task(id),
        ensures
            r == self@.tasks[id as int],
    {
        self.tasks[id]
    }

    pub fn live_wakers(&self, id: usize) -> (r: usize)
        requires
            self@.wf(),
            self@.has_task(id),
        ensures
            r == self@.wakers[id as int],
    {
        self.wakers[id]
    }

    /// Adds a task for a new future and queues it for its first poll. Once the
    /// scheduler has been closed, spawns are refused and nothing changes.
    pub fn spawn(&mut self) -> (r: Result<usize, SpawnError>)
        requires
            old(self)@.wf(),
            old(self)@.tasks.len() < usize::MAX,
        ensures
            final(self)@.wf(),
            old(self)@.open ==> r == Ok::<usize, SpawnError>(old(self)@.tasks.len() as usize)
                && final(self)@ == old(self)@.spawned(),
            !old(self)@.open ==> r == Err::<usize, SpawnError>(SpawnError::NotRunning)
                && final(self)@ == old(self)@,
    {
        if !self.open {
            return Err(SpawnError::NotRunning);
        }
        let id = self.tasks.len();
        self.tasks.push(TaskState::new());
        self.wakers.push(0);
        self.queue.push_back(id);
        proof { old(self)@.lemma_wf_preserved(id, false); }
        Ok(id)
    }

    /// Queues the task again for a poll attempt. A wake may come at any time,
    /// any number of times, also after the task finished.
    pub fn wake(&mut self, id: usize)
        requires
            old(self)@.wf(),
            old(self)@.has_task(id),
        ensures
            final(self)@ == old(self)@.woken(id),
            final(self)@.wf(),
    {
        self.queue.push_back(id);
        proof { old(self)@.lemma_wf_preserved(id, false); }
    }

    /// Gives up the scheduler's own handle: no spawn is accepted afterwards,
    /// and the run loop stops once the queue is drained and no waker is alive.
    pub fn close(&mut self)
        requires
            old(self)@.wf(),
        ensures
            final(self)@ == old(self)@.closed(),
            final(self)@.wf(),
    {
        self.open = false;
        proof { old(self)@.lemma_wf_preserved(0, false); }
    }

    /// Records that a waker of the task came into being.
    pub fn retain_waker(&mut self, id: usize)
        requires
            old(self)@.wf(),
            old(self)@.has_task(id),
            old(self)@.wakers[id as int] < usize::MAX,
        ensures
            final(self)@ == old(self)@.waker_retained(id),
            final(self)@.wf(),
    {
        let n = self.wakers[id];
        self.wakers.set(id, n + 1);
        proof { old(self)@.lemma_wf_preserved(id, false); }
    }

    /// Records that a waker of the task was dropped.
    pub fn release_waker(&mut self, id: usize)
        requires
            old(self)@.wf(),
            old(self)@.has_task(id),
            old(self)@.wakers[id as int] > 0,
        ensures
            final(self)@ == old(self)@.waker_released(id),
            final(self)@.wf(),
    {
        let n = self.wakers[id];
        self.wakers.set(id, n - 1);
        proof { old(self)@.lemma_wf_preserved(id, false); }
    }

    fn any_waker_alive(&self) -> (r: bool)
        ensures
            r == exists|i: int| 0 <= i < self@.wakers.len() && #[trigger] self@.wakers[i] > 0,
    {
        let mut i: usize = 0;
        while i < self.wakers.len()
            invariant
                i <= self.wakers@.len(),
                forall|j: int| 0 <= j < i ==> self.wakers@[j] == 0,
            decreases self.wakers@.len() - i,
        {
            if self.wakers[i] > 0 {
                assert(self@.wakers[i as int] > 0);
                return true;
            }
            i = i + 1;
        }
        false
    }

    /// Takes the front entry off the ready queue and decides what the run loop
    /// does with it. A task is handed out for a poll only if it has not
    /// finished and no poll of it is in flight; it then holds its poll slot
    /// until `complete` is called.
    pub fn next_step(&mut self) -> (r: Step)
        requires
            old(self)@.wf(),
        ensures
            r == old(self)@.next_step(),
            final(self)@ == old(self)@.after_step(),
            final(self)@.wf(),
    {
        match self.queue.pop_front() {
            None => {
                assert(self@ == old(self)@);
                if self.open || self.any_waker_alive() {
                    Step::Idle
                } else {
                    Step::Stopped
                }
            },
            Some(id) => {
                assert(old(self)@.queue[0] == id);
                let mut t = self.tasks[id];
                assert(t == old(self)@.tasks[id as int]);
                let start = t.try_begin_poll();
                self.tasks.set(id, t);
                assert(self@.queue =~= old(self)@.queue.drop_first());
                proof { old(self)@.lemma_wf_preserved(id, false); }
                match start {
                    PollStart::Started => Step::Poll(id),
                    _ => Step::Skip(id),
                }
            },
        }
    }

    /// Reports what the poll in flight of a task returned, and frees its slot.
    pub fn complete(&mut self, id: usize, ready: bool)
        requires
            old(self)@.wf(),
            old(self)@.has_task(id),
            old(self)@.tasks[id as int].polling,
        ensures
            final(self)@ == old(self)@.completed(id, ready),
            final(self)@.wf(),
    {
        let mut t = self.tasks[id];
        t.finish_poll(ready);
        self.tasks.set(id, t);
        proof { old(self)@.lemma_wf_preserved(id, ready); }
    }
}

} // verus!
