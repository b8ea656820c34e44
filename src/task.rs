use vstd::prelude::*;

verus! {

/// Whether a task's future has produced its final value.
#[derive(Clone, Copy, Debug, PartialEq, Eq, Structural)]
pub enum Completion {
    Pending,
    Ready,
}

/// What became of an attempt to start polling a task.
#[derive(Clone, Copy, Debug, PartialEq, Eq, Structural)]
pub enum PollStart {
    /// The future already finished; it is not touched again.
    AlreadyReady,
    /// Another poll of the same task is in flight; this attempt is dropped.
    Busy,
    /// The caller now holds the task's poll slot and must poll the future once.
    Started,
}

/// The poll state of one task: its completion marker and whether a poll of
/// its future is in flight.
#[derive(Clone, Copy, Debug, PartialEq, Eq, Structural)]
pub struct TaskState {
    pub completion: Completion,
    pub polling: bool,
}

impl TaskState {
    /// A finished future is never polled again, so it never holds the slot.
    pub open spec fn wf(self) -> bool {
        self.completion == Completion::Ready ==> !self.polling
    }

    pub open spec fn fresh() -> TaskState {
        TaskState { completion: Completion::Pending, polling: false }
    }

    /// The outcome of an attempt to start a poll from this state.
    pub open spec fn start_of(self) -> PollStart {
        if self.completion == Completion::Ready {
            PollStart::AlreadyReady
        } else if self.polling {
            PollStart::Busy
        } else {
            PollStart::Started
        }
    }

    /// The state after an attempt to start a poll.
    pub open spec fn after_start(self) -> TaskState {
        if self.start_of() == PollStart::Started {
            TaskState { completion: Completion::Pending, polling: true }
        } else {
            self
        }
    }

    /// The state after a poll in flight returned, ready or not.
    pub open spec fn after_finish(self, ready: bool) -> TaskState {
        TaskState {
            completion: if ready { Completion::Ready } else { Completion::Pending },
            polling: false,
        }
    }

    /// A task that has not been polled yet.
    pub fn new() -> (r: TaskState)
        ensures
            r == TaskState::fresh(),
            r.wf(),
    {
        TaskState { completion: Completion::Pending, polling: false }
    }

    pub fn is_ready(&self) -> (r: bool)
        ensures
            r == (self.completion == Completion::Ready),
    {
        match self.completion {
            Completion::Ready => true,
            Completion::Pending => false,
        }
    }

    /// Tries, without blocking, to take the poll slot. A finished task and a
    /// task whose poll is in flight are left as they are.
    pub fn try_begin_poll(&mut self) -> (r: PollStart)
        ensures
            r == old(self).start_of(),
            *final(self) == old(self).after_start(),
            old(self).wf() ==> final(self).wf(),
            r == PollStart::AlreadyReady ==> *final(self) == *old(self),
    {
        if self.is_ready() {
            PollStart::AlreadyReady
        } else if self.polling {
            PollStart::Busy
        } else {
            self.polling = true;
            PollStart::Started
        }
    }

    /// Records what the poll in flight returned and gives the slot back.
    pub fn finish_poll(&mut self, ready: bool)
        requires
            old(self).polling,
        ensures
            *final(self) == old(self).after_finish(ready),
            final(self).wf(),
    {
        self.polling = false;
        self.completion = if ready { Completion::Ready } else { Completion::Pending };
    }
}

} // verus!
