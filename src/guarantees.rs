//! What the scheduler guarantees over sequences of events, stated over its
//! mathematical model and proved.
use vstd::prelude::*;

use crate::scheduler::{SchedulerView, Step};
use crate::task::{Completion, TaskState};

verus! {

/// No task is alive outside the scheduler through a waker.
pub open spec fn no_live_wakers(v: SchedulerView) -> bool {
    forall|i: int| 0 <= i < v.wakers.len() ==> #[trigger] v.wakers[i] == 0
}

/// A future that finishes on its first poll: after it is spawned and the
/// scheduler is closed, the run loop polls it once and then stops, without any
/// wake being requested.
pub proof fn law_ready_on_first_poll(v: SchedulerView)
    requires
        v.wf(),
        v.open,
        v.queue.len() == 0,
        no_live_wakers(v),
        v.tasks.len() < usize::MAX,
    ensures
        ({
            let id = v.tasks.len() as usize;
            let s = v.spawned().closed();
            let done = s.after_step().waker_retained(id).completed(id, true).waker_released(id);
            &&& s.next_step() == Step::Poll(id)
            &&& done.tasks[id as int].completion == Completion::Ready
            &&& done.next_step() == Step::Stopped
        }),
{
    let id = v.tasks.len() as usize;
    let s = v.spawned().closed();
    assert(s.queue =~= seq![id]);
    let done = s.after_step().waker_retained(id).completed(id, true).waker_released(id);
    assert(done.queue =~= Seq::<usize>::empty());
    assert(done.wakers =~= v.wakers.push(0));
    assert forall|i: int| 0 <= i < done.wakers.len() implies #[trigger] done.wakers[i] == 0 by {
        if i < v.wakers.len() {
            assert(done.wakers[i] == v.wakers[i]);
        }
    }
}

/// Once a task has finished, every transition leaves it finished, and the run
/// loop never hands it out for another poll.
pub proof fn law_ready_is_final(v: SchedulerView, id: usize, other: usize, ready: bool)
    requires
        v.wf(),
        v.has_task(id),
        v.tasks[id as int].completion == Completion::Ready,
    ensures
        v.next_step() != Step::Poll(id),
        v.after_step().tasks[id as int].completion == Completion::Ready,
        v.closed().tasks[id as int].completion == Completion::Ready,
        v.tasks.len() < usize::MAX ==> v.spawned().tasks[id as int].completion == Completion::Ready,
        v.has_task(other) ==> v.woken(other).tasks[id as int].completion == Completion::Ready,
        v.has_task(other) ==> v.waker_retained(other).tasks[id as int].completion == Completion::Ready,
        v.has_task(other) ==> v.waker_released(other).tasks[id as int].completion == Completion::Ready,
        v.has_task(other) && v.tasks[other as int].polling ==> v.completed(other, ready).tasks[id as int].completion
            == Completion::Ready,
{
    if v.has_task(other) && v.tasks[other as int].polling {
        assert(v.tasks[other as int].wf());
        assert(other != id);
    }
    if v.tasks.len() < usize::MAX {
        assert(v.spawned().tasks[id as int] == v.tasks[id as int]);
    }
}

/// Polls of one task never overlap: a task is handed out for a poll only
/// while no poll of it is in flight, and it then holds its slot.
pub proof fn law_polls_exclusive(v: SchedulerView, id: usize)
    requires
        v.wf(),
        v.next_step() == Step::Poll(id),
    ensures
        v.has_task(id),
        !v.tasks[id as int].polling,
        v.after_step().tasks[id as int].polling,
        v.after_step().next_step() != Step::Poll(id),
{
    let a = v.after_step();
    v.lemma_wf_preserved(id, false);
    if a.queue.len() > 0 {
        assert(a.queue[0] == v.queue[1]);
    }
}

/// A future that is pending once, keeps its waker for a timer, is woken by
/// it and is then ready: the run loop polls it exactly twice, and stops.
pub proof fn law_pending_once_then_ready(v: SchedulerView, id: usize)
    requires
        v.wf(),
        v.has_task(id),
        v.tasks[id as int] == TaskState::fresh(),
        v.queue == seq![id],
        !v.open,
        no_live_wakers(v),
    ensures
        ({
            let waiting = v.after_step().waker_retained(id).completed(id, false);
            let woken = waiting.woken(id).waker_released(id);
            let done = woken.after_step().waker_retained(id).completed(id, true).waker_released(id);
            &&& v.next_step() == Step::Poll(id)
            &&& waiting.next_step() == Step::Idle
            &&& woken.next_step() == Step::Poll(id)
            &&& done.tasks[id as int].completion == Completion::Ready
            &&& done.next_step() == Step::Stopped
        }),
{
    let waiting = v.after_step().waker_retained(id).completed(id, false);
    assert(waiting.queue =~= Seq::<usize>::empty());
    assert(waiting.wakers[id as int] > 0);
    let woken = waiting.woken(id).waker_released(id);
    assert(woken.queue =~= seq![id]);
    assert(woken.wakers =~= v.wakers);
    let done = woken.after_step().waker_retained(id).completed(id, true).waker_released(id);
    assert(done.queue =~= Seq::<usize>::empty());
    assert(done.wakers =~= v.wakers);
}

/// Two wakes of a task queued before its first poll completes: the task is
/// polled at least once and at most twice, never twice at a time. The second
/// entry is dropped while the first poll is in flight; once that poll has
/// returned, it polls again only if the future is still pending.
pub proof fn law_two_wakes(v: SchedulerView, id: usize, ready: bool)
    requires
        v.wf(),
        v.has_task(id),
        v.tasks[id as int] == TaskState::fresh(),
        v.queue == seq![id, id],
    ensures
        v.next_step() == Step::Poll(id),
        v.after_step().next_step() == Step::Skip(id),
        v.after_step().completed(id, ready).next_step() == (if ready {
            Step::Skip(id)
        } else {
            Step::Poll(id)
        }),
{
    let a = v.after_step();
    assert(a.queue =~= seq![id]);
    let c = a.completed(id, ready);
    assert(c.queue =~= seq![id]);
}

/// Tasks are polled in the order they were queued: spawning A and then B,
/// where A is pending and never woken, B is polled right after A's first poll,
/// and A is not polled again.
pub proof fn law_fifo(v: SchedulerView)
    requires
        v.wf(),
        v.open,
        v.queue.len() == 0,
        v.tasks.len() + 2 < usize::MAX,
    ensures
        ({
            let a = v.tasks.len() as usize;
            let b = (v.tasks.len() + 1) as usize;
            let both = v.spawned().spawned();
            let after_a = both.after_step().completed(a, false);
            let after_b = after_a.after_step().completed(b, true);
            &&& both.next_step() == Step::Poll(a)
            &&& after_a.next_step() == Step::Poll(b)
            &&& after_b.next_step() == Step::Idle
            &&& after_b.tasks[a as int].completion == Completion::Pending
        }),
{
    let a = v.tasks.len() as usize;
    let b = (v.tasks.len() + 1) as usize;
    let both = v.spawned().spawned();
    assert(both.queue =~= seq![a, b]);
    let after_a = both.after_step().completed(a, false);
    assert(after_a.queue =~= seq![b]);
    let after_b = after_a.after_step().completed(b, true);
    assert(after_b.queue =~= Seq::<usize>::empty());
}

} // verus!
