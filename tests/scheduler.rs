use mini_tokio::scheduler::{Scheduler, SpawnError, Step};
use mini_tokio::task::{Completion, PollStart, TaskState};

#[test]
fn immediate_future_runs_once_without_wake() {
    let mut s = Scheduler::new();
    let id = s.spawn().unwrap();
    assert_eq!(id, 0);
    s.close();
    assert_eq!(s.next_step(), Step::Poll(0));
    s.retain_waker(0);
    s.complete(0, true);
    s.release_waker(0);
    assert_eq!(s.task(0).completion, Completion::Ready);
    assert_eq!(s.next_step(), Step::Stopped);
}

#[test]
fn pending_once_then_ready_is_polled_twice() {
    let mut s = Scheduler::new();
    let id = s.spawn().unwrap();
    s.close();
    let mut polls = 0;
    let mut held_waker = false;
    loop {
        match s.next_step() {
            Step::Poll(t) => {
                assert_eq!(t, id);
                polls += 1;
                s.retain_waker(t);
                if polls == 1 {
                    s.complete(t, false);
                    held_waker = true;
                } else {
                    s.complete(t, true);
                    s.release_waker(t);
                }
            }
            Step::Skip(_) => {}
            Step::Idle => {
                assert!(held_waker);
                held_waker = false;
                s.wake(id);
                s.release_waker(id);
            }
            Step::Stopped => break,
        }
    }
    assert_eq!(polls, 2);
    // A stray wake after completion is harmless: the entry is skipped.
    s.wake(id);
    assert_eq!(s.next_step(), Step::Skip(id));
    assert_eq!(s.next_step(), Step::Stopped);
}

#[test]
fn poll_of_ready_task_is_a_no_op() {
    let mut t = TaskState::new();
    assert_eq!(t.try_begin_poll(), PollStart::Started);
    t.finish_poll(true);
    let before = t;
    assert_eq!(t.try_begin_poll(), PollStart::AlreadyReady);
    assert_eq!(t, before);
    assert!(t.is_ready());
}

#[test]
fn poll_in_flight_drops_second_attempt() {
    let mut t = TaskState::new();
    assert_eq!(t.try_begin_poll(), PollStart::Started);
    assert_eq!(t.try_begin_poll(), PollStart::Busy);
    assert!(t.polling);
    t.finish_poll(false);
    assert!(!t.polling);
    assert_eq!(t.completion, Completion::Pending);
    assert_eq!(t.try_begin_poll(), PollStart::Started);
}

#[test]
fn two_wakes_before_first_poll_completes() {
    let mut s = Scheduler::new();
    let id = s.spawn().unwrap();
    s.wake(id);
    assert_eq!(s.queued(), 2);
    assert_eq!(s.next_step(), Step::Poll(id));
    // The second entry arrives while the first poll is in flight.
    assert_eq!(s.next_step(), Step::Skip(id));
    s.complete(id, false);
    assert_eq!(s.queued(), 0);
    assert_eq!(s.next_step(), Step::Idle);
}

#[test]
fn two_wakes_after_first_poll_completes() {
    let mut s = Scheduler::new();
    let id = s.spawn().unwrap();
    s.wake(id);
    assert_eq!(s.next_step(), Step::Poll(id));
    s.complete(id, false);
    assert_eq!(s.next_step(), Step::Poll(id));
    s.complete(id, true);
    s.close();
    assert_eq!(s.next_step(), Step::Stopped);
}

#[test]
fn fifo_order_of_spawns() {
    let mut s = Scheduler::new();
    let a = s.spawn().unwrap();
    let b = s.spawn().unwrap();
    assert_eq!((a, b), (0, 1));
    assert_eq!(s.next_step(), Step::Poll(a));
    s.complete(a, false);
    assert_eq!(s.next_step(), Step::Poll(b));
    s.complete(b, true);
    assert_eq!(s.next_step(), Step::Idle);
    assert_eq!(s.task(a).completion, Completion::Pending);
    assert_eq!(s.task(b).completion, Completion::Ready);
}

#[test]
fn spawn_after_close_is_refused() {
    let mut s = Scheduler::new();
    assert!(s.is_open());
    s.close();
    assert!(!s.is_open());
    assert_eq!(s.spawn(), Err(SpawnError::NotRunning));
    assert_eq!(SpawnError::NotRunning.message(), "scheduler not running");
    assert_eq!(s.task_count(), 0);
    assert_eq!(s.queued(), 0);
}

#[test]
fn live_waker_keeps_loop_waiting() {
    let mut s = Scheduler::new();
    let id = s.spawn().unwrap();
    s.close();
    assert_eq!(s.next_step(), Step::Poll(id));
    s.retain_waker(id);
    s.retain_waker(id);
    assert_eq!(s.live_wakers(id), 2);
    s.complete(id, false);
    assert_eq!(s.next_step(), Step::Idle);
    s.release_waker(id);
    assert_eq!(s.next_step(), Step::Idle);
    s.release_waker(id);
    assert_eq!(s.live_wakers(id), 0);
    // The future dropped every waker without a wake: nothing can revive it.
    assert_eq!(s.next_step(), Step::Stopped);
}

#[test]
fn empty_open_scheduler_is_idle() {
    let mut s = Scheduler::new();
    assert_eq!(s.next_step(), Step::Idle);
    s.close();
    assert_eq!(s.next_step(), Step::Stopped);
}
