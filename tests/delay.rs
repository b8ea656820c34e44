use mini_tokio::delay::{Delay, DelayPoll};
use mini_tokio::scheduler::{Scheduler, Step};

#[test]
fn delay_polls() {
    let mut d = Delay::new(50);
    assert_eq!(d.poll(0), DelayPoll::Arm(50));
    assert!(d.armed);
    assert_eq!(d.poll(10), DelayPoll::Wait);
    assert_eq!(d.poll(49), DelayPoll::Wait);
    assert_eq!(d.poll(50), DelayPoll::Ready);
    assert_eq!(d.poll(70), DelayPoll::Ready);
}

#[test]
fn delay_past_deadline_is_ready_at_once() {
    let mut d = Delay::new(5);
    assert_eq!(d.poll(5), DelayPoll::Ready);
    assert!(!d.armed);
    let mut z = Delay::new(0);
    assert_eq!(z.poll(0), DelayPoll::Ready);
}

#[test]
fn delay_timer_waits_the_remaining_time() {
    let mut d = Delay::new(u64::MAX);
    assert_eq!(d.poll(7), DelayPoll::Arm(u64::MAX - 7));
}

/// Runs delays with the given deadlines to completion on a simulated clock
/// that starts at 0. Returns the time at which the loop stopped, and for each
/// delay the number of timers started and of polls made.
fn run_delays(deadlines: &[u64]) -> (u64, Vec<usize>, Vec<usize>) {
    let mut s = Scheduler::new();
    let mut delays: Vec<Delay> = Vec::new();
    for d in deadlines {
        let id = s.spawn().unwrap();
        assert_eq!(id, delays.len());
        delays.push(Delay::new(*d));
    }
    s.close();
    let mut now: u64 = 0;
    let mut timers: Vec<(u64, usize)> = Vec::new();
    let mut started = vec![0usize; deadlines.len()];
    let mut polls = vec![0usize; deadlines.len()];
    loop {
        match s.next_step() {
            Step::Poll(id) => {
                polls[id] += 1;
                s.retain_waker(id);
                match delays[id].poll(now) {
                    DelayPoll::Ready => {
                        s.complete(id, true);
                        s.release_waker(id);
                    }
                    DelayPoll::Arm(wait) => {
                        started[id] += 1;
                        timers.push((now + wait, id));
                        s.complete(id, false);
                    }
                    DelayPoll::Wait => {
                        s.complete(id, false);
                        s.release_waker(id);
                    }
                }
            }
            Step::Skip(_) => {}
            Step::Idle => {
                let (k, _) = timers
                    .iter()
                    .enumerate()
                    .min_by_key(|(_, t)| t.0)
                    .expect("idle without a timer");
                let (due, id) = timers.remove(k);
                now = now.max(due);
                s.wake(id);
                s.release_waker(id);
            }
            Step::Stopped => break,
        }
    }
    (now, started, polls)
}

#[test]
fn single_delay_end_to_end() {
    let (end, started, polls) = run_delays(&[50]);
    assert!(end >= 50);
    assert_eq!(end, 50);
    assert_eq!(started, vec![1]);
    assert_eq!(polls, vec![2]);
}

#[test]
fn hundred_delays_wait_concurrently() {
    let deadlines: Vec<u64> = (1..=100).collect();
    let (end, started, polls) = run_delays(&deadlines);
    assert_eq!(end, 100);
    assert!(end < deadlines.iter().sum::<u64>());
    assert!(started.iter().all(|n| *n == 1));
    assert!(polls.iter().all(|n| *n == 2));
}
