use fp_rust::handler::{HandlerCore, Job, StartAction, StopAction};
use fp_rust::latch::LatchCount;
use fp_rust::queue::Fifo;

#[test]
fn fifo_returns_items_in_put_order() {
    let mut q = Fifo::new();
    assert!(q.is_empty());
    q.put(1);
    q.put(2);
    q.put(3);
    assert_eq!(3, q.len());
    assert_eq!(Some(1), q.take());
    q.put(4);
    assert_eq!(Some(2), q.take());
    assert_eq!(Some(3), q.take());
    assert_eq!(Some(4), q.take());
    assert_eq!(None, q.take());
    assert!(q.is_empty());
}

#[test]
fn latch_opens_after_exactly_k_countdowns() {
    let mut l = LatchCount::new(3);
    assert!(!l.is_open());
    l.countdown();
    l.countdown();
    assert!(!l.is_open());
    assert_eq!(1, l.count());
    l.countdown();
    assert!(l.is_open());
    l.countdown();
    assert!(l.is_open());
    assert_eq!(0, l.count());
}

#[test]
fn latch_zero_is_open() {
    let l = LatchCount::new(0);
    assert!(l.is_open());
}

#[test]
fn latch_largest_count() {
    let mut l = LatchCount::new(u32::MAX);
    l.countdown();
    assert_eq!(u32::MAX - 1, l.count());
}

#[test]
fn handler_start_twice_spawns_once() {
    let mut h: HandlerCore<u8> = HandlerCore::new();
    assert!(!h.is_started());
    assert!(!h.is_alive());
    assert_eq!(StartAction::SpawnWorker, h.start());
    assert_eq!(StartAction::Nothing, h.start());
    assert!(h.is_alive());
    assert!(h.is_started());
}

#[test]
fn handler_stop_twice_joins_once() {
    let mut h: HandlerCore<u8> = HandlerCore::new();
    assert_eq!(StopAction::Nothing, h.stop());
    assert!(!h.is_started());
    h.start();
    assert_eq!(StopAction::JoinWorker, h.stop());
    assert_eq!(StopAction::Nothing, h.stop());
    assert!(!h.is_alive());
    assert!(h.is_started());
    assert!(!h.keeps_running());
    assert!(matches!(h.next_job(), Some(Job::Wake)));
    assert!(h.next_job().is_none());
}

#[test]
fn handler_runs_posted_tasks_in_order() {
    let mut h: HandlerCore<u32> = HandlerCore::new();
    h.post(10);
    h.start();
    h.post(20);
    h.post(30);
    let mut seen = Vec::new();
    while let Some(job) = h.next_job() {
        match job {
            Job::Run(t) => seen.push(t),
            Job::Wake => panic!("no stop was asked"),
        }
    }
    assert_eq!(vec![10, 20, 30], seen);
    assert!(h.keeps_running());
}

#[test]
fn handler_after_stop_queues_without_running() {
    let mut h: HandlerCore<u32> = HandlerCore::new();
    h.start();
    h.stop();
    h.post(5);
    assert!(!h.keeps_running());
    assert!(matches!(h.next_job(), Some(Job::Wake)));
    assert!(matches!(h.next_job(), Some(Job::Run(5))));
}
