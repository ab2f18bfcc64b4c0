use std::sync::{Arc, Mutex};
use workpool::pool::{PoolError, PoolState};
use workpool::queue::{Fetch, JobQueue, SubmitError};
use workpool::worker::WorkerState;

type Job = Box<dyn FnOnce() + Send + 'static>;

/// Runs the workers of a pool one fetch at a time, in turn, until all have
/// ended; returns how many jobs each ran.
fn run_in_turn(queue: &mut JobQueue<Job>, workers: usize) -> Vec<usize> {
    let mut states = vec![WorkerState::start(); workers];
    let mut ran = vec![0; workers];
    while !states.iter().all(|s| s.is_terminated()) {
        for w in 0..workers {
            if states[w].is_terminated() {
                continue;
            }
            let f = queue.dequeue();
            states[w] = states[w].after_fetch(&f);
            if let Fetch::Job(job) = f {
                job();
                ran[w] += 1;
                states[w] = states[w].after_job();
            }
        }
    }
    ran
}

#[test]
fn five_jobs_on_two_workers_each_run_once() {
    let pool = PoolState::new(2).unwrap();
    let log = Arc::new(Mutex::new(Vec::new()));
    let mut queue: JobQueue<Job> = JobQueue::new();
    for i in 0..5usize {
        let log = Arc::clone(&log);
        assert_eq!(queue.enqueue(Box::new(move || log.lock().unwrap().push(i))), Ok(()));
    }
    assert!(queue.close());
    let ran = run_in_turn(&mut queue, pool.size());
    assert_eq!(ran.iter().sum::<usize>(), 5);
    let mut seen = log.lock().unwrap().clone();
    seen.sort();
    assert_eq!(seen, vec![0, 1, 2, 3, 4]);
}

#[test]
fn submit_after_shutdown_is_refused() {
    let mut pool = PoolState::new(3).unwrap();
    let mut queue: JobQueue<Job> = JobQueue::new();
    assert_eq!(pool.check_submit(), Ok(()));
    assert_eq!(pool.shutdown(), vec![0, 1, 2]);
    assert!(queue.close());
    assert_eq!(pool.check_submit(), Err(PoolError::ShutDown));
    assert_eq!(queue.enqueue(Box::new(|| ())), Err(SubmitError::QueueClosed));
    assert_eq!(queue.len(), 0);
}

#[test]
fn zero_workers_is_a_configuration_error() {
    assert_eq!(PoolState::new(0).err(), Some(PoolError::InvalidPoolSize));
}

#[test]
fn shutdown_twice_joins_once() {
    let mut pool = PoolState::new(4).unwrap();
    assert!(pool.is_accepting());
    assert_eq!(pool.shutdown(), vec![0, 1, 2, 3]);
    assert!(pool.shutdown().is_empty());
    assert!(!pool.is_accepting());
    assert_eq!(pool.size(), 4);
}

#[test]
fn closing_twice_reports_once() {
    let mut queue: JobQueue<u32> = JobQueue::new();
    assert!(queue.accepts());
    assert!(queue.close());
    assert!(!queue.close());
    assert!(!queue.accepts());
}

#[test]
fn idle_pool_shuts_down() {
    let mut queue: JobQueue<Job> = JobQueue::new();
    assert!(matches!(queue.dequeue(), Fetch::Wait));
    queue.close();
    let ran = run_in_turn(&mut queue, 3);
    assert_eq!(ran, vec![0, 0, 0]);
}

#[test]
fn closed_queue_still_hands_out_pending_jobs_in_order() {
    let mut queue: JobQueue<u32> = JobQueue::new();
    for j in [7, 8, 9] {
        queue.enqueue(j).unwrap();
    }
    queue.close();
    assert!(matches!(queue.dequeue(), Fetch::Job(7)));
    assert!(matches!(queue.dequeue(), Fetch::Job(8)));
    assert!(matches!(queue.dequeue(), Fetch::Job(9)));
    assert!(matches!(queue.dequeue(), Fetch::Closed));
    assert!(matches!(queue.dequeue(), Fetch::Closed));
}

#[test]
fn worker_state_steps() {
    let s = WorkerState::start();
    assert_eq!(s, WorkerState::Running);
    assert_eq!(s.after_fetch(&Fetch::Job(1u8)), WorkerState::Executing);
    assert_eq!(s.after_fetch(&Fetch::<u8>::Wait), WorkerState::Running);
    assert_eq!(s.after_fetch(&Fetch::<u8>::Closed), WorkerState::Terminated);
    assert_eq!(WorkerState::Executing.after_job(), WorkerState::Running);
}
