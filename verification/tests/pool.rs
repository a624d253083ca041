use rust_web_server::ThreadPool;
use rust_web_server::WorkerSeat;
use std::sync::Arc;
use std::sync::Mutex;

/// Repeats a worker's loop pass until the worker is done, as a mounted
/// execution context would, and returns how many items the seat ran.
fn drain(seat: &mut WorkerSeat) -> usize {
    let mut ran: usize = 0;
    while seat.run_once() {
        ran += 1;
    }
    ran
}

#[test]
fn construct_hands_out_one_seat_per_worker() {
    let (pool, seats) = ThreadPool::new(3);
    assert_eq!(pool.size(), 3);
    assert_eq!(seats.len(), 3);
    for (i, seat) in seats.iter().enumerate() {
        assert_eq!(seat.id(), i);
    }
}

#[test]
fn construct_of_one_worker() {
    let (pool, seats) = ThreadPool::new(1);
    assert_eq!(pool.size(), 1);
    assert_eq!(seats.len(), 1);
    assert_eq!(seats[0].id(), 0);
}

#[test]
fn no_item_means_the_worker_is_done() {
    assert!(!WorkerSeat::finish_pass(None));
}

#[test]
fn single_worker_runs_items_in_submission_order() {
    let (mut pool, mut seats) = ThreadPool::new(1);
    let log: Arc<Mutex<Vec<u32>>> = Arc::new(Mutex::new(Vec::new()));
    for i in 1u32..=5 {
        let log = Arc::clone(&log);
        assert!(pool.execute(move || {
            log.lock().unwrap().push(i);
        }));
    }
    drop(pool);
    let ran = drain(&mut seats[0]);
    assert_eq!(ran, 5);
    assert_eq!(*log.lock().unwrap(), vec![1, 2, 3, 4, 5]);
}

#[test]
fn every_item_runs_exactly_once() {
    let (mut pool, mut seats) = ThreadPool::new(4);
    let log: Arc<Mutex<Vec<u32>>> = Arc::new(Mutex::new(Vec::new()));
    for i in 0u32..100 {
        let log = Arc::clone(&log);
        assert!(pool.execute(move || {
            log.lock().unwrap().push(i);
        }));
    }
    drop(pool);
    let mut ran: usize = 0;
    for seat in seats.iter_mut() {
        ran += drain(seat);
    }
    assert_eq!(ran, 100);
    let mut ids = log.lock().unwrap().clone();
    assert_eq!(ids.len(), 100);
    ids.sort();
    ids.dedup();
    assert_eq!(ids, (0u32..100).collect::<Vec<u32>>());
}

#[test]
fn submission_never_blocks_while_no_worker_consumes() {
    let (mut pool, mut seats) = ThreadPool::new(2);
    let count: Arc<Mutex<u32>> = Arc::new(Mutex::new(0));
    for _ in 0..10_000 {
        let count = Arc::clone(&count);
        assert!(pool.execute(move || {
            *count.lock().unwrap() += 1;
        }));
    }
    drop(pool);
    let ran = drain(&mut seats[0]);
    assert_eq!(ran, 10_000);
    assert_eq!(*count.lock().unwrap(), 10_000);
}

#[test]
fn worker_stops_once_the_producer_side_is_gone() {
    let (pool, mut seats) = ThreadPool::new(1);
    drop(pool);
    assert!(!seats[0].run_once());
}

#[test]
fn late_worker_finds_the_queue_drained() {
    let (mut pool, mut seats) = ThreadPool::new(2);
    let count: Arc<Mutex<u32>> = Arc::new(Mutex::new(0));
    for _ in 0..3 {
        let count = Arc::clone(&count);
        assert!(pool.execute(move || {
            *count.lock().unwrap() += 1;
        }));
    }
    drop(pool);
    assert_eq!(drain(&mut seats[0]), 3);
    assert!(!seats[1].run_once());
    assert_eq!(*count.lock().unwrap(), 3);
}

#[test]
fn items_submitted_while_draining_still_run() {
    let (mut pool, mut seats) = ThreadPool::new(1);
    let log: Arc<Mutex<Vec<u32>>> = Arc::new(Mutex::new(Vec::new()));
    {
        let log = Arc::clone(&log);
        assert!(pool.execute(move || {
            log.lock().unwrap().push(1);
        }));
    }
    assert!(seats[0].run_once());
    {
        let log = Arc::clone(&log);
        assert!(pool.execute(move || {
            log.lock().unwrap().push(2);
        }));
    }
    drop(pool);
    assert_eq!(drain(&mut seats[0]), 1);
    assert_eq!(*log.lock().unwrap(), vec![1, 2]);
}

#[test]
fn alternating_workers_preserve_submission_order() {
    let (mut pool, mut seats) = ThreadPool::new(2);
    let log: Arc<Mutex<Vec<u32>>> = Arc::new(Mutex::new(Vec::new()));
    for i in 1u32..=6 {
        let log = Arc::clone(&log);
        assert!(pool.execute(move || {
            log.lock().unwrap().push(i);
        }));
    }
    drop(pool);
    for _ in 0..3 {
        assert!(seats[0].run_once());
        assert!(seats[1].run_once());
    }
    assert!(!seats[0].run_once());
    assert_eq!(*log.lock().unwrap(), vec![1, 2, 3, 4, 5, 6]);
}

#[test]
fn submission_fails_once_every_consuming_handle_is_gone() {
    let (mut pool, seats) = ThreadPool::new(2);
    drop(seats);
    assert!(!pool.execute(|| {}));
}
