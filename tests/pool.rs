use web::{Event, PoolError, Received, ThreadPool, WorkerPhase};

/// Drives every worker of `pool` round-robin until all have been joined.
/// Jobs listed in `failing` end in a panic; the others are recorded in `ran`.
fn drive(pool: &mut ThreadPool<u64>, ran: &mut Vec<u64>, failing: &[u64]) -> usize {
    let n = pool.size();
    for id in 0..n {
        pool.worker_started(id);
    }
    let mut panics = 0;
    loop {
        let mut exiting = 0;
        for id in 0..n {
            let w = pool.worker(id);
            if w.phase == WorkerPhase::Exiting || w.phase == WorkerPhase::Joined {
                exiting += 1;
                continue;
            }
            match pool.next_job(id) {
                Received::Job(j) => {
                    let failed = failing.contains(&j);
                    if !failed {
                        ran.push(j);
                    }
                    if pool.job_done(id, failed) == Event::JobPanicked {
                        panics += 1;
                    }
                }
                Received::Wait => {}
                Received::Drained => {}
            }
        }
        if exiting == n {
            break;
        }
    }
    for id in 0..n {
        assert!(pool.worker_joined(id));
    }
    assert!(pool.is_terminated());
    panics
}

#[test]
fn throughput_fan_out() {
    let mut pool = ThreadPool::new(4).unwrap();
    for j in 0..1000u64 {
        assert_eq!(pool.execute(j), Ok(()));
    }
    assert!(pool.stop());
    let mut ran = Vec::new();
    drive(&mut pool, &mut ran, &[]);
    assert_eq!(ran.len(), 1000);
    let mut sorted = ran.clone();
    sorted.sort();
    assert_eq!(sorted, (0..1000u64).collect::<Vec<_>>());
}

#[test]
fn ordering_agnostic() {
    let mut pool = ThreadPool::new(2).unwrap();
    for j in 0..10u64 {
        pool.execute(j).unwrap();
    }
    pool.stop();
    let mut ran = Vec::new();
    drive(&mut pool, &mut ran, &[]);
    assert_eq!(ran.len(), 10);
    let mut sorted = ran.clone();
    sorted.sort();
    assert_eq!(sorted, (0..10u64).collect::<Vec<_>>());
}

#[test]
fn panic_isolation() {
    let mut pool = ThreadPool::new(2).unwrap();
    pool.worker_started(0);
    pool.worker_started(1);
    for j in 0..5u64 {
        pool.execute(j).unwrap();
    }
    // jobs 1 and 3 panic
    let mut ran = Vec::new();
    let mut panics = 0;
    while pool.pending_len() > 0 {
        for id in 0..2 {
            if let Received::Job(j) = pool.next_job(id) {
                let failed = j == 1 || j == 3;
                if !failed {
                    ran.push(j);
                }
                let ev = pool.job_done(id, failed);
                if failed {
                    assert_eq!(ev, Event::JobPanicked);
                    panics += 1;
                } else {
                    assert_eq!(ev, Event::JobEnd);
                }
                assert!(pool.worker(id).is_idle());
            }
        }
    }
    assert_eq!(panics, 2);
    assert_eq!(ran, vec![0, 2, 4]);
    assert_eq!(pool.execute(5), Ok(()));
    pool.stop();
    let mut rest = Vec::new();
    drive(&mut pool, &mut rest, &[]);
    assert_eq!(rest, vec![5]);
}

#[test]
fn drain_on_drop() {
    let mut pool = ThreadPool::new(2).unwrap();
    for j in 0..50u64 {
        pool.execute(j).unwrap();
    }
    assert!(pool.stop());
    assert_eq!(pool.pending_len(), 50);
    let mut ran = Vec::new();
    drive(&mut pool, &mut ran, &[]);
    assert_eq!(ran, (0..50u64).collect::<Vec<_>>());
    assert_eq!(pool.pending_len(), 0);
}

#[test]
fn reject_submit_after_shutdown() {
    let mut pool: ThreadPool<u64> = ThreadPool::new(1).unwrap();
    assert!(pool.stop());
    assert_eq!(pool.execute(7), Err(PoolError::SubmitAfterShutdown));
    assert_eq!(pool.pending_len(), 0);
    let mut ran = Vec::new();
    drive(&mut pool, &mut ran, &[]);
    assert!(ran.is_empty());
}

#[test]
fn rejects_zero_size() {
    assert_eq!(ThreadPool::<u64>::new(0).err(), Some(PoolError::InvalidSize));
    assert!(ThreadPool::<u64>::new(1).is_ok());
}

#[test]
fn stop_is_idempotent() {
    let mut pool: ThreadPool<u64> = ThreadPool::new(3).unwrap();
    pool.execute(1).unwrap();
    assert!(!pool.is_stopping());
    assert!(pool.stop());
    assert!(pool.is_stopping());
    assert!(!pool.stop());
    assert!(pool.is_stopping());
    assert_eq!(pool.pending_len(), 1);
    let mut ran = Vec::new();
    drive(&mut pool, &mut ran, &[]);
    assert_eq!(ran, vec![1]);
    assert!(!pool.stop());
}

#[test]
fn drain_after_stop_runs_every_job_once() {
    let mut pool = ThreadPool::new(3).unwrap();
    for j in 0..7u64 {
        pool.execute(j).unwrap();
    }
    pool.stop();
    let mut ran = Vec::new();
    let panics = drive(&mut pool, &mut ran, &[]);
    assert_eq!(panics, 0);
    assert_eq!(ran, (0..7u64).collect::<Vec<_>>());
}

#[test]
fn workers_are_numbered_and_start_in_order() {
    let mut pool: ThreadPool<u64> = ThreadPool::new(3).unwrap();
    assert_eq!(pool.size(), 3);
    for id in 0..3 {
        let w = pool.worker(id);
        assert_eq!(w.id, id);
        assert_eq!(w.phase, WorkerPhase::Starting);
        assert!(!w.busy);
    }
    assert!(pool.worker_started(1));
    assert!(!pool.worker_started(1));
    assert_eq!(pool.worker(1).phase, WorkerPhase::Running);
    assert_eq!(pool.worker(0).phase, WorkerPhase::Starting);
    assert!(!pool.worker_joined(1));
    assert!(!pool.is_terminated());
}

#[test]
fn idle_worker_waits_on_open_empty_queue() {
    let mut pool: ThreadPool<u64> = ThreadPool::new(1).unwrap();
    pool.worker_started(0);
    assert!(matches!(pool.next_job(0), Received::Wait));
    assert_eq!(pool.worker(0).phase, WorkerPhase::Running);
    pool.execute(9).unwrap();
    assert!(matches!(pool.next_job(0), Received::Job(9)));
    assert!(pool.worker(0).busy);
    pool.job_done(0, false);
    pool.stop();
    assert!(matches!(pool.next_job(0), Received::Drained));
    assert_eq!(pool.worker(0).phase, WorkerPhase::Exiting);
    assert!(pool.worker_joined(0));
    assert!(pool.is_terminated());
}
