use simple_http_server::pool::{PoolError, ThreadPool, WorkerState};

#[test]
fn zero_size_is_refused() {
    let r = ThreadPool::new(0);
    assert!(matches!(r, Err(PoolError::ZeroSize)));
}

#[test]
fn new_pool_spawns_idle_workers() {
    let p = ThreadPool::new(4).unwrap();
    assert_eq!(p.worker_count(), 4);
    for w in 0..4 {
        assert!(matches!(p.worker_state(w), WorkerState::Idle));
    }
    assert_eq!(p.pending_count(), 0);
    assert_eq!(p.submitted_count(), 0);
    assert_eq!(p.completed_count(), 0);
    assert!(p.is_accepting());
    assert!(!p.all_terminated());
    assert!(!p.shutdown_complete());
}

#[test]
fn single_worker_pool_is_allowed() {
    let p = ThreadPool::new(1).unwrap();
    assert_eq!(p.worker_count(), 1);
    assert!(matches!(p.worker_state(0), WorkerState::Idle));
}

#[test]
fn tickets_come_in_submission_order_and_leave_fifo() {
    let mut p = ThreadPool::new(2).unwrap();
    assert_eq!(p.execute().unwrap(), 0);
    assert_eq!(p.execute().unwrap(), 1);
    assert_eq!(p.execute().unwrap(), 2);
    assert_eq!(p.pending_count(), 3);
    assert_eq!(p.take_job(0), 0);
    assert_eq!(p.take_job(1), 1);
    assert!(matches!(p.worker_state(0), WorkerState::Running(0)));
    assert!(matches!(p.worker_state(1), WorkerState::Running(1)));
    p.finish(0);
    assert_eq!(p.completed_count(), 1);
    assert!(matches!(p.worker_state(0), WorkerState::Idle));
    assert_eq!(p.take_job(0), 2);
    p.finish(1);
    p.finish(0);
    assert_eq!(p.completed_count(), 3);
    assert_eq!(p.pending_count(), 0);
}

#[test]
fn submission_after_shutdown_is_refused() {
    let mut p = ThreadPool::new(1).unwrap();
    p.execute().unwrap();
    p.close();
    assert!(!p.is_accepting());
    assert!(matches!(p.execute(), Err(PoolError::ShutDown)));
    assert_eq!(p.submitted_count(), 1);
    assert_eq!(p.pending_count(), 1);
}

#[test]
fn more_jobs_than_workers_queue_and_all_complete() {
    let mut p = ThreadPool::new(2).unwrap();
    for _ in 0..5 {
        p.execute().unwrap();
    }
    assert_eq!(p.pending_count(), 5);
    p.close();
    while p.pending_count() > 0 {
        for w in 0..2 {
            if p.pending_count() > 0 && matches!(p.worker_state(w), WorkerState::Idle) {
                p.take_job(w);
                p.finish(w);
            }
        }
    }
    p.retire(0);
    p.retire(1);
    assert!(p.all_terminated());
    assert!(p.shutdown_complete());
    assert_eq!(p.completed_count(), 5);
    assert_eq!(p.completed_count(), p.submitted_count());
}

#[test]
fn four_jobs_increment_shared_counter() {
    let mut p = ThreadPool::new(4).unwrap();
    for _ in 0..4 {
        p.execute().unwrap();
    }
    let mut counter: u64 = 0;
    for w in 0..4 {
        let _ticket = p.take_job(w);
        counter += 1;
        p.finish(w);
    }
    p.close();
    for w in 0..4 {
        p.retire(w);
    }
    assert!(p.shutdown_complete());
    assert_eq!(counter, 4);
    assert_eq!(p.completed_count(), 4);
}

#[test]
fn slow_job_does_not_block_a_fast_job() {
    let mut p = ThreadPool::new(2).unwrap();
    let slow = p.execute().unwrap();
    let fast = p.execute().unwrap();
    assert_eq!(p.take_job(0), slow);
    // While the slow job still occupies worker 0, worker 1 takes the fast
    // job and completes it.
    assert_eq!(p.take_job(1), fast);
    p.finish(1);
    assert_eq!(p.completed_count(), 1);
    assert!(matches!(p.worker_state(0), WorkerState::Running(_)));
    p.finish(0);
    assert_eq!(p.completed_count(), 2);
}

#[test]
fn workers_retire_only_after_the_queue_drains() {
    let mut p = ThreadPool::new(3).unwrap();
    p.execute().unwrap();
    p.execute().unwrap();
    p.close();
    assert_eq!(p.pending_count(), 2);
    p.take_job(0);
    p.take_job(2);
    p.finish(0);
    p.finish(2);
    for w in 0..3 {
        p.retire(w);
    }
    assert!(p.shutdown_complete());
    assert_eq!(p.completed_count(), 2);
}
