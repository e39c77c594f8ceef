use sekhmet_server::thread_pool::{take_threads, Dispatch, Message, Worker, WorkerState};

/// Runs every worker in turn until all have stopped, applying each job to
/// `value` through `run`. Returns the number of messages taken.
fn drain<J>(d: &mut Dispatch<J>, mut run: impl FnMut(J)) -> usize {
    let mut taken = 0;
    loop {
        let mut progressed = false;
        for w in 0..d.worker_count() {
            if d.worker_state(w) == WorkerState::Idle {
                match d.take(w) {
                    Some(Message::NewJob(job)) => {
                        taken += 1;
                        progressed = true;
                        run(job);
                        d.finish(w);
                    }
                    Some(Message::Terminate) => {
                        taken += 1;
                        progressed = true;
                    }
                    None => {}
                }
            }
        }
        if !progressed {
            return taken;
        }
    }
}

fn all_stopped<J>(d: &Dispatch<J>) -> bool {
    (0..d.worker_count()).all(|w| d.worker_state(w) == WorkerState::Stopped)
}

#[test]
fn threadpool_work() {
    // Fill a u32 with ones, one job per bit, over four workers.
    let golden_value = 0xFFFFFFFFu32;
    let mut value = 0u32;
    let mut pool: Dispatch<u32> = Dispatch::new(4);
    for i in 0..32 {
        pool.submit(i);
    }
    pool.close();
    drain(&mut pool, |i| {
        let new_bit = 1u32 << i;
        assert_eq!(value & new_bit, 0);
        assert_ne!(value, golden_value);
        value |= new_bit;
    });
    assert!(all_stopped(&pool));
    assert_eq!(value, golden_value);
}

#[test]
fn threadpool_lifetime() {
    // Although no work is sent, the pool starts and shuts down.
    let mut pool: Dispatch<u32> = Dispatch::new(4);
    pool.close();
    assert_eq!(pool.queued_stops(), 4);
    assert_eq!(drain(&mut pool, |_| {}), 4);
    assert!(all_stopped(&pool));
    assert_eq!(pool.queued_stops(), 0);
}

#[test]
fn new_pool_has_idle_workers_that_wait() {
    let mut pool: Dispatch<u32> = Dispatch::new(3);
    assert_eq!(pool.worker_count(), 3);
    for w in 0..3 {
        assert_eq!(pool.worker_state(w), WorkerState::Idle);
        assert!(pool.take(w).is_none());
    }
    assert!(!pool.shutting_down());
    assert_eq!(pool.queued_jobs(), 0);
    assert_eq!(pool.queued_stops(), 0);
}

#[test]
fn jobs_are_handed_out_in_submission_order() {
    let mut pool: Dispatch<u32> = Dispatch::new(2);
    pool.submit(7);
    pool.submit(8);
    assert!(matches!(pool.take(1), Some(Message::NewJob(7))));
    assert_eq!(pool.worker_state(1), WorkerState::Busy);
    assert!(matches!(pool.take(0), Some(Message::NewJob(8))));
}

#[test]
fn stop_comes_after_queued_jobs() {
    let mut pool: Dispatch<u32> = Dispatch::new(1);
    pool.submit(1);
    pool.close();
    assert!(pool.shutting_down());
    assert!(matches!(pool.take(0), Some(Message::NewJob(1))));
    pool.finish(0);
    assert_eq!(pool.worker_state(0), WorkerState::Idle);
    assert!(matches!(pool.take(0), Some(Message::Terminate)));
    assert_eq!(pool.worker_state(0), WorkerState::Stopped);
}

#[test]
fn more_jobs_than_workers_each_run_once() {
    let mut counts = vec![0u32; 100];
    let mut pool: Dispatch<usize> = Dispatch::new(1);
    for i in 0..100 {
        pool.submit(i);
    }
    pool.close();
    assert_eq!(drain(&mut pool, |i| counts[i] += 1), 101);
    assert!(counts.iter().all(|&c| c == 1));
    assert!(all_stopped(&pool));
}

#[test]
fn more_workers_than_jobs_each_run_once() {
    let mut counts = vec![0u32; 2];
    let mut pool: Dispatch<usize> = Dispatch::new(8);
    pool.submit(0);
    pool.submit(1);
    pool.close();
    assert_eq!(pool.queued_stops(), 8);
    assert_eq!(drain(&mut pool, |i| counts[i] += 1), 10);
    assert_eq!(counts, vec![1, 1]);
    assert!(all_stopped(&pool));
}

#[test]
fn closing_twice_queues_stops_once() {
    let mut pool: Dispatch<u32> = Dispatch::new(2);
    pool.close();
    pool.close();
    assert_eq!(pool.queued_stops(), 2);
}

#[test]
fn failed_job_leaves_later_jobs_queued() {
    // The only worker took a job and never came back from it.
    let mut pool: Dispatch<u32> = Dispatch::new(1);
    pool.submit(1);
    assert!(matches!(pool.take(0), Some(Message::NewJob(1))));
    pool.submit(2);
    pool.submit(3);
    assert_eq!(pool.queued_jobs(), 2);
    assert_eq!(pool.worker_state(0), WorkerState::Busy);
    pool.close();
    assert_eq!(pool.queued_jobs(), 2);
    assert_eq!(pool.queued_stops(), 1);
}

#[test]
fn threads_are_handed_out_once() {
    let mut workers = vec![Worker::new(0, 10u32), Worker::new(1, 20u32), Worker::new(2, 30u32)];
    assert_eq!(workers[1].take_thread(), Some(20));
    assert_eq!(take_threads(&mut workers), vec![10, 30]);
    assert!(workers.iter().all(|w| w.thread.is_none()));
    assert_eq!(workers.iter().map(|w| w.id).collect::<Vec<_>>(), vec![0, 1, 2]);
    assert_eq!(take_threads(&mut workers), Vec::<u32>::new());
}
