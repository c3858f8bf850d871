use workpool::pool::JobQueue;
use workpool::pool::ReceiveOutcome;
use workpool::pool::ShutdownOutcome;
use workpool::pool::StartupError;
use workpool::pool::SubmitOutcome;
use workpool::pool::ThreadPool;
use workpool::pool::WorkerAction;
use workpool::pool::WorkerEvent;
use workpool::pool::WorkerPhase;
use workpool::pool::event_of_receive;
use workpool::pool::worker_step;

#[test]
fn pool_of_n_has_n_joinable_workers() {
    for n in 1..=8usize {
        let pool = ThreadPool::new(n);
        assert_eq!(pool.worker_count(), n);
    }
}

#[test]
fn zero_sized_pool_fails_fast() {
    match ThreadPool::try_new(0) {
        Err(StartupError::InvalidPoolSize) => {}
        _ => panic!("a zero-sized pool must be refused"),
    }
}

#[test]
fn try_new_accepts_positive_sizes() {
    let pool = ThreadPool::try_new(3).expect("a pool of three workers");
    assert_eq!(pool.worker_count(), 3);
}

#[test]
fn submitted_jobs_are_delivered_exactly_once_in_order() {
    let mut pool = ThreadPool::new(2);
    for job in 0..5u64 {
        assert_eq!(pool.execute(job), SubmitOutcome::Accepted);
    }
    match pool.shutdown() {
        ShutdownOutcome::DidShutdown(drained) => {
            assert_eq!(drained, vec![0, 1, 2, 3, 4]);
        }
        ShutdownOutcome::AlreadyDown => panic!("first shutdown must tear down"),
    }
}

#[test]
fn shutdown_is_idempotent_and_joins_everyone() {
    let mut pool = ThreadPool::new(4);
    pool.execute(7);
    match pool.shutdown() {
        ShutdownOutcome::DidShutdown(drained) => assert_eq!(drained, vec![7]),
        ShutdownOutcome::AlreadyDown => panic!("first shutdown must tear down"),
    }
    match pool.shutdown() {
        ShutdownOutcome::AlreadyDown => {}
        ShutdownOutcome::DidShutdown(_) => panic!("second shutdown must be a no-op"),
    }
}

#[test]
fn submission_after_shutdown_is_rejected_without_blocking() {
    let mut pool = ThreadPool::new(1);
    pool.shutdown();
    assert_eq!(pool.execute(42), SubmitOutcome::Rejected);
    match pool.shutdown() {
        ShutdownOutcome::AlreadyDown => {}
        ShutdownOutcome::DidShutdown(_) => panic!("the rejected job must not appear"),
    }
}

#[test]
fn queue_delivers_fifo_and_reports_closure() {
    let mut q = JobQueue::new();
    assert_eq!(q.receive(), ReceiveOutcome::WouldBlock);
    assert_eq!(q.submit(10), SubmitOutcome::Accepted);
    assert_eq!(q.submit(11), SubmitOutcome::Accepted);
    assert_eq!(q.receive(), ReceiveOutcome::Delivered(10));
    q.close();
    assert_eq!(q.submit(12), SubmitOutcome::Rejected);
    assert_eq!(q.receive(), ReceiveOutcome::Delivered(11));
    assert_eq!(q.receive(), ReceiveOutcome::Closed);
    assert!(q.is_closed());
    assert_eq!(q.pending(), 0);
}

#[test]
fn panicking_job_does_not_stop_the_worker() {
    let mut q = JobQueue::new();
    q.submit(1); // job A, which will panic
    q.submit(2); // job B, which increments the counter
    let mut phase = WorkerPhase::Starting;
    let mut counter = 0u64;

    let (p, a) = worker_step(phase, WorkerEvent::Started);
    phase = p;
    assert_eq!(a, WorkerAction::LogStarted);

    // Job A is claimed and terminates abnormally.
    let r = q.receive();
    assert_eq!(r, ReceiveOutcome::Delivered(1));
    let (p, a) = worker_step(phase, event_of_receive(r));
    phase = p;
    assert_eq!(a, WorkerAction::RunJob);
    let (p, a) = worker_step(phase, WorkerEvent::JobPanicked);
    phase = p;
    assert_eq!(a, WorkerAction::LogJobFailure);
    assert_eq!(phase, WorkerPhase::Waiting);

    // Job B still runs and its effect is observed.
    let r = q.receive();
    assert_eq!(r, ReceiveOutcome::Delivered(2));
    let (p, a) = worker_step(phase, event_of_receive(r));
    phase = p;
    assert_eq!(a, WorkerAction::RunJob);
    counter += 1;
    let (p, _) = worker_step(phase, WorkerEvent::JobCompleted);
    phase = p;
    assert_eq!(counter, 1);
    assert_eq!(phase, WorkerPhase::Waiting);
}

#[test]
fn poisoned_guard_stops_only_that_worker() {
    let (phase, action) = worker_step(WorkerPhase::Waiting, WorkerEvent::GuardPoisoned);
    assert_eq!(phase, WorkerPhase::Stopped);
    assert_eq!(action, WorkerAction::LogPoisonedStop);
    // A stopped worker stays stopped whatever else it observes.
    let (phase, action) = worker_step(WorkerPhase::Stopped, WorkerEvent::JobReceived);
    assert_eq!(phase, WorkerPhase::Stopped);
    assert_eq!(action, WorkerAction::NoAction);
}

#[test]
fn queue_closure_stops_the_worker_gracefully() {
    let (phase, action) = worker_step(WorkerPhase::Waiting, WorkerEvent::QueueClosed);
    assert_eq!(phase, WorkerPhase::Stopped);
    assert_eq!(action, WorkerAction::LogGracefulStop);
}

#[test]
fn concurrent_producers_each_job_exactly_once() {
    // Four producers of a thousand jobs each, interleaved round-robin into a
    // pool of eight workers: every job is delivered exactly once.
    let producers = 4u64;
    let each = 1000u64;
    let mut pool = ThreadPool::new(8);
    for round in 0..each {
        for p in 0..producers {
            let job = p * each + round;
            assert_eq!(pool.execute(job), SubmitOutcome::Accepted);
        }
    }
    let drained = match pool.shutdown() {
        ShutdownOutcome::DidShutdown(drained) => drained,
        ShutdownOutcome::AlreadyDown => panic!("first shutdown must tear down"),
    };
    assert_eq!(drained.len(), (producers * each) as usize);
    let mut seen = vec![0u32; (producers * each) as usize];
    for job in drained {
        seen[job as usize] += 1;
    }
    assert!(seen.iter().all(|&c| c == 1));
}
