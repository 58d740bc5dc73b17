use std::sync::atomic::AtomicBool;
use std::sync::atomic::AtomicUsize;
use std::sync::atomic::Ordering;
use std::sync::mpsc::channel;
use std::sync::mpsc::Receiver;
use std::sync::Arc;
use std::sync::Mutex;
use std::time::Duration;
use std::time::Instant;

use threadpool::ThreadPool as OsThreads;
use worker_pool::queue::Message;
use worker_pool::queue::SharedReceiver;
use worker_pool::worker::worker_loop;
use worker_pool::worker::worker_step;
use worker_pool::worker::ThreadHandle;
use worker_pool::ThreadPool;

// The pool under test never starts operating-system threads itself: its
// caller passes a spawner and a joinable handle type. Here the spawner runs
// each worker loop on a thread of an `OsThreads` helper pool, and the handle
// waits for a note the worker posts when its loop returns.
struct TestHandle(Mutex<Receiver<()>>);

impl ThreadHandle for TestHandle {
    fn join_thread(self) {
        let exited = self.0.into_inner().expect("no worker poisons its handle");
        let _ = exited.recv();
    }
}

fn new_pool(size: usize, os_threads: &OsThreads) -> ThreadPool<TestHandle> {
    let os_threads = os_threads.clone();
    ThreadPool::new(size, move |receiver: SharedReceiver| {
        let (done, handle) = channel();
        os_threads.execute(move || {
            worker_loop(receiver);
            let _ = done.send(());
        });
        TestHandle(Mutex::new(handle))
    })
}

#[test]
fn new_creates_exactly_size_workers() {
    let os_threads = OsThreads::new(8);
    let pool = new_pool(1, &os_threads);
    assert_eq!(pool.num_workers(), 1);
    pool.shutdown();

    let pool = new_pool(7, &os_threads);
    assert_eq!(pool.num_workers(), 7);
    pool.shutdown();
}

#[test]
fn each_worker_executes_independently() {
    // Four jobs that each wait for all four to have started can only finish
    // if four workers run them at the same time.
    let size = 4;
    let os_threads = OsThreads::new(size);
    let pool = new_pool(size, &os_threads);
    let started = Arc::new(AtomicUsize::new(0));
    let finished = Arc::new(AtomicUsize::new(0));
    for _ in 0..size {
        let started = Arc::clone(&started);
        let finished = Arc::clone(&finished);
        pool.execute(move || {
            started.fetch_add(1, Ordering::SeqCst);
            while started.load(Ordering::SeqCst) < 4 {
                std::hint::spin_loop();
            }
            finished.fetch_add(1, Ordering::SeqCst);
        });
    }
    pool.shutdown();
    assert_eq!(finished.load(Ordering::SeqCst), size);
}

#[test]
fn all_jobs_run_exactly_once() {
    let jobs = 100;
    let os_threads = OsThreads::new(4);
    let pool = new_pool(4, &os_threads);
    let counter = Arc::new(AtomicUsize::new(0));
    for _ in 0..jobs {
        let counter = Arc::clone(&counter);
        let accepted = pool.execute(move || {
            counter.fetch_add(1, Ordering::SeqCst);
        });
        assert!(accepted, "a live pool accepts every submission");
    }
    pool.shutdown();
    assert_eq!(counter.load(Ordering::SeqCst), jobs);
}

#[test]
fn single_worker_runs_jobs_in_submission_order() {
    // With one worker, a job submitted second must observe the side effect
    // of the job submitted first.
    let os_threads = OsThreads::new(1);
    let pool = new_pool(1, &os_threads);
    let flag = Arc::new(AtomicBool::new(false));
    let observed_in_order = Arc::new(AtomicBool::new(false));

    let flag_for_first = Arc::clone(&flag);
    pool.execute(move || {
        flag_for_first.store(true, Ordering::SeqCst);
    });

    let flag_for_second = Arc::clone(&flag);
    let observed = Arc::clone(&observed_in_order);
    pool.execute(move || {
        observed.store(flag_for_second.load(Ordering::SeqCst), Ordering::SeqCst);
    });

    pool.shutdown();
    assert!(observed_in_order.load(Ordering::SeqCst));
}

#[test]
fn shutdown_signals_and_joins_every_worker() {
    let os_threads = OsThreads::new(3);
    let pool = new_pool(3, &os_threads);
    let counter = Arc::new(AtomicUsize::new(0));
    for _ in 0..6 {
        let counter = Arc::clone(&counter);
        pool.execute(move || {
            counter.fetch_add(1, Ordering::SeqCst);
        });
    }
    let report = pool.shutdown();
    assert_eq!(report.terminates_sent, 3);
    assert_eq!(report.workers_joined, 3);
    // Shutdown blocked until every worker drained the queue and exited.
    assert_eq!(counter.load(Ordering::SeqCst), 6);
}

#[test]
fn teardown_completes_when_jobs_are_bounded() {
    // Teardown blocks for as long as submitted jobs run; with bounded jobs
    // it must finish within a small bound.
    let os_threads = OsThreads::new(2);
    let pool = new_pool(2, &os_threads);
    let work = Arc::new(AtomicUsize::new(0));
    for _ in 0..8 {
        let work = Arc::clone(&work);
        pool.execute(move || {
            for _ in 0..50_000 {
                work.fetch_add(1, Ordering::Relaxed);
            }
        });
    }
    let begin = Instant::now();
    pool.shutdown();
    assert!(begin.elapsed() < Duration::from_secs(10));
    assert_eq!(work.load(Ordering::Relaxed), 8 * 50_000);
}

#[test]
fn concurrent_producers_lose_and_duplicate_nothing() {
    let producers = 4;
    let jobs_per_producer = 250;
    let os_threads = OsThreads::new(8);
    let pool = Arc::new(new_pool(4, &os_threads));
    let counter = Arc::new(AtomicUsize::new(0));

    let (producer_done, producers_done) = channel();
    for _ in 0..producers {
        let pool = Arc::clone(&pool);
        let counter = Arc::clone(&counter);
        let producer_done = producer_done.clone();
        os_threads.execute(move || {
            for _ in 0..jobs_per_producer {
                let counter = Arc::clone(&counter);
                pool.execute(move || {
                    counter.fetch_add(1, Ordering::SeqCst);
                });
            }
            // Give the clone of the pool back before reporting, so that by
            // the time every producer has reported, the test's own clone is
            // the last one.
            drop(pool);
            let _ = producer_done.send(());
        });
    }
    for _ in 0..producers {
        producers_done
            .recv()
            .expect("a producer should report that it finished");
    }

    let pool = match Arc::try_unwrap(pool) {
        Ok(p) => p,
        Err(_) => panic!("every producer clone of the pool should be gone"),
    };
    pool.shutdown();
    assert_eq!(counter.load(Ordering::SeqCst), producers * jobs_per_producer);
}

#[test]
fn worker_stops_on_terminate_message() {
    // A terminate message is the worker's one regular exit: with it already
    // queued, the loop takes it and returns at once, on this very thread.
    let (sender, receiver) = channel();
    sender.send(Message::Terminate).expect("the receiving half is alive");
    worker_loop(Arc::new(Mutex::new(receiver)));
}

#[test]
fn worker_stops_when_queue_closes() {
    // A queue that is empty with every sending half gone can never deliver
    // again; that is fatal to the worker's loop, which returns.
    let (sender, receiver) = channel::<Message>();
    drop(sender);
    worker_loop(Arc::new(Mutex::new(receiver)));
}

#[test]
fn worker_step_exits_only_on_terminate_or_closed_queue() {
    // The worker state machine's two exits: a terminate message, and a
    // queue that can never deliver again.
    assert!(worker_step(Some(Message::Terminate)));
    assert!(worker_step(None));
}
