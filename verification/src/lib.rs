//! A fixed-size worker pool: a bounded set of long-lived threads that pull
//! units of work from a shared FIFO queue and run them to completion, with a
//! two-phase protocol for graceful, ordered shutdown.
//!
//! The pool owns the queue's sending half and the full set of workers. A
//! caller submits fire-and-forget jobs with [`ThreadPool::execute`]; exactly
//! one idle worker takes each job from the queue and runs it. Teardown sends
//! one terminate message per worker and only then joins every worker thread,
//! so no worker can starve another of its terminate signal.
//!
//! Starting and joining operating-system threads cannot be expressed here,
//! so the pool is generic over a thread-handle type: the caller hands
//! [`ThreadPool::new`] a spawner that runs [`worker::worker_loop`] on a fresh
//! thread, and implements [`worker::ThreadHandle`] so that shutdown can join
//! those threads.

use vstd::prelude::*;

pub mod fifo;
pub mod job;
pub mod queue;
pub mod worker;

use crate::job::Job;
use crate::queue::new_queue;
use crate::queue::send_message;
use crate::queue::Message;
use crate::queue::Producer;
use crate::queue::SharedReceiver;
use crate::worker::ThreadHandle;
use crate::worker::Worker;

verus! {

/// The coordinator: owns the queue's producer handle — which keeps the
/// queue's receiving half alive — and the full set of workers. Workers are
/// created only in [`ThreadPool::new`] and none is added or removed
/// afterward until teardown.
pub struct ThreadPool<H> {
    workers: Vec<Worker<H>>,
    producer: Producer,
}

/// What a completed teardown did: how many terminate messages were sent
/// (one per worker, all before any join), and how many worker threads were
/// then joined (every worker the pool owned).
pub struct ShutdownReport {
    pub terminates_sent: usize,
    pub workers_joined: usize,
}

impl<H> ThreadPool<H> {
    /// How many workers the pool owns.
    pub closed spec fn worker_count(&self) -> int {
        self.workers@.len() as int
    }

    /// Whether worker `i` still holds its thread handle, i.e. has been
    /// started and not yet joined.
    pub closed spec fn worker_running(&self, i: int) -> bool {
        self.workers@[i].holds_thread()
    }

    /// The content of worker `i`'s handle slot.
    pub closed spec fn worker_handle(&self, i: int) -> Option<H> {
        self.workers@[i].thread_spec()
    }

    /// The shared receiving half of the pool's own queue, which every
    /// worker was started on.
    pub closed spec fn queue_receiver(&self) -> SharedReceiver {
        self.producer.receiver_spec()
    }

    /// The pool's well-formedness: workers are numbered `0, 1, ...` in the
    /// order they were created.
    pub closed spec fn wf(&self) -> bool {
        forall|i: int|
            0 <= i < self.workers@.len() ==> (#[trigger] self.workers@[i]).id_spec() == i
    }

    /// Creates the shared queue, then starts exactly `size` workers, each
    /// holding the queue's shared receiving half. Returns once every worker
    /// has been started; it does not wait for workers to become idle. A pool
    /// of zero workers is refused: no job submitted to it could ever run.
    pub fn new<S: Fn(SharedReceiver) -> H>(size: usize, spawner: S) -> (pool: ThreadPool<H>)
        requires
            size > 0,
            forall|r: SharedReceiver| #[trigger] spawner.requires((r,)),
        ensures
            pool.wf(),
            pool.worker_count() == size,
            forall|i: int| 0 <= i < size ==> pool.worker_running(i),
            forall|i: int|
                0 <= i < size ==> spawner.ensures(
                    (pool.queue_receiver(),),
                    (#[trigger] pool.worker_handle(i))->0,
                ),
    {
        let producer = new_queue();
        let mut workers: Vec<Worker<H>> = Vec::new();
        let mut id: usize = 0;
        while id < size
            invariant
                id <= size,
                workers@.len() == id,
                forall|i: int|
                    0 <= i < id ==> (#[trigger] workers@[i]).id_spec() == i
                        && workers@[i].holds_thread()
                        && spawner.ensures(
                        (producer.receiver_spec(),),
                        workers@[i].thread_spec()->0,
                    ),
                forall|r: SharedReceiver| #[trigger] spawner.requires((r,)),
            decreases size - id,
        {
            let worker = Worker::new(id, producer.shared_receiver().clone(), &spawner);
            workers.push(worker);
            id = id + 1;
        }
        ThreadPool { workers, producer }
    }

    /// Submits one job: wraps the callable as a message and enqueues it,
    /// returning as soon as the queue has accepted it. It does not wait for
    /// the job to run; exactly one worker will take the message, at an
    /// unspecified but eventual time, and jobs submitted from one thread
    /// are taken in submission order. The returned flag says whether the
    /// queue accepted the submission, and it always did: a submission is
    /// refused only when no consumer could ever exist, and the producer
    /// handle keeps its channel's receiving half alive.
    pub fn execute<F>(&self, f: F) -> (accepted: bool) where
        F: FnOnce() + Send + 'static,

        requires
            f.requires(()),
        ensures
            accepted,
    {
        let job = Job::new(f);
        send_message(&self.producer, Message::NewJob(job))
    }

    /// How many workers the pool owns.
    pub fn num_workers(&self) -> (n: usize)
        ensures
            n == self.worker_count(),
    {
        self.workers.len()
    }
}

impl<H: ThreadHandle> ThreadPool<H> {
    /// Tears the pool down in two strictly sequential passes: first send
    /// exactly one terminate message per worker — never more, so no signal
    /// is duplicated, and never fewer, so no worker is left waiting — and
    /// only after all signals are queued, join every worker thread in
    /// creation order, blocking until each has exited. Joining before all
    /// signals were sent could deadlock: a worker cannot take its terminate
    /// message while it is mid-job, and the coordinator must not block on
    /// one worker before the others have been signalled.
    pub fn shutdown(self) -> (report: ShutdownReport)
        ensures
            report.terminates_sent == self.worker_count(),
            report.workers_joined == self.worker_count(),
    {
        let ThreadPool { workers, producer } = self;
        let mut workers = workers;
        let count = workers.len();

        let mut sent: usize = 0;
        while sent < count
            invariant
                sent <= count,
            decreases count - sent,
        {
            let _accepted = send_message(&producer, Message::Terminate);
            sent = sent + 1;
        }

        let mut joined: usize = 0;
        while workers.len() > 0
            invariant
                joined + workers@.len() == count,
            decreases workers@.len(),
        {
            let mut worker = workers.remove(0);
            worker.join();
            joined = joined + 1;
        }

        ShutdownReport { terminates_sent: sent, workers_joined: joined }
    }
}

} // verus!
