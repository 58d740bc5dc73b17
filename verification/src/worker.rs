//! A worker: one thread dedicated to dequeuing and executing jobs
//! sequentially.
//!
//! The library does not start operating-system threads itself: the pool's
//! caller supplies a spawner that runs [`worker_loop`] on a fresh thread and
//! returns a handle for it, and a [`ThreadHandle`] implementation that joins
//! such a handle. The loop itself — taking messages one at a time, running
//! jobs, stopping on a terminate message — is verified here, on top of the
//! queue's trusted channel wrappers.

use vstd::prelude::*;

use crate::queue::take_message;
use crate::queue::Message;
use crate::queue::SharedReceiver;

verus! {

/// The most messages one worker services over its lifetime. The worker loop
/// counts down from here so that each iteration consumes one unit; the bound
/// is far beyond what any run can reach, so in practice a worker leaves its
/// loop only through a terminate message or a closed queue.
pub const MESSAGE_BUDGET: u64 = u64::MAX;

/// A joinable handle for a thread that runs [`worker_loop`]. The pool's
/// caller implements this for whatever handle type its spawner returns;
/// `join_thread` must block until that thread has exited.
pub trait ThreadHandle: Sized {
    /// Blocks until the thread behind the handle has exited.
    fn join_thread(self);
}

/// One worker of the pool: an immutable identity and a slot for the handle of
/// the thread that runs its loop. The slot starts populated and is emptied
/// exactly once, during shutdown, when the handle is taken out to be joined.
pub struct Worker<H> {
    id: usize,
    thread: Option<H>,
}

impl<H> Worker<H> {
    /// The worker's identity, fixed at creation.
    pub closed spec fn id_spec(&self) -> usize {
        self.id
    }

    /// The content of the worker's handle slot.
    pub closed spec fn thread_spec(&self) -> Option<H> {
        self.thread
    }

    /// Whether the worker still holds its thread handle, i.e. has not yet
    /// been joined during shutdown.
    pub closed spec fn holds_thread(&self) -> bool {
        self.thread is Some
    }

    /// Starts the worker: hands the shared end of the queue to the spawner,
    /// which runs [`worker_loop`] on it on a fresh thread, and keeps the
    /// returned handle in the worker's slot. The stored handle is exactly
    /// what the spawner returned for this receiver, so whatever the pool's
    /// caller promises of its spawner holds of the handle.
    pub(crate) fn new<S: Fn(SharedReceiver) -> H>(
        id: usize,
        receiver: SharedReceiver,
        spawner: &S,
    ) -> (worker: Worker<H>)
        requires
            spawner.requires((receiver,)),
        ensures
            worker.id_spec() == id,
            worker.holds_thread(),
            spawner.ensures((receiver,), worker.thread_spec()->0),
    {
        let handle = spawner(receiver);
        Worker { id, thread: Some(handle) }
    }
}

impl<H: ThreadHandle> Worker<H> {
    /// Empties the worker's handle slot, exactly once, and blocks until the
    /// worker's thread has exited. The identity is kept; the slot cannot be
    /// filled again.
    pub(crate) fn join(&mut self)
        ensures
            final(self).id_spec() == old(self).id_spec(),
            !final(self).holds_thread(),
    {
        let handle = self.thread.take();
        match handle {
            Some(h) => {
                h.join_thread();
            },
            None => {},
        }
    }
}

/// The worker state machine: Running (block on receive, then act) until a
/// terminate message arrives, then Terminated (the loop exits and the thread
/// becomes joinable). A job is invoked synchronously, so a worker services at
/// most one message at a time and observes jobs in queue order. A closed
/// queue with nothing pending ends the loop too, since no message could ever
/// arrive; that case is fatal to this worker's loop alone.
pub fn worker_loop(receiver: SharedReceiver) {
    let mut budget: u64 = MESSAGE_BUDGET;
    while budget > 0
        decreases budget,
    {
        budget = budget - 1;
        let message = take_message(&receiver);
        let exit = worker_step(message);
        if exit {
            break;
        }
    }
}

/// One step of the worker state machine: act on one received message. A job
/// message keeps the worker running and runs the job to completion before
/// the step returns; the worker exits exactly on a terminate message or on
/// a closed queue (`None`), and on nothing else.
pub fn worker_step(message: Option<Message>) -> (exit: bool)
    ensures
        exit <==> (message is None || message matches Some(Message::Terminate)),
{
    match message {
        Some(m) => {
            match m {
                Message::NewJob(job) => {
                    job.run();
                    false
                },
                Message::Terminate => true,
            }
        },
        None => true,
    }
}

} // verus!
