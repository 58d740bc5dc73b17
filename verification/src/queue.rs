//! The shared work queue: a single FIFO channel that carries tagged messages
//! from any submitting thread to the pool's workers.
//!
//! The channel comes from `std::sync::mpsc`; its halves are declared below
//! and reached only through the trusted wrappers at the bottom of this file.
//! The receiving half is guarded by a mutex, so that "take the next message"
//! is atomic with respect to the other workers: each pending message goes to
//! exactly one worker, and none is dropped. What that delivery discipline
//! amounts to — nothing lost, nothing duplicated, send order kept — is
//! stated over sequences and proved in [`crate::fifo`].

use std::sync::mpsc::Receiver;
use std::sync::mpsc::Sender;
use std::sync::Arc;
use std::sync::Mutex;
use std::sync::MutexGuard;
use vstd::prelude::*;

use crate::job::Job;

verus! {

/// A tagged message on the work queue. Exactly one message is consumed per
/// receive; insertion order is preserved (FIFO), with no priorities.
pub enum Message {
    /// Carries one job to whichever worker takes the message.
    NewJob(Job),
    /// Instructs exactly the one worker that takes it to exit its loop.
    Terminate,
}

#[verifier::external_type_specification]
#[verifier::external_body]
#[verifier::reject_recursive_types(T)]
pub struct ExSender<T>(Sender<T>);

#[verifier::external_type_specification]
#[verifier::external_body]
#[verifier::reject_recursive_types(T)]
pub struct ExReceiver<T>(Receiver<T>);

#[verifier::external_type_specification]
#[verifier::external_body]
#[verifier::reject_recursive_types(T)]
pub struct ExMutex<T: ?Sized>(Mutex<T>);

#[verifier::external_type_specification]
#[verifier::external_body]
#[verifier::reject_recursive_types(T)]
pub struct ExMutexGuard<'a, T: ?Sized + 'a>(MutexGuard<'a, T>);

/// The receiving half of the queue, shared by every worker. The mutex
/// serializes access, so each pending message goes to exactly one worker.
pub type SharedReceiver = Arc<Mutex<Receiver<Message>>>;

/// The queue's producer handle: the sending half of the channel, paired at
/// construction with a keep-alive handle to the receiving half of that same
/// channel. The fields are private and [`new_queue`] is the only
/// constructor, so for every producer that verified code can hold, the
/// receiving half of its own channel is still allocated, and a send through
/// it cannot be refused.
pub struct Producer {
    sender: Sender<Message>,
    keep_alive: SharedReceiver,
}

impl Producer {
    /// The shared receiving half of this producer's own channel.
    pub closed spec fn receiver_spec(&self) -> SharedReceiver {
        self.keep_alive
    }

    /// The shared receiving half of this producer's own channel: the end
    /// the workers take messages from.
    pub(crate) fn shared_receiver(&self) -> (shared: &SharedReceiver)
        ensures
            *shared == self.receiver_spec(),
    {
        &self.keep_alive
    }
}

/// Creates the work queue: one FIFO channel, its receiving half wrapped for
/// sharing among the workers, its sending half paired with a keep-alive
/// handle to that same receiving half.
pub(crate) fn new_queue() -> Producer {
    let (sender, receiver) = new_channel();
    let keep_alive: SharedReceiver = Arc::new(new_shared(receiver));
    Producer { sender, keep_alive }
}

/// Takes the next message from the shared end of the queue, blocking while
/// it is empty: locks out the other workers, receives exactly one message,
/// and releases the lock when the guard goes out of scope. Returns `None`
/// only if the queue is beyond use — poisoned, or empty with every sending
/// half gone — which the caller treats as fatal to its own loop.
pub(crate) fn take_message(shared: &SharedReceiver) -> Option<Message> {
    let locked = lock_receiver(&*shared);
    match locked {
        Some(guard) => receive_message(guard_receiver(&guard)),
        None => None,
    }
}

/// Relies on `std::sync::mpsc::channel`: creates an unbounded FIFO queue and
/// returns its sending and receiving halves.
#[verifier::external_body]
pub(crate) fn new_channel() -> (halves: (Sender<Message>, Receiver<Message>))
{
    std::sync::mpsc::channel()
}

/// Relies on `std::sync::Mutex::new`: wraps the receiving half in a fresh,
/// unlocked mutex.
#[verifier::external_body]
pub(crate) fn new_shared(receiver: Receiver<Message>) -> Mutex<Receiver<Message>> {
    Mutex::new(receiver)
}

/// Relies on `std::sync::Mutex::lock`: blocks until this caller holds the
/// lock exclusively, then hands out the guard. Returns `None` only if the
/// mutex was poisoned, i.e. some holder of the lock panicked. std leaves
/// itself free to panic when a thread locks a mutex it already holds; the
/// one caller here, [`take_message`], releases the guard before returning,
/// so no thread can reach this call while holding the lock.
#[verifier::external_body]
pub(crate) fn lock_receiver<'a>(
    mutex: &'a Mutex<Receiver<Message>>,
) -> Option<MutexGuard<'a, Receiver<Message>>> {
    match mutex.lock() {
        Ok(guard) => Some(guard),
        Err(_) => None,
    }
}

/// Relies on `std::sync::MutexGuard`'s `Deref`: borrows the receiving half
/// that the held lock protects.
#[verifier::external_body]
pub(crate) fn guard_receiver<'a, 'b>(
    guard: &'b MutexGuard<'a, Receiver<Message>>,
) -> &'b Receiver<Message> {
    &**guard
}

/// Relies on `std::sync::mpsc::Receiver::recv`: blocks until a message is
/// available, then takes exactly one message, the oldest one queued. Returns
/// `None` only if the queue is empty and every sending half has been
/// dropped, so that no message could ever arrive.
#[verifier::external_body]
pub(crate) fn receive_message(receiver: &Receiver<Message>) -> (message: Option<Message>)
{
    match receiver.recv() {
        Ok(m) => Some(m),
        Err(_) => None,
    }
}

/// Relies on `std::sync::mpsc::Sender::send`: enqueues the message without
/// blocking and preserves send order, and is refused exactly when the
/// receiver paired with this sender has been deallocated. A [`Producer`]
/// owns an `Arc` of its own channel's receiving half, so that receiver is
/// still allocated and the send is accepted.
#[verifier::external_body]
pub(crate) fn send_message(producer: &Producer, message: Message) -> (accepted: bool)
    ensures
        accepted,
{
    producer.sender.send(message).is_ok()
}

} // verus!
