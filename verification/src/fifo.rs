//! A model of the work queue's delivery discipline.
//!
//! The queue hands every message it accepted to exactly one taker, oldest
//! first. This module states that discipline over mathematical sequences:
//! a queue state is what has already been delivered and what is still
//! pending, a send appends to the pending side, and a delivery moves exactly
//! the oldest pending message to the delivered side. The laws below say what
//! the pool relies on: nothing is lost, nothing is delivered twice,
//! deliveries happen in send order, and a drained queue has delivered its
//! whole send history.

use vstd::prelude::*;

verus! {

/// The state of a FIFO queue: the messages already handed out, in the order
/// they were handed out, and the messages still waiting, in the order they
/// were sent.
pub struct QueueModel<M> {
    /// Messages already delivered, oldest first.
    pub delivered: Seq<M>,
    /// Messages accepted but not yet delivered, oldest first.
    pub pending: Seq<M>,
}

impl<M> QueueModel<M> {
    /// A queue that has accepted and delivered nothing.
    pub open spec fn init() -> QueueModel<M> {
        QueueModel { delivered: Seq::empty(), pending: Seq::empty() }
    }

    /// Everything the queue ever accepted, in send order: what went out
    /// followed by what still waits.
    pub open spec fn sent(self) -> Seq<M> {
        self.delivered + self.pending
    }

    /// A producer enqueues one message: it joins the end of the pending
    /// side and nothing else moves.
    pub open spec fn send(self, m: M) -> QueueModel<M> {
        QueueModel { delivered: self.delivered, pending: self.pending.push(m) }
    }

    /// Whether a message is waiting, so that a delivery can happen.
    pub open spec fn can_deliver(self) -> bool {
        self.pending.len() > 0
    }

    /// One taker receives one message: exactly the oldest pending one, which
    /// moves to the end of the delivered side.
    pub open spec fn deliver(self) -> QueueModel<M>
        recommends
            self.can_deliver(),
    {
        QueueModel {
            delivered: self.delivered.push(self.pending[0]),
            pending: self.pending.subrange(1, self.pending.len() as int),
        }
    }
}

/// Sending never disturbs the queue: afterwards the send history is the old
/// history with the new message at its end, and nothing already delivered
/// changes.
pub proof fn lemma_send_appends_history<M>(q: QueueModel<M>, m: M)
    ensures
        q.send(m).sent() == q.sent().push(m),
        q.send(m).delivered == q.delivered,
{
    assert(q.send(m).sent() =~= q.sent().push(m));
}

/// A delivery neither loses nor duplicates work: it hands out exactly the
/// oldest pending message, once, and leaves the send history as it was.
pub proof fn lemma_deliver_moves_one<M>(q: QueueModel<M>)
    requires
        q.can_deliver(),
    ensures
        q.deliver().sent() == q.sent(),
        q.deliver().delivered == q.delivered.push(q.pending[0]),
        q.deliver().pending.len() == q.pending.len() - 1,
{
    assert(q.deliver().sent() =~= q.sent());
}

/// Deliveries happen in send order: at every moment, what has been delivered
/// is exactly the first part of the send history. So of two messages sent in
/// some order, neither can be delivered before every message sent earlier;
/// with a single taker, work is therefore observed in submission order.
pub proof fn lemma_delivered_in_send_order<M>(q: QueueModel<M>)
    ensures
        q.delivered == q.sent().subrange(0, q.delivered.len() as int),
{
    assert(q.delivered =~= q.sent().subrange(0, q.delivered.len() as int));
}

/// A drained queue has done all its work: once nothing is pending, the
/// delivered sequence is the entire send history — every message accepted
/// was handed out exactly once, none lost, none duplicated, in order.
pub proof fn lemma_drained_delivers_all<M>(q: QueueModel<M>)
    requires
        !q.can_deliver(),
    ensures
        q.delivered == q.sent(),
{
    assert(q.delivered =~= q.sent());
}

} // verus!
