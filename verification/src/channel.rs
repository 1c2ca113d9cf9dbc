//! The bounded rendezvous channel between the tray thread and the UI loop.
//!
//! Capacity is exactly one; there is a single logical producer (the tray
//! runtime serializes its callbacks) and a single consumer (the UI loop).
//! This module models the channel's observable protocol: a send against a
//! full channel does not go through — the real sender blocks until the
//! buffered message is received — and messages come out in strict send
//! order.  Two ghost logs, of accepted sends and of deliveries, carry the
//! ordering argument.

use vstd::prelude::*;

use crate::tray::TrayMessage;

verus! {

/// The channel's capacity: a second send waits until the first is drained.
pub const CHANNEL_CAPACITY: usize = 1;

/// What a send attempt did.
#[derive(Clone, Copy, Debug, PartialEq, Eq, Structural)]
pub enum SendOutcome {
    /// The message was accepted into the buffer.
    Sent,
    /// The buffer is full: nothing changed, and a blocking sender waits
    /// until the consumer drains the buffer, then retries.
    Full,
    /// The channel is closed: nothing changed, and the message is lost.
    Closed,
}

/// What a receive attempt found.
#[derive(Clone, Copy, Debug, PartialEq, Eq, Structural)]
pub enum RecvOutcome {
    /// The oldest buffered message.
    Message(TrayMessage),
    /// Nothing buffered yet: the consumer suspends until a send arrives.
    Empty,
    /// Nothing buffered and the sender side is gone: the receive loop ends
    /// cleanly, without an error.
    Closed,
}

/// The capacity-one rendezvous channel.
pub struct EventChannel {
    buffer: Vec<TrayMessage>,
    closed: bool,
    sent: Ghost<Seq<TrayMessage>>,
    delivered: Ghost<Seq<TrayMessage>>,
}

impl EventChannel {
    /// The messages currently buffered, oldest first.
    pub closed spec fn buffered(self) -> Seq<TrayMessage> {
        self.buffer@
    }

    /// Whether the channel was closed.
    pub closed spec fn is_closed(self) -> bool {
        self.closed
    }

    /// Every message accepted by a send, in send order.
    pub closed spec fn sent_log(self) -> Seq<TrayMessage> {
        self.sent@
    }

    /// Every message handed to the consumer, in delivery order.
    pub closed spec fn delivered_log(self) -> Seq<TrayMessage> {
        self.delivered@
    }

    /// The channel's invariant: the deliveries followed by what is still
    /// buffered are exactly the accepted sends, and the buffer never holds
    /// more than the capacity.
    pub closed spec fn wf(self) -> bool {
        &&& self.delivered@ + self.buffer@ == self.sent@
        &&& self.buffer@.len() <= CHANNEL_CAPACITY
    }

    /// A fresh, open, empty channel.
    pub fn new() -> (r: EventChannel)
        ensures
            r.wf(),
            r.buffered().len() == 0,
            !r.is_closed(),
            r.sent_log().len() == 0,
            r.delivered_log().len() == 0,
    {
        EventChannel {
            buffer: Vec::new(),
            closed: false,
            sent: Ghost(Seq::empty()),
            delivered: Ghost(Seq::empty()),
        }
    }

    /// A send attempt.  On a closed channel nothing happens and the message
    /// is refused; against a full buffer nothing happens either — the real
    /// blocking sender waits and retries once the consumer drains the
    /// buffer; otherwise the message joins the buffer and the send log.
    pub fn send(&mut self, message: TrayMessage) -> (r: SendOutcome)
        requires
            old(self).wf(),
        ensures
            final(self).wf(),
            old(self).is_closed() ==> r == SendOutcome::Closed && *final(self) == *old(self),
            !old(self).is_closed() && old(self).buffered().len() >= CHANNEL_CAPACITY ==> {
                &&& r == SendOutcome::Full
                &&& *final(self) == *old(self)
            },
            !old(self).is_closed() && old(self).buffered().len() < CHANNEL_CAPACITY ==> {
                &&& r == SendOutcome::Sent
                &&& final(self).buffered() == old(self).buffered().push(message)
                &&& final(self).sent_log() == old(self).sent_log().push(message)
                &&& final(self).delivered_log() == old(self).delivered_log()
                &&& !final(self).is_closed()
            },
    {
        if self.closed {
            SendOutcome::Closed
        } else if self.buffer.len() >= CHANNEL_CAPACITY {
            SendOutcome::Full
        } else {
            self.buffer.push(message);
            proof {
                self.sent@ = self.sent@.push(message);
                assert(self.delivered@ + self.buffer@ =~= self.sent@);
            }
            SendOutcome::Sent
        }
    }

    /// A receive attempt.  The oldest buffered message comes out first; an
    /// empty open channel suspends the consumer; an empty closed channel
    /// ends the receive loop cleanly.
    pub fn receive(&mut self) -> (r: RecvOutcome)
        requires
            old(self).wf(),
        ensures
            final(self).wf(),
            final(self).is_closed() == old(self).is_closed(),
            final(self).sent_log() == old(self).sent_log(),
            old(self).buffered().len() > 0 ==> {
                &&& r == RecvOutcome::Message(old(self).buffered()[0])
                &&& r == RecvOutcome::Message(
                    old(self).sent_log()[old(self).delivered_log().len() as int],
                )
                &&& final(self).buffered() == old(self).buffered().drop_first()
                &&& final(self).delivered_log() == old(self).delivered_log().push(
                    old(self).buffered()[0],
                )
            },
            old(self).buffered().len() == 0 ==> {
                &&& *final(self) == *old(self)
                &&& r == if old(self).is_closed() {
                    RecvOutcome::Closed
                } else {
                    RecvOutcome::Empty
                }
            },
    {
        if self.buffer.len() == 0 {
            if self.closed {
                RecvOutcome::Closed
            } else {
                RecvOutcome::Empty
            }
        } else {
            let message = self.buffer.remove(0);
            proof {
                self.delivered@ = self.delivered@.push(message);
                assert(self.delivered@ + self.buffer@ =~= self.sent@);
            }
            RecvOutcome::Message(message)
        }
    }

    /// Closing the sender side: buffered messages stay receivable, new sends
    /// are refused.
    pub fn close(&mut self)
        requires
            old(self).wf(),
        ensures
            final(self).wf(),
            final(self).is_closed(),
            final(self).buffered() == old(self).buffered(),
            final(self).sent_log() == old(self).sent_log(),
            final(self).delivered_log() == old(self).delivered_log(),
    {
        self.closed = true;
    }
}

/// Messages are dequeued in strict send order: at every reachable state the
/// deliveries so far are exactly the first accepted sends, as a prefix, for
/// any sequence of sends.
pub proof fn lemma_messages_delivered_in_send_order(ch: EventChannel)
    requires
        ch.wf(),
    ensures
        ch.delivered_log() == ch.sent_log().take(ch.delivered_log().len() as int),
        ch.delivered_log().len() <= ch.sent_log().len(),
{
    assert(ch.delivered_log() =~= ch.sent_log().take(ch.delivered_log().len() as int));
}

} // verus!
