//! The listener's decision core: a FIFO of decoded-but-undelivered change
//! events and a shutdown flag. The surrounding I/O shell reads from its
//! platform source and feeds decoded events in; every delivery decision is
//! made here. Shutdown is terminal: once requested, a listener with an empty
//! queue answers interrupted, and keeps answering interrupted.

use crate::route::RouteChange;
use vstd::prelude::*;

verus! {

/// What a listen call should do next: hand this event out, report the
/// interrupted condition, or perform one more read and feed the events in.
pub enum ListenStep {
    Deliver(RouteChange),
    Interrupted,
    NeedRead,
}

/// The state of one listener: the decoded events not yet delivered, in
/// arrival order, and whether shutdown was requested.
pub struct ListenerState {
    pub queue: Vec<RouteChange>,
    pub shutdown: bool,
}

/// The delivery decision over a listener state: the front of the queue when
/// one is waiting (events within one read batch are delivered in arrival
/// order), else interrupted once shutdown was requested, else one more read.
pub open spec fn spec_poll(s: ListenerState) -> (ListenStep, ListenerState) {
    if s.queue@.len() > 0 {
        (
            ListenStep::Deliver(s.queue@[0]),
            ListenerState { queue: s.queue, shutdown: s.shutdown },
        )
    } else if s.shutdown {
        (ListenStep::Interrupted, s)
    } else {
        (ListenStep::NeedRead, s)
    }
}

impl ListenerState {
    /// A fresh listener: nothing queued, not shut down.
    pub fn new() -> (r: Self)
        ensures
            r.queue@ == Seq::<RouteChange>::empty(),
            !r.shutdown,
    {
        ListenerState { queue: Vec::new(), shutdown: false }
    }

    /// Appends one batch of decoded events, in arrival order; the shutdown
    /// flag is untouched.
    pub fn enqueue_batch(&mut self, events: Vec<RouteChange>)
        ensures
            final(self).queue@ == old(self).queue@ + events@,
            final(self).shutdown == old(self).shutdown,
    {
        let mut events2 = events;
        self.queue.append(&mut events2);
    }

    /// Requests shutdown. Idempotent; queued events stay queued.
    pub fn request_shutdown(&mut self)
        ensures
            final(self).shutdown,
            final(self).queue@ == old(self).queue@,
    {
        self.shutdown = true;
    }

    /// Whether shutdown was requested.
    pub fn is_shutdown(&self) -> (r: bool)
        ensures
            r == self.shutdown,
    {
        self.shutdown
    }

    /// Takes the next delivery decision: pops and hands out the queue's
    /// front when one is waiting, else answers interrupted once shut down,
    /// else asks for one more read. The shutdown flag is untouched.
    pub fn poll(&mut self) -> (r: ListenStep)
        ensures
            ({
                let step = spec_poll(*old(self)).0;
                match (r, step) {
                    (ListenStep::Deliver(a), ListenStep::Deliver(b)) => a == b && final(self).queue@
                        == old(self).queue@.drop_first(),
                    (ListenStep::Interrupted, ListenStep::Interrupted) => final(self).queue@ == old(
                        self,
                    ).queue@,
                    (ListenStep::NeedRead, ListenStep::NeedRead) => final(self).queue@ == old(
                        self,
                    ).queue@,
                    _ => false,
                }
            }),
            final(self).shutdown == old(self).shutdown,
    {
        if self.queue.len() > 0 {
            let ev = self.queue.remove(0);
            return ListenStep::Deliver(ev);
        }
        if self.shutdown {
            return ListenStep::Interrupted;
        }
        ListenStep::NeedRead
    }
}

/// Shutdown mid-listen, as the state machine sees it: once shutdown was
/// requested and the queue is drained, the delivery decision is interrupted,
/// the state does not change, and so every subsequent decision is interrupted
/// as well. (Unblocking the wait that a listen call may be parked in is the
/// I/O shell's wakeup channel; the decision it then reads is this one.)
pub proof fn lemma_shutdown_is_terminal(s: ListenerState)
    requires
        s.shutdown,
        s.queue@.len() == 0,
    ensures
        spec_poll(s).0 is Interrupted,
        spec_poll(s).1 == s,
        spec_poll(spec_poll(s).1).0 is Interrupted,
{
}

/// No operation clears the shutdown flag: feeding more events or polling
/// leaves a shut-down listener shut down, so after the queued events are
/// drained every poll is interrupted.
pub proof fn lemma_shutdown_survives_poll(s: ListenerState)
    requires
        s.shutdown,
    ensures
        spec_poll(s).1.shutdown,
{
}

} // verus!
