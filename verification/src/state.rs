use vstd::prelude::*;

verus! {

/// The lifecycle of a store actor: created, accepting requests, or shut
/// down. There is no restart transition — a shut-down actor is terminal for
/// the process.
#[derive(Copy, Clone, Debug, PartialEq, Eq, Structural)]
pub enum ActorPhase {
    /// The mailbox exists but no worker is consuming it yet.
    Uninitialized,
    /// The worker is running and requests are accepted.
    Running,
    /// The channel is closed; no further requests are accepted.
    ShutDown,
}

/// What happens to a submitted request.
#[derive(Copy, Clone, Debug, PartialEq, Eq, Structural)]
pub enum SubmitOutcome {
    /// The request was queued for the worker.
    Enqueued,
    /// The queue is at capacity: the caller must wait for space. This is
    /// backpressure, an intentional throttle, not an error.
    MustWait,
    /// The actor is not accepting requests: submitting against an actor
    /// that never started or has shut down is a lifecycle error, reported
    /// loudly to the caller.
    Rejected,
}

/// The mailbox state machine that serializes all access to one store: a
/// bounded FIFO queue of pending requests plus the actor's lifecycle phase.
///
/// Exactly one logical operation is in flight against a store at any time:
/// the single worker takes requests off this queue one by one, in
/// submission order, however many threads submit them.
pub struct StateMailbox<T> {
    phase: ActorPhase,
    capacity: usize,
    pending: Vec<T>,
}

impl<T> StateMailbox<T> {
    /// The actor's lifecycle phase.
    pub closed spec fn spec_phase(self) -> ActorPhase {
        self.phase
    }

    /// The bound on the queue, fixed at creation.
    pub closed spec fn spec_capacity(self) -> int {
        self.capacity as int
    }

    /// The queued requests, oldest first.
    pub closed spec fn spec_pending(self) -> Seq<T> {
        self.pending@
    }

    /// The queue never exceeds its bound.
    pub open spec fn wf(self) -> bool {
        self.spec_pending().len() <= self.spec_capacity()
    }

    /// Create a mailbox with the given queue bound. No requests are
    /// accepted until a worker starts consuming it.
    pub fn new(capacity: usize) -> (r: StateMailbox<T>)
        ensures
            r.spec_phase() == ActorPhase::Uninitialized,
            r.spec_capacity() == capacity as int,
            r.spec_pending() == Seq::<T>::empty(),
            r.wf(),
    {
        StateMailbox { phase: ActorPhase::Uninitialized, capacity, pending: Vec::new() }
    }

    /// Mark the worker as running. Only a freshly created mailbox can
    /// start: the actor is initialized exactly once.
    pub fn start(&mut self)
        requires
            old(self).spec_phase() == ActorPhase::Uninitialized,
        ensures
            final(self).spec_phase() == ActorPhase::Running,
            final(self).spec_capacity() == old(self).spec_capacity(),
            final(self).spec_pending() == old(self).spec_pending(),
    {
        self.phase = ActorPhase::Running;
    }

    /// Submit a request. While the actor runs and the queue has space the
    /// request is appended; a full queue tells the caller to wait
    /// (backpressure); an actor that is not running rejects loudly.
    pub fn submit(&mut self, request: T) -> (r: SubmitOutcome)
        ensures
            (old(self).spec_phase() == ActorPhase::Running && old(self).spec_pending().len() < old(
                self,
            ).spec_capacity()) ==> (r == SubmitOutcome::Enqueued && final(self).spec_pending()
                == old(self).spec_pending().push(request)),
            (old(self).spec_phase() == ActorPhase::Running && old(self).spec_pending().len() >= old(
                self,
            ).spec_capacity()) ==> (r == SubmitOutcome::MustWait && final(self).spec_pending()
                == old(self).spec_pending()),
            old(self).spec_phase() != ActorPhase::Running ==> (r == SubmitOutcome::Rejected
                && final(self).spec_pending() == old(self).spec_pending()),
            final(self).spec_phase() == old(self).spec_phase(),
            final(self).spec_capacity() == old(self).spec_capacity(),
            old(self).wf() ==> final(self).wf(),
    {
        if !matches!(self.phase, ActorPhase::Running) {
            return SubmitOutcome::Rejected;
        }
        if self.pending.len() < self.capacity {
            self.pending.push(request);
            SubmitOutcome::Enqueued
        } else {
            SubmitOutcome::MustWait
        }
    }

    /// Take the oldest pending request for the worker, if any: requests are
    /// executed strictly in submission order.
    pub fn take_next(&mut self) -> (r: Option<T>)
        ensures
            old(self).spec_pending().len() > 0 ==> (r matches Some(request) && request == old(
                self,
            ).spec_pending()[0] && final(self).spec_pending() == old(self).spec_pending().drop_first()),
            old(self).spec_pending().len() == 0 ==> (r is None && final(self).spec_pending() == old(
                self,
            ).spec_pending()),
            final(self).spec_phase() == old(self).spec_phase(),
            final(self).spec_capacity() == old(self).spec_capacity(),
            old(self).wf() ==> final(self).wf(),
    {
        if self.pending.len() > 0 {
            let request = self.pending.remove(0);
            proof {
                assert(self.pending@ =~= old(self).spec_pending().drop_first());
            }
            Some(request)
        } else {
            None
        }
    }

    /// Close the mailbox: the actor stops accepting requests, terminally.
    pub fn shutdown(&mut self)
        ensures
            final(self).spec_phase() == ActorPhase::ShutDown,
            final(self).spec_capacity() == old(self).spec_capacity(),
            final(self).spec_pending() == old(self).spec_pending(),
    {
        self.phase = ActorPhase::ShutDown;
    }
}

} // verus!
