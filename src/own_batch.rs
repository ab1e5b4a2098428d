use crate::types::{BatchDigest, ServiceError, TimestampMs, WorkerId};
use vstd::prelude::*;

verus! {

/// What is placed on the handoff channel for a batch of our own workers,
/// besides the acknowledgment channel that the driver pairs with it.
#[derive(Clone, Copy, Debug, PartialEq, Eq)]
pub struct DigestArrival {
    pub digest: BatchDigest,
    pub worker_id: WorkerId,
    pub timestamp: TimestampMs,
}

/// Progress of one report-own-batch call.
#[derive(Debug, PartialEq, Eq)]
pub enum OwnBatchPhase {
    /// The arrival is to be put on the handoff channel.
    Enqueueing(DigestArrival),
    /// The handoff channel was full: wait for room, then put the arrival on it.
    Blocked(DigestArrival),
    /// The arrival is on the channel; waiting for the pipeline to acknowledge it.
    AwaitingAck,
    /// The call is over with this reply.
    Finished(Result<(), ServiceError>),
}

/// What the driver of a call observed after performing the current action.
#[derive(Clone, Debug, PartialEq, Eq)]
pub enum OwnBatchEvent {
    /// The arrival was put on the handoff channel.
    Enqueued,
    /// The handoff channel had no room; nothing was put on it.
    ChannelFull,
    /// The handoff channel is closed; nothing was put on it.
    ChannelClosed(String),
    /// The pipeline acknowledged the arrival.
    Acknowledged,
    /// The acknowledgment channel was dropped without a value.
    AckDropped(String),
}

/// What the driver of a call is to do next.
#[derive(Clone, Copy, Debug, PartialEq, Eq)]
pub enum OwnBatchAction {
    /// Try to put the arrival on the handoff channel without waiting.
    Enqueue(DigestArrival),
    /// Wait until the handoff channel has room (or closes), then put the arrival on it.
    WaitForCapacity(DigestArrival),
    /// Wait on the acknowledgment channel.
    AwaitAck,
    /// Answer the caller with the reply that the finished phase holds.
    Reply,
}

/// Whether a phase still has to put its arrival on the handoff channel.
pub open spec fn is_enqueue_pending(p: OwnBatchPhase) -> bool {
    p is Enqueueing || p is Blocked
}

/// The phase that follows `p` once `e` is observed.
pub open spec fn next_phase(p: OwnBatchPhase, e: OwnBatchEvent) -> OwnBatchPhase {
    match p {
        OwnBatchPhase::Enqueueing(a) | OwnBatchPhase::Blocked(a) => match e {
            OwnBatchEvent::Enqueued => OwnBatchPhase::AwaitingAck,
            OwnBatchEvent::ChannelFull => OwnBatchPhase::Blocked(a),
            OwnBatchEvent::ChannelClosed(cause) => OwnBatchPhase::Finished(
                Err(ServiceError::Internal(cause)),
            ),
            _ => p,
        },
        OwnBatchPhase::AwaitingAck => match e {
            OwnBatchEvent::Acknowledged => OwnBatchPhase::Finished(Ok(())),
            OwnBatchEvent::AckDropped(cause) => OwnBatchPhase::Finished(
                Err(ServiceError::Internal(cause)),
            ),
            _ => p,
        },
        OwnBatchPhase::Finished(_) => p,
    }
}

/// The action that a phase asks for.
pub open spec fn phase_action(p: OwnBatchPhase) -> OwnBatchAction {
    match p {
        OwnBatchPhase::Enqueueing(a) => OwnBatchAction::Enqueue(a),
        OwnBatchPhase::Blocked(a) => OwnBatchAction::WaitForCapacity(a),
        OwnBatchPhase::AwaitingAck => OwnBatchAction::AwaitAck,
        OwnBatchPhase::Finished(_) => OwnBatchAction::Reply,
    }
}

/// The phase reached from `p` through the events `events`, in order.
pub open spec fn run_phases(p: OwnBatchPhase, events: Seq<OwnBatchEvent>) -> OwnBatchPhase
    decreases events.len(),
{
    if events.len() == 0 {
        p
    } else {
        run_phases(next_phase(p, events[0]), events.drop_first())
    }
}

/// How many of `events`, observed from `p` on, put an arrival on the handoff channel.
pub open spec fn enqueue_count(p: OwnBatchPhase, events: Seq<OwnBatchEvent>) -> nat
    decreases events.len(),
{
    if events.len() == 0 {
        0
    } else {
        (if is_enqueue_pending(p) && events[0] is Enqueued {
            1nat
        } else {
            0nat
        }) + enqueue_count(next_phase(p, events[0]), events.drop_first())
    }
}

impl OwnBatchPhase {
    /// The first phase of a call: the arrival is to be put on the channel.
    pub fn start(digest: BatchDigest, worker_id: WorkerId, timestamp: TimestampMs) -> (r: OwnBatchPhase)
        ensures
            r == OwnBatchPhase::Enqueueing(DigestArrival { digest, worker_id, timestamp }),
    {
        OwnBatchPhase::Enqueueing(DigestArrival { digest, worker_id, timestamp })
    }

    /// Whether the call is over.
    pub fn is_finished(&self) -> (r: bool)
        ensures
            r == (*self is Finished),
    {
        match self {
            OwnBatchPhase::Finished(_) => true,
            _ => false,
        }
    }

    /// The action that this phase asks of the driver.
    pub fn action(&self) -> (r: OwnBatchAction)
        ensures
            r == phase_action(*self),
    {
        match self {
            OwnBatchPhase::Enqueueing(a) => OwnBatchAction::Enqueue(*a),
            OwnBatchPhase::Blocked(a) => OwnBatchAction::WaitForCapacity(*a),
            OwnBatchPhase::AwaitingAck => OwnBatchAction::AwaitAck,
            OwnBatchPhase::Finished(_) => OwnBatchAction::Reply,
        }
    }

    /// The reply of a finished call, or `None` while it goes on.
    pub fn into_reply(self) -> (r: Option<Result<(), ServiceError>>)
        ensures
            match self {
                OwnBatchPhase::Finished(x) => r == Some(x),
                _ => r is None,
            },
    {
        match self {
            OwnBatchPhase::Finished(x) => Some(x),
            _ => None,
        }
    }

    /// Moves to the next phase on the event `e`. An event that does not fit the
    /// phase leaves it as it is; a finished call stays finished.
    pub fn on_event(&mut self, e: OwnBatchEvent)
        ensures
            *final(self) == next_phase(*old(self), e),
    {
        let next = match (&*self, e) {
            (OwnBatchPhase::Enqueueing(_), OwnBatchEvent::Enqueued)
            | (OwnBatchPhase::Blocked(_), OwnBatchEvent::Enqueued) => OwnBatchPhase::AwaitingAck,
            (OwnBatchPhase::Enqueueing(a), OwnBatchEvent::ChannelFull)
            | (OwnBatchPhase::Blocked(a), OwnBatchEvent::ChannelFull) => OwnBatchPhase::Blocked(*a),
            (OwnBatchPhase::Enqueueing(_), OwnBatchEvent::ChannelClosed(cause))
            | (OwnBatchPhase::Blocked(_), OwnBatchEvent::ChannelClosed(cause)) => OwnBatchPhase::Finished(
                Err(ServiceError::Internal(cause)),
            ),
            (OwnBatchPhase::AwaitingAck, OwnBatchEvent::Acknowledged) => OwnBatchPhase::Finished(Ok(())),
            (OwnBatchPhase::AwaitingAck, OwnBatchEvent::AckDropped(cause)) => OwnBatchPhase::Finished(
                Err(ServiceError::Internal(cause)),
            ),
            _ => return,
        };
        *self = next;
    }
}

} // verus!
