use crate::controller::others_key;
use crate::own_batch::{
    enqueue_count, is_enqueue_pending, next_phase, run_phases, OwnBatchEvent, OwnBatchPhase,
};
use crate::store::key_view;
use crate::types::{ServiceError, WorkerId, WorkerOthersBatchMessage};
use vstd::prelude::*;

verus! {

/// A report-own-batch call puts its arrival on the handoff channel at most
/// once, whatever the driver observes; a call that has done so, or is over,
/// never does it again.
pub proof fn lemma_enqueued_at_most_once(p: OwnBatchPhase, events: Seq<OwnBatchEvent>)
    ensures
        enqueue_count(p, events) <= (if is_enqueue_pending(p) { 1nat } else { 0nat }),
    decreases events.len(),
{
    if events.len() > 0 {
        lemma_enqueued_at_most_once(next_phase(p, events[0]), events.drop_first());
    }
}

/// A report-own-batch call succeeds only once the pipeline has acknowledged
/// its arrival, and after exactly one enqueue when it started before the
/// enqueue.
pub proof fn lemma_success_needs_ack(p: OwnBatchPhase, events: Seq<OwnBatchEvent>)
    requires
        is_enqueue_pending(p) || p is AwaitingAck,
        run_phases(p, events) == OwnBatchPhase::Finished(Ok(())),
    ensures
        exists|i: int| 0 <= i < events.len() && events[i] is Acknowledged,
        is_enqueue_pending(p) ==> enqueue_count(p, events) == 1,
    decreases events.len(),
{
    if events.len() == 0 {
        assert(false);
    } else {
        let q = next_phase(p, events[0]);
        let rest = events.drop_first();
        if q is Finished {
            assert(run_phases(q, rest) == q) by { lemma_finished_stays(q, rest); }
            assert(events[0] is Acknowledged);
            if is_enqueue_pending(p) {
                assert(false);
            }
        } else {
            lemma_success_needs_ack(q, rest);
            let i = choose|i: int| 0 <= i < rest.len() && rest[i] is Acknowledged;
            assert(events[i + 1] is Acknowledged);
            if is_enqueue_pending(p) && !(events[0] is Enqueued) {
                assert(is_enqueue_pending(q));
            }
            if is_enqueue_pending(p) && events[0] is Enqueued {
                lemma_enqueued_at_most_once(q, rest);
            }
        }
    }
}

/// While the call waits for the acknowledgment, only the acknowledgment ends
/// it in success, and a dropped acknowledgment channel ends it with
/// `Internal` carrying the cause.
pub proof fn lemma_ack_gating(e: OwnBatchEvent)
    ensures
        next_phase(OwnBatchPhase::AwaitingAck, e) == OwnBatchPhase::Finished(Ok(())) <==> e is Acknowledged,
        e matches OwnBatchEvent::AckDropped(cause) ==> next_phase(OwnBatchPhase::AwaitingAck, e)
            == OwnBatchPhase::Finished(Err(ServiceError::Internal(cause))),
{
}

/// A finished call stays finished with the same reply.
pub proof fn lemma_finished_stays(p: OwnBatchPhase, events: Seq<OwnBatchEvent>)
    requires
        p is Finished,
    ensures
        run_phases(p, events) == p,
        enqueue_count(p, events) == 0,
    decreases events.len(),
{
    if events.len() > 0 {
        lemma_finished_stays(p, events.drop_first());
    }
}

/// The disabled service answers a report-own-batch call with `NotReady` and
/// never has anything put on the handoff channel, whatever the driver observes.
pub proof fn lemma_disabled_asks_nothing(events: Seq<OwnBatchEvent>)
    ensures
        run_phases(OwnBatchPhase::Finished(Err(ServiceError::NotReady)), events)
            == OwnBatchPhase::Finished(Err(ServiceError::NotReady)),
        enqueue_count(OwnBatchPhase::Finished(Err(ServiceError::NotReady)), events) == 0,
{
    lemma_finished_stays(OwnBatchPhase::Finished(Err(ServiceError::NotReady)), events);
}

/// A call that has not put its arrival on the handoff channel ends only when
/// the channel closes, and then with `Internal` carrying the cause; a full
/// channel keeps it waiting.
pub proof fn lemma_backpressure(p: OwnBatchPhase, e: OwnBatchEvent)
    requires
        is_enqueue_pending(p),
    ensures
        next_phase(p, e) is Finished <==> e is ChannelClosed,
        e matches OwnBatchEvent::ChannelClosed(cause) ==> next_phase(p, e)
            == OwnBatchPhase::Finished(Err(ServiceError::Internal(cause))),
        e is ChannelFull ==> next_phase(p, e) is Blocked,
{
}

/// Through any events that neither enqueue nor report a closed channel, a call
/// that still has to enqueue keeps waiting to.
pub proof fn lemma_blocked_until_room_or_close(p: OwnBatchPhase, events: Seq<OwnBatchEvent>)
    requires
        is_enqueue_pending(p),
        forall|i: int| 0 <= i < events.len() ==> !(#[trigger] events[i] is Enqueued) && !(events[i] is ChannelClosed),
    ensures
        is_enqueue_pending(run_phases(p, events)),
        enqueue_count(p, events) == 0,
    decreases events.len(),
{
    if events.len() > 0 {
        let rest = events.drop_first();
        assert(!(events[0] is Enqueued) && !(events[0] is ChannelClosed));
        assert forall|i: int| 0 <= i < rest.len() implies !(#[trigger] rest[i] is Enqueued) && !(rest[i] is ChannelClosed) by {
            assert(rest[i] == events[i + 1]);
        }
        lemma_blocked_until_room_or_close(next_phase(p, events[0]), rest);
    }
}

/// Recording the same peer report twice leaves the digest store as recording
/// it once does.
pub proof fn lemma_others_batch_idempotent(s: Set<(Seq<u8>, WorkerId)>, m: WorkerOthersBatchMessage)
    ensures
        s.insert(key_view(others_key(m))).insert(key_view(others_key(m))) == s.insert(key_view(others_key(m))),
{
    assert(s.insert(key_view(others_key(m))).insert(key_view(others_key(m))) =~= s.insert(key_view(others_key(m))));
}

} // verus!
