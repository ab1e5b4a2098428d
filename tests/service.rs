use std::collections::BTreeMap;
use std::sync::mpsc::{sync_channel, Receiver, SyncSender, TrySendError};
use worker_receiver::controller::{
    finish_others_batch, TraitWorkerReceiverController, UnimplementedWorkerReceiverController,
    WorkerReceiverController,
};
use worker_receiver::own_batch::{DigestArrival, OwnBatchAction, OwnBatchEvent, OwnBatchPhase};
use worker_receiver::store::DigestStore;
use worker_receiver::types::{
    BatchDigest, BatchMetadata, ServiceError, WorkerInfo, WorkerOthersBatchMessage,
    WorkerOurBatchMessage,
};

type Handoff = (DigestArrival, SyncSender<()>);

fn digest(b: u8) -> BatchDigest {
    BatchDigest([b; 32])
}

fn our(b: u8, worker_id: u32, created_at: u64) -> WorkerOurBatchMessage {
    WorkerOurBatchMessage {
        digest: digest(b),
        worker_id,
        metadata: BatchMetadata { created_at },
    }
}

fn others(b: u8, worker_id: u32) -> WorkerOthersBatchMessage {
    WorkerOthersBatchMessage { digest: digest(b), worker_id }
}

fn topology() -> BTreeMap<u32, WorkerInfo> {
    let mut m = BTreeMap::new();
    m.insert(
        0,
        WorkerInfo {
            name: vec![1, 2, 3],
            transactions: "/ip4/127.0.0.1/udp/5000".to_string(),
            worker_address: "/ip4/127.0.0.1/udp/5001".to_string(),
        },
    );
    m.insert(
        1,
        WorkerInfo {
            name: vec![4, 5, 6],
            transactions: "/ip4/127.0.0.1/udp/6000".to_string(),
            worker_address: "/ip4/127.0.0.1/udp/6001".to_string(),
        },
    );
    m
}

/// Drives one report-own-batch call over std channels. `pipeline` runs while
/// the call waits for its acknowledgment.
fn drive<C: TraitWorkerReceiverController>(
    c: &C,
    m: &WorkerOurBatchMessage,
    tx: &SyncSender<Handoff>,
    mut pipeline: impl FnMut(),
) -> (Result<(), ServiceError>, usize) {
    let mut phase = c.report_our_batch(m);
    let mut ack: Option<Receiver<()>> = None;
    let mut sent: usize = 0;
    loop {
        let event = match phase.action() {
            OwnBatchAction::Enqueue(a) | OwnBatchAction::WaitForCapacity(a) => {
                let (ack_tx, ack_rx) = sync_channel(1);
                match tx.try_send((a, ack_tx)) {
                    Ok(()) => {
                        ack = Some(ack_rx);
                        sent += 1;
                        OwnBatchEvent::Enqueued
                    }
                    Err(TrySendError::Full(_)) => OwnBatchEvent::ChannelFull,
                    Err(TrySendError::Disconnected(_)) => {
                        OwnBatchEvent::ChannelClosed("channel closed".to_string())
                    }
                }
            }
            OwnBatchAction::AwaitAck => {
                pipeline();
                match ack.as_ref().unwrap().recv() {
                    Ok(()) => OwnBatchEvent::Acknowledged,
                    Err(e) => OwnBatchEvent::AckDropped(e.to_string()),
                }
            }
            OwnBatchAction::Reply => return (phase.into_reply().unwrap(), sent),
        };
        phase.on_event(event);
    }
}

#[test]
fn disabled_variant_is_not_ready_everywhere() {
    let c = UnimplementedWorkerReceiverController {};
    let phase = c.report_our_batch(&our(1, 1, 10));
    assert_eq!(phase.action(), OwnBatchAction::Reply);
    assert_eq!(phase.into_reply(), Some(Err(ServiceError::NotReady)));
    assert_eq!(c.report_others_batch(&others(1, 1)), Err(ServiceError::NotReady));
    assert_eq!(c.worker_info(), Err(ServiceError::NotReady));
}

#[test]
fn disabled_variant_sends_nothing() {
    let c = UnimplementedWorkerReceiverController {};
    let (tx, rx) = sync_channel::<Handoff>(1);
    let (r, sent) = drive(&c, &our(1, 1, 10), &tx, || {});
    assert_eq!(r, Err(ServiceError::NotReady));
    assert_eq!(sent, 0);
    assert!(rx.try_recv().is_err());
}

#[test]
fn own_batch_starts_with_the_arrival() {
    let c = WorkerReceiverController::new(topology());
    let phase = c.report_our_batch(&our(7, 3, 1234));
    let a = DigestArrival { digest: digest(7), worker_id: 3, timestamp: 1234 };
    assert_eq!(phase, OwnBatchPhase::Enqueueing(a));
    assert_eq!(phase.action(), OwnBatchAction::Enqueue(a));
    assert!(!phase.is_finished());
}

#[test]
fn own_batch_succeeds_only_after_ack() {
    let mut phase = OwnBatchPhase::start(digest(1), 1, 5);
    phase.on_event(OwnBatchEvent::Enqueued);
    assert_eq!(phase, OwnBatchPhase::AwaitingAck);
    assert_eq!(phase.action(), OwnBatchAction::AwaitAck);
    phase.on_event(OwnBatchEvent::Enqueued);
    assert_eq!(phase, OwnBatchPhase::AwaitingAck);
    phase.on_event(OwnBatchEvent::Acknowledged);
    assert_eq!(phase.into_reply(), Some(Ok(())));
}

#[test]
fn own_batch_ack_dropped_is_internal() {
    let c = WorkerReceiverController::new(topology());
    let (tx, rx) = sync_channel::<Handoff>(1);
    let (r, sent) = drive(&c, &our(2, 1, 10), &tx, || {
        let (_arrival, ack) = rx.try_recv().unwrap();
        drop(ack);
    });
    assert!(matches!(r, Err(ServiceError::Internal(_))));
    assert_eq!(sent, 1);
}

#[test]
fn own_batch_ack_dropped_keeps_cause() {
    let mut phase = OwnBatchPhase::AwaitingAck;
    phase.on_event(OwnBatchEvent::AckDropped("sender dropped".to_string()));
    assert_eq!(
        phase.into_reply(),
        Some(Err(ServiceError::Internal("sender dropped".to_string())))
    );
}

#[test]
fn own_batch_full_channel_waits() {
    let c = WorkerReceiverController::new(topology());
    let mut phase = c.report_our_batch(&our(3, 2, 9));
    let a = DigestArrival { digest: digest(3), worker_id: 2, timestamp: 9 };
    phase.on_event(OwnBatchEvent::ChannelFull);
    assert_eq!(phase, OwnBatchPhase::Blocked(a));
    assert_eq!(phase.action(), OwnBatchAction::WaitForCapacity(a));
    phase.on_event(OwnBatchEvent::ChannelFull);
    phase.on_event(OwnBatchEvent::Acknowledged);
    assert!(!phase.is_finished());
    phase.on_event(OwnBatchEvent::Enqueued);
    assert_eq!(phase, OwnBatchPhase::AwaitingAck);
}

#[test]
fn own_batch_closed_channel_is_internal() {
    let mut phase = OwnBatchPhase::start(digest(3), 2, 9);
    phase.on_event(OwnBatchEvent::ChannelFull);
    phase.on_event(OwnBatchEvent::ChannelClosed("channel closed".to_string()));
    assert_eq!(
        phase.into_reply(),
        Some(Err(ServiceError::Internal("channel closed".to_string())))
    );
}

#[test]
fn own_batch_closed_channel_through_driver() {
    let c = WorkerReceiverController::new(topology());
    let (tx, rx) = sync_channel::<Handoff>(1);
    drop(rx);
    let (r, sent) = drive(&c, &our(4, 1, 1), &tx, || {});
    assert_eq!(r, Err(ServiceError::Internal("channel closed".to_string())));
    assert_eq!(sent, 0);
}

#[test]
fn finished_call_ignores_events() {
    let mut phase = OwnBatchPhase::Finished(Ok(()));
    phase.on_event(OwnBatchEvent::AckDropped("late".to_string()));
    phase.on_event(OwnBatchEvent::Enqueued);
    assert_eq!(phase.into_reply(), Some(Ok(())));
}

#[test]
fn others_batch_is_idempotent() {
    let c = WorkerReceiverController::new(topology());
    let mut store = DigestStore::new();
    let key = (digest(5), 2);
    assert!(!store.contains(&key));
    assert_eq!(c.record_others_batch(&mut store, &others(5, 2)), Ok(()));
    assert!(store.contains(&key));
    assert_eq!(c.record_others_batch(&mut store, &others(5, 2)), Ok(()));
    assert!(store.contains(&key));
    assert!(!store.contains(&(digest(5), 3)));
    assert!(!store.contains(&(digest(6), 2)));
}

#[test]
fn others_batch_key_is_the_pair() {
    let c = WorkerReceiverController::new(topology());
    assert_eq!(c.report_others_batch(&others(9, 4)), Ok((digest(9), 4)));
}

#[test]
fn others_batch_store_failure_is_internal() {
    assert_eq!(finish_others_batch(Ok(())), Ok(()));
    assert_eq!(
        finish_others_batch(Err("disk full".to_string())),
        Err(ServiceError::Internal("disk full".to_string()))
    );
}

#[test]
fn topology_is_the_construction_table() {
    let c = WorkerReceiverController::new(topology());
    let first = c.worker_info().unwrap();
    let mut store = DigestStore::new();
    let _ = c.report_our_batch(&our(1, 0, 1));
    c.record_others_batch(&mut store, &others(1, 0)).unwrap();
    let second = c.worker_info().unwrap();
    assert_eq!(first, second);
    assert_eq!(first.workers, topology());
}

#[test]
fn end_to_end_with_empty_store_and_capacity_one() {
    let c = WorkerReceiverController::new(topology());
    let mut store = DigestStore::new();
    let (tx, rx) = sync_channel::<Handoff>(1);
    let m = our(0xd1, 1, 100);
    let mut seen: Vec<DigestArrival> = Vec::new();
    let (r, sent) = drive(&c, &m, &tx, || {
        let (arrival, ack) = rx.try_recv().unwrap();
        seen.push(arrival);
        ack.send(()).unwrap();
    });
    assert_eq!(r, Ok(()));
    assert_eq!(sent, 1);
    assert_eq!(seen, vec![DigestArrival { digest: digest(0xd1), worker_id: 1, timestamp: 100 }]);
    assert_eq!(c.record_others_batch(&mut store, &others(0xd1, 1)), Ok(()));
    assert!(store.contains(&(digest(0xd1), 1)));
}

#[test]
fn digest_comparison_is_bytewise() {
    let a = digest(1);
    let mut b = [1u8; 32];
    assert!(a.same_as(&BatchDigest(b)));
    b[31] = 2;
    assert!(!a.same_as(&BatchDigest(b)));
}
