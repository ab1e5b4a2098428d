use crate::own_batch::{DigestArrival, OwnBatchPhase};
use crate::store::{key_view, DigestStore, StoreKey};
use crate::types::{
    ServiceError, WorkerId, WorkerInfo, WorkerInfoResponse, WorkerOthersBatchMessage,
    WorkerOurBatchMessage,
};
use std::collections::BTreeMap;
use vstd::prelude::*;

verus! {

/// The arrival that a report of our own batch puts on the handoff channel.
pub open spec fn arrival_of(m: WorkerOurBatchMessage) -> DigestArrival {
    DigestArrival { digest: m.digest, worker_id: m.worker_id, timestamp: m.metadata.created_at }
}

/// The store key that a report of a peer's batch records.
pub open spec fn others_key(m: WorkerOthersBatchMessage) -> StoreKey {
    (m.digest, m.worker_id)
}

/// The three operations that workers call on their primary. Each provided
/// method answers that the service is not ready and asks for no work.
pub trait TraitWorkerReceiverController {
    /// Begins a report-own-batch call: the phase that the driver of the call
    /// starts from.
    fn report_our_batch(&self, message: &WorkerOurBatchMessage) -> (r: OwnBatchPhase)
        ensures
            r == OwnBatchPhase::Finished(Err(ServiceError::NotReady)) || r == OwnBatchPhase::Enqueueing(
                arrival_of(*message),
            ),
        default_ensures
            r == OwnBatchPhase::Finished(Err(ServiceError::NotReady)),
    {
        OwnBatchPhase::Finished(Err(ServiceError::NotReady))
    }

    /// Begins a report-others-batch call: the key to record in the digest store.
    fn report_others_batch(&self, message: &WorkerOthersBatchMessage) -> (r: Result<StoreKey, ServiceError>)
        ensures
            r == Err::<StoreKey, ServiceError>(ServiceError::NotReady) || r == Ok::<StoreKey, ServiceError>(
                others_key(*message),
            ),
        default_ensures
            r == Err::<StoreKey, ServiceError>(ServiceError::NotReady),
    {
        Err(ServiceError::NotReady)
    }

    /// The workers of this primary.
    fn worker_info(&self) -> (r: Result<WorkerInfoResponse, ServiceError>)
        ensures
            r is Ok || r == Err::<WorkerInfoResponse, ServiceError>(ServiceError::NotReady),
        default_ensures
            r == Err::<WorkerInfoResponse, ServiceError>(ServiceError::NotReady),
    {
        Err(ServiceError::NotReady)
    }
}

/// The service before the pipeline is wired up: every operation fails with
/// `NotReady`.
pub struct UnimplementedWorkerReceiverController {}

impl TraitWorkerReceiverController for UnimplementedWorkerReceiverController {

}

/// The service once the pipeline is wired up.
#[derive(Clone)]
pub struct WorkerReceiverController {
    /// The workers of this primary; never changed after construction.
    pub our_workers: BTreeMap<WorkerId, WorkerInfo>,
}

impl WorkerReceiverController {
    pub fn new(our_workers: BTreeMap<WorkerId, WorkerInfo>) -> (r: WorkerReceiverController)
        ensures
            r.our_workers@ == our_workers@,
    {
        WorkerReceiverController { our_workers }
    }

    /// Performs a report-others-batch call against an in-memory digest store.
    pub fn record_others_batch(&self, store: &mut DigestStore, message: &WorkerOthersBatchMessage) -> (r:
        Result<(), ServiceError>)
        ensures
            r == Ok::<(), ServiceError>(()),
            final(store)@ == old(store)@.insert(key_view(others_key(*message))),
    {
        match self.report_others_batch(message) {
            Ok(key) => {
                store.write(key);
                Ok(())
            },
            Err(e) => Err(e),
        }
    }
}

impl TraitWorkerReceiverController for WorkerReceiverController {
    fn report_our_batch(&self, message: &WorkerOurBatchMessage) -> (r: OwnBatchPhase)
        ensures
            r == OwnBatchPhase::Enqueueing(arrival_of(*message)),
    {
        OwnBatchPhase::start(message.digest, message.worker_id, message.metadata.created_at)
    }

    fn report_others_batch(&self, message: &WorkerOthersBatchMessage) -> (r: Result<StoreKey, ServiceError>)
        ensures
            r == Ok::<StoreKey, ServiceError>(others_key(*message)),
    {
        Ok((message.digest, message.worker_id))
    }

    fn worker_info(&self) -> (r: Result<WorkerInfoResponse, ServiceError>)
        ensures
            r matches Ok(resp) && resp.workers@ == self.our_workers@,
    {
        Ok(WorkerInfoResponse { workers: self.our_workers.clone() })
    }
}

/// The reply of a report-others-batch call once the store write is over:
/// success, or `Internal` with the store's cause.
pub fn finish_others_batch(outcome: Result<(), String>) -> (r: Result<(), ServiceError>)
    ensures
        match outcome {
            Ok(_) => r == Ok::<(), ServiceError>(()),
            Err(cause) => r == Err::<(), ServiceError>(ServiceError::Internal(cause)),
        },
{
    match outcome {
        Ok(()) => Ok(()),
        Err(cause) => Err(ServiceError::Internal(cause)),
    }
}

} // verus!
