use std::collections::BTreeMap;
use vstd::prelude::*;

verus! {

/// Identifier of a worker process attached to this primary.
pub type WorkerId = u32;

/// Milliseconds since the Unix epoch.
pub type TimestampMs = u64;

/// Length in bytes of a batch digest.
pub const DIGEST_LENGTH: usize = 32;

/// Content hash identifying a batch.
#[derive(Clone, Copy, PartialEq, Eq, Hash, Debug)]
pub struct BatchDigest(pub [u8; 32]);

impl BatchDigest {
    pub open spec fn view(&self) -> Seq<u8> {
        self.0@
    }

    /// Byte-wise equality of two digests.
    pub fn same_as(&self, other: &BatchDigest) -> (r: bool)
        ensures
            r == (self@ == other@),
    {
        let mut i: usize = 0;
        while i < DIGEST_LENGTH
            invariant
                0 <= i <= DIGEST_LENGTH,
                self@.len() == DIGEST_LENGTH,
                other@.len() == DIGEST_LENGTH,
                forall|j: int| 0 <= j < i ==> self@[j] == other@[j],
            decreases DIGEST_LENGTH - i,
        {
            if self.0[i] != other.0[i] {
                return false;
            }
            i = i + 1;
        }
        assert(self@ =~= other@);
        true
    }
}

/// Information needed to reach one worker.
#[derive(Clone, Debug, PartialEq, Eq)]
pub struct WorkerInfo {
    /// Network public key of the worker, as bytes.
    pub name: Vec<u8>,
    /// Address on which the worker takes transactions.
    pub transactions: String,
    /// Address on which the worker talks to other workers.
    pub worker_address: String,
}

/// Metadata attached to a batch by the worker that made it.
#[derive(Clone, Copy, Debug, PartialEq, Eq)]
pub struct BatchMetadata {
    pub created_at: TimestampMs,
}

/// A worker reports a batch that it made itself.
#[derive(Clone, Copy, Debug, PartialEq, Eq)]
pub struct WorkerOurBatchMessage {
    pub digest: BatchDigest,
    pub worker_id: WorkerId,
    pub metadata: BatchMetadata,
}

/// A worker reports a batch that it received from a peer worker.
#[derive(Clone, Copy, Debug, PartialEq, Eq)]
pub struct WorkerOthersBatchMessage {
    pub digest: BatchDigest,
    pub worker_id: WorkerId,
}

/// The workers of this primary, by id.
#[derive(Clone, Debug, PartialEq, Eq)]
pub struct WorkerInfoResponse {
    pub workers: BTreeMap<WorkerId, WorkerInfo>,
}

/// Failure of an operation of the service.
#[derive(Clone, Debug, PartialEq, Eq)]
pub enum ServiceError {
    /// The service is not wired to the pipeline yet.
    NotReady,
    /// A downstream part failed; the text gives the cause.
    Internal(String),
}

} // verus!
