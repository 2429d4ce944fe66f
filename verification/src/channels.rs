//! Per-cpu channel topology.
//!
//! Each cpu owns three queues: requests (blob ids) in, fragments in, merged
//! results out. The producer-facing halves are collected column-wise in
//! [`BlobSendersReceivers`], indexed by cpu id; the engine-facing halves are
//! handed out one [`MergeEndpoints`] per cpu. The sets are created once at
//! startup and live for the process lifetime.

use vstd::prelude::*;

use tokio::sync::mpsc::{UnboundedReceiver, UnboundedSender};

use crate::types::{lw_blob, MergedBlob};

verus! {

#[verifier::external_type_specification]
#[verifier::external_body]
#[verifier::reject_recursive_types(T)]
pub struct ExUnboundedSender<T>(UnboundedSender<T>);

#[verifier::external_type_specification]
#[verifier::external_body]
#[verifier::reject_recursive_types(T)]
pub struct ExUnboundedReceiver<T>(UnboundedReceiver<T>);

/// Relies on tokio's sync::mpsc::unbounded_channel: a connected sender and
/// receiver pair of an unbounded queue.
#[verifier::external_body]
pub fn unbounded_pair<T>() -> (UnboundedSender<T>, UnboundedReceiver<T>) {
    tokio::sync::mpsc::unbounded_channel()
}

/// Relies on tokio's UnboundedSender::send: queues the value without ever
/// blocking, and fails exactly when the receive half is gone. Whether the
/// receiver is still open depends on the peer task, so nothing is promised
/// of the outcome.
#[verifier::external_body]
pub fn channel_send<T>(sender: &UnboundedSender<T>, value: T) -> bool {
    sender.send(value).is_ok()
}

/// Relies on num_cpus::get: the number of cpus of this machine, documented
/// to be at least 1.
#[verifier::external_body]
pub fn cpu_count() -> (n: usize)
    ensures
        n >= 1,
{
    num_cpus::get()
}

/// The producer-facing halves of every cpu's channel set, indexed by cpu id:
/// request senders and fragment senders for the dispatcher, result receivers
/// for the consumer (held in an `Option` so the consumer can take them out).
pub struct BlobSendersReceivers {
    pub blob_id_senders: Vec<UnboundedSender<u64>>,
    pub blob_senders: Vec<UnboundedSender<lw_blob>>,
    pub merged_blob_receivers: Option<Vec<UnboundedReceiver<MergedBlob>>>,
}

/// The engine-facing halves of one cpu's channel set.
pub struct MergeEndpoints {
    pub cpu_id: usize,
    pub blob_id_receiver: UnboundedReceiver<u64>,
    pub blob_receiver: UnboundedReceiver<lw_blob>,
    pub merged_blob_sender: UnboundedSender<MergedBlob>,
}

impl BlobSendersReceivers {
    /// Adds one cpu's three producer-facing endpoints, keeping the three
    /// columns aligned.
    fn append(
        &mut self,
        blob_id_sender: UnboundedSender<u64>,
        blob_sender: UnboundedSender<lw_blob>,
        merged_blob_receiver: UnboundedReceiver<MergedBlob>,
    )
        requires
            old(self).merged_blob_receivers is Some,
        ensures
            final(self).blob_id_senders@ == old(self).blob_id_senders@.push(blob_id_sender),
            final(self).blob_senders@ == old(self).blob_senders@.push(blob_sender),
            final(self).merged_blob_receivers matches Some(v) && v@ == old(
                self,
            ).merged_blob_receivers->Some_0@.push(merged_blob_receiver),
    {
        self.blob_id_senders.push(blob_id_sender);
        self.blob_senders.push(blob_sender);
        match &mut self.merged_blob_receivers {
            Some(receivers) => {
                receivers.push(merged_blob_receiver);
            },
            None => {
                vstd::pervasive::unreached::<()>();
            },
        }
    }
}

/// Builds the channel sets of `n` cpus: one request, fragment and result
/// channel per cpu. The producer-facing halves land in the returned
/// [`BlobSendersReceivers`], the engine-facing halves in one
/// [`MergeEndpoints`] per cpu, in cpu order.
pub fn make_blob_channels(n: usize) -> (r: (BlobSendersReceivers, Vec<MergeEndpoints>))
    ensures
        r.0.blob_id_senders@.len() == n,
        r.0.blob_senders@.len() == n,
        r.0.merged_blob_receivers matches Some(v) && v@.len() == n,
        r.1@.len() == n,
        forall|i: int| 0 <= i < n ==> (#[trigger] r.1@[i]).cpu_id == i,
{
    let mut srs = BlobSendersReceivers {
        blob_id_senders: Vec::new(),
        blob_senders: Vec::new(),
        merged_blob_receivers: Some(Vec::new()),
    };
    let mut endpoints: Vec<MergeEndpoints> = Vec::new();
    let mut cpu: usize = 0;
    while cpu < n
        invariant
            cpu <= n,
            srs.blob_id_senders@.len() == cpu,
            srs.blob_senders@.len() == cpu,
            srs.merged_blob_receivers matches Some(v) && v@.len() == cpu,
            endpoints@.len() == cpu,
            forall|i: int| 0 <= i < cpu ==> (#[trigger] endpoints@[i]).cpu_id == i,
        decreases n - cpu,
    {
        let (blob_id_sender, blob_id_receiver) = unbounded_pair();
        let (blob_sender, blob_receiver) = unbounded_pair();
        let (merged_blob_sender, merged_blob_receiver) = unbounded_pair();
        srs.append(blob_id_sender, blob_sender, merged_blob_receiver);
        endpoints.push(MergeEndpoints {
            cpu_id: cpu,
            blob_id_receiver,
            blob_receiver,
            merged_blob_sender,
        });
        cpu = cpu + 1;
    }
    (srs, endpoints)
}

/// Channel sets for every cpu of this machine, one per cpu id.
pub fn make_default_blob_channels() -> (r: (BlobSendersReceivers, Vec<MergeEndpoints>))
    ensures
        r.1@.len() >= 1,
        r.0.blob_id_senders@.len() == r.1@.len(),
        r.0.blob_senders@.len() == r.1@.len(),
        r.0.merged_blob_receivers matches Some(v) && v@.len() == r.1@.len(),
        forall|i: int| 0 <= i < r.1@.len() ==> (#[trigger] r.1@[i]).cpu_id == i,
{
    let n = cpu_count();
    make_blob_channels(n)
}

} // verus!
