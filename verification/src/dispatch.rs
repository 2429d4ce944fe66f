//! Signal dispatching: from raw ring-buffer records to per-cpu channels.
//!
//! The blob callback decodes a fragment record and routes it, by the cpu id
//! embedded in its blob id, to that cpu's fragment queue. The signal
//! callback decodes the envelope, and for task-exec signals collects the
//! blob ids the record references (overflowed filename, arguments,
//! environment), sorts them ascending — all ids of one record share the
//! origin cpu, so ascending order is production order — and forwards each
//! nonzero id to the owning cpu's request queue, strictly before the task
//! record itself is forwarded to the downstream consumer.
//!
//! Per-record failures (corrupted record, out-of-range cpu) drop the record
//! and never halt ingestion. A request queue whose receiver is gone loses
//! only its own ids: each such loss is counted against that cpu and the
//! rest of the record is still forwarded, so a single broken shard never
//! halts ingestion for the others. Only a closed downstream task channel is
//! reported to the caller.

use vstd::prelude::*;

use tokio::sync::mpsc::UnboundedSender;

use vstd::pervasive::VecAdditionalExecFns;

use crate::blob::{blob_id_to_seq, spec_cpu_of};
use crate::channels::channel_send;
use crate::types::{
    lw_blob, lw_filename, lw_signal_header, lw_signal_task, BLOB_DATA_SIZE, BLOB_SIZE,
    LW_SIGNAL_TASK, SIGNAL_HEADER_SIZE, TASK_RECORD_SIZE,
};
use crate::types_conv::{spec_u16_le, spec_u32_le, spec_u64_le};
use crate::BlobError;

verus! {

/// The blob ids a task-exec record references, in field order: the filename
/// chain when the filename overflowed, then the argument and environment
/// chains when present (0 means absent).
pub open spec fn spec_collected_ids(task: lw_signal_task) -> Seq<u64> {
    let base = match task.body.exec_info.filename {
        lw_filename::Blob(id) => seq![id],
        lw_filename::Inline(_) => Seq::<u64>::empty(),
    };
    let with_args = if task.body.exec_info.args != 0 {
        base + seq![task.body.exec_info.args]
    } else {
        base
    };
    if task.body.exec_info.env != 0 {
        with_args + seq![task.body.exec_info.env]
    } else {
        with_args
    }
}

/// Swapping two positions of a sequence keeps its multiset of elements.
proof fn lemma_swap_multiset(s: Seq<u64>, i: int, j: int)
    requires
        0 <= i < s.len(),
        0 <= j < s.len(),
        i != j,
    ensures
        s.update(i, s[j]).update(j, s[i]).to_multiset() == s.to_multiset(),
{
    broadcast use vstd::seq_lib::group_to_multiset_ensures;
    broadcast use vstd::multiset::group_multiset_axioms;

    let s1 = s.update(i, s[j]);
    let s2 = s1.update(j, s[i]);
    assert(s.contains(s[i]));
    assert(s.contains(s[j]));
    assert(s1.to_multiset() == s.to_multiset().insert(s[j]).remove(s[i]));
    assert(s1[j] == s[j]);
    assert(s2.to_multiset() == s1.to_multiset().insert(s[i]).remove(s1[j]));
    assert(s2.to_multiset() =~= s.to_multiset());
}

/// Swaps the values at positions `i` and `j`.
fn swap_ids(v: &mut Vec<u64>, i: usize, j: usize)
    requires
        i < old(v)@.len(),
        j < old(v)@.len(),
        i != j,
    ensures
        final(v)@ == old(v)@.update(i as int, old(v)@[j as int]).update(
            j as int,
            old(v)@[i as int],
        ),
        final(v)@.to_multiset() == old(v)@.to_multiset(),
        final(v)@.len() == old(v)@.len(),
{
    let a = v[i];
    let b = v[j];
    v.set(i, b);
    v.set(j, a);
    proof {
        lemma_swap_multiset(old(v)@, i as int, j as int);
    }
}

/// Sorts a vector of at most three ids ascending, keeping its elements.
fn sort_small(v: &mut Vec<u64>)
    requires
        old(v)@.len() <= 3,
    ensures
        final(v)@.to_multiset() == old(v)@.to_multiset(),
        final(v)@.len() == old(v)@.len(),
        forall|i: int, j: int| 0 <= i < j < final(v)@.len() ==> final(v)@[i] <= final(v)@[j],
{
    if v.len() >= 2 {
        if v[0] > v[1] {
            swap_ids(v, 0, 1);
        }
        if v.len() == 3 {
            if v[1] > v[2] {
                swap_ids(v, 1, 2);
            }
            if v[0] > v[1] {
                swap_ids(v, 0, 1);
            }
        }
    }
}

/// Collects the blob ids a task-exec record references and returns them
/// sorted ascending: the same ids, with the same multiplicities, as the
/// record's fields carry.
pub fn extract_blob_ids(task: &lw_signal_task) -> (r: Vec<u64>)
    ensures
        r@.to_multiset() == spec_collected_ids(*task).to_multiset(),
        r@.len() == spec_collected_ids(*task).len(),
        forall|i: int, j: int| 0 <= i < j < r@.len() ==> r@[i] <= r@[j],
{
    let mut candidates: Vec<u64> = Vec::new();
    match &task.body.exec_info.filename {
        lw_filename::Blob(id) => {
            candidates.push(*id);
        },
        lw_filename::Inline(_) => {},
    }
    if task.body.exec_info.args != 0 {
        candidates.push(task.body.exec_info.args);
    }
    if task.body.exec_info.env != 0 {
        candidates.push(task.body.exec_info.env);
    }
    proof {
        assert(candidates@ =~= spec_collected_ids(*task));
    }
    sort_small(&mut candidates);
    candidates
}

/// The send plan over the candidate ids `ids` for a topology of `n` cpus:
/// the nonzero ids whose cpu index is below `n`, in the candidates' order,
/// each paired with its cpu's queue index. The sentinel id 0 and ids of
/// out-of-range cpus are left out.
pub open spec fn spec_route_plan(ids: Seq<u64>, n: int) -> Seq<(usize, u64)>
    decreases ids.len(),
{
    if ids.len() == 0 {
        Seq::empty()
    } else {
        let plan = spec_route_plan(ids.drop_last(), n);
        let id = ids.last();
        if id != 0 && spec_cpu_of(id) < n {
            plan.push((spec_cpu_of(id) as usize, id))
        } else {
            plan
        }
    }
}

/// Builds the send plan of [`spec_route_plan`]: which id goes to which
/// cpu's request queue, in order.
pub fn route_plan(ids: &Vec<u64>, n: usize) -> (r: Vec<(usize, u64)>)
    ensures
        r@ == spec_route_plan(ids@, n as int),
        forall|k: int|
            0 <= k < r@.len() ==> (#[trigger] r@[k]).0 < n && r@[k].1 != 0 && r@[k].0
                == spec_cpu_of(r@[k].1),
{
    let mut r: Vec<(usize, u64)> = Vec::new();
    let mut i: usize = 0;
    while i < ids.len()
        invariant
            i <= ids@.len(),
            r@ == spec_route_plan(ids@.take(i as int), n as int),
            forall|k: int|
                0 <= k < r@.len() ==> (#[trigger] r@[k]).0 < n && r@[k].1 != 0 && r@[k].0
                    == spec_cpu_of(r@[k].1),
        decreases ids@.len() - i,
    {
        let id = ids[i];
        let (cpu_id, _) = blob_id_to_seq(id);
        if id != 0 && cpu_id < n {
            r.push((cpu_id, id));
        }
        proof {
            assert(ids@.take(i + 1).drop_last() =~= ids@.take(i as int));
            assert(ids@.take(i + 1).last() == ids@[i as int]);
        }
        i = i + 1;
    }
    proof {
        assert(ids@.take(ids@.len() as int) =~= ids@);
    }
    r
}

/// Routes the blob ids of one task-exec record to their cpus' request
/// queues, in ascending id order, exactly as [`spec_route_plan`] lays it
/// out over the sorted candidates, then forwards the record itself. A
/// request queue whose receiver is gone loses only its own id: the failure
/// is counted against that cpu in `ingestion_failures` and the walk goes
/// on, so a single broken shard never halts ingestion. Returns 0 unless
/// the downstream task channel itself is gone, then -1, as the ring-buffer
/// callback contract asks.
#[verifier::loop_isolation(false)]
pub fn lw_task_handler(
    task: lw_signal_task,
    blob_id_senders: &Vec<UnboundedSender<u64>>,
    task_sender: &UnboundedSender<lw_signal_task>,
    ingestion_failures: &mut Vec<u64>,
) -> (rc: i32)
    requires
        old(ingestion_failures)@.len() == blob_id_senders@.len(),
    ensures
        rc == 0 || rc == -1,
        final(ingestion_failures)@.len() == old(ingestion_failures)@.len(),
        forall|c: int|
            0 <= c < old(ingestion_failures)@.len() ==> old(ingestion_failures)@[c]
                <= #[trigger] final(ingestion_failures)@[c],
{
    let blob_ids = extract_blob_ids(&task);
    let plan = route_plan(&blob_ids, blob_id_senders.len());
    let mut i: usize = 0;
    while i < plan.len()
        invariant
            i <= plan@.len(),
            ingestion_failures@.len() == blob_id_senders@.len(),
            forall|k: int|
                0 <= k < plan@.len() ==> (#[trigger] plan@[k]).0 < blob_id_senders@.len(),
            forall|c: int|
                0 <= c < old(ingestion_failures)@.len() ==> old(ingestion_failures)@[c]
                    <= #[trigger] ingestion_failures@[c],
        decreases plan@.len() - i,
    {
        let (cpu_id, blob_id) = plan[i];
        if !channel_send(&blob_id_senders[cpu_id], blob_id) {
            let count = ingestion_failures[cpu_id];
            if count < u64::MAX {
                let ghost pre_counts = ingestion_failures@;
                ingestion_failures.set(cpu_id, count + 1);
                proof {
                    assert forall|c: int|
                        0 <= c < old(ingestion_failures)@.len() implies old(
                        ingestion_failures,
                    )@[c] <= #[trigger] ingestion_failures@[c] by {
                        if c != cpu_id {
                            assert(ingestion_failures@[c] == pre_counts[c]);
                        }
                    }
                }
            }
        }
        i = i + 1;
    }
    if channel_send(task_sender, task) {
        0
    } else {
        -1
    }
}

/// Decodes one blob ring-buffer record and routes it to its origin cpu's
/// fragment queue. Returns the cpu it routed to; a corrupted record, an
/// out-of-range cpu and a closed fragment queue are each reported, and none
/// of them is to halt ingestion.
pub fn handle_blob_record(
    data: &[u8],
    blob_senders: &Vec<UnboundedSender<lw_blob>>,
) -> (r: Result<usize, BlobError>)
    ensures
        ({
            let decodes = data@.len() >= BLOB_SIZE && spec_u16_le(data@, 16) <= BLOB_DATA_SIZE;
            let cpu = spec_cpu_of(spec_u64_le(data@, 0) as u64);
            match r {
                Ok(routed) => {
                    &&& decodes
                    &&& routed == cpu
                    &&& routed < blob_senders@.len()
                },
                Err(e) => {
                    if e == BlobError::CorruptedRecord {
                        !decodes
                    } else if e == BlobError::InvalidCpu {
                        decodes && cpu >= blob_senders@.len()
                    } else {
                        e == BlobError::ChannelClosed && decodes && cpu < blob_senders@.len()
                    }
                },
            }
        }),
{
    let blob = match lw_blob::copy_from_bytes(data) {
        Ok(b) => b,
        Err(e) => {
            return Err(e);
        },
    };
    let (cpu_id, _) = blob_id_to_seq(blob.header.blob_id);
    if cpu_id >= blob_senders.len() {
        return Err(BlobError::InvalidCpu);
    }
    if channel_send(&blob_senders[cpu_id], blob) {
        Ok(cpu_id)
    } else {
        Err(BlobError::ChannelClosed)
    }
}

/// Decodes one signal ring-buffer record; a task-exec signal is handed to
/// [`lw_task_handler`], with the same per-cpu failure counters. Records too
/// short for the envelope header, task records too short for the full
/// layout, and signals of other kinds are dropped with success: only a
/// closed downstream task channel yields -1.
pub fn handle_signal_record(
    data: &[u8],
    blob_id_senders: &Vec<UnboundedSender<u64>>,
    task_sender: &UnboundedSender<lw_signal_task>,
    ingestion_failures: &mut Vec<u64>,
) -> (rc: i32)
    requires
        old(ingestion_failures)@.len() == blob_id_senders@.len(),
    ensures
        rc == 0 || rc == -1,
        data@.len() < SIGNAL_HEADER_SIZE ==> rc == 0,
        data@.len() >= SIGNAL_HEADER_SIZE && spec_u32_le(data@, 0) != LW_SIGNAL_TASK ==> rc == 0,
        data@.len() >= SIGNAL_HEADER_SIZE && spec_u32_le(data@, 0) == LW_SIGNAL_TASK && data@.len()
            < TASK_RECORD_SIZE ==> rc == 0,
        final(ingestion_failures)@.len() == old(ingestion_failures)@.len(),
        forall|c: int|
            0 <= c < old(ingestion_failures)@.len() ==> old(ingestion_failures)@[c]
                <= #[trigger] final(ingestion_failures)@[c],
{
    let header = match lw_signal_header::copy_from_bytes(data) {
        Ok(h) => h,
        Err(_) => {
            return 0;
        },
    };
    if header.signal_type == LW_SIGNAL_TASK {
        match lw_signal_task::copy_from_bytes(data) {
            Ok(task) => {
                return lw_task_handler(task, blob_id_senders, task_sender, ingestion_failures);
            },
            Err(_) => {
                return 0;
            },
        }
    }
    0
}

} // verus!
