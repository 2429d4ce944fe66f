//! Record types shared with the kernel probes.
//!
//! The kernel side emits fixed-layout records into two ring buffers: blob
//! fragments (chunks of oversized fields, linked into chains by blob ids) and
//! signal envelopes (task-exec events that may reference such chains). The
//! types here model those records with plain fields; the bounds-checked
//! decoding from raw bytes lives in [`crate::types_conv`].

#![allow(non_camel_case_types)]

use vstd::prelude::*;

verus! {

/// Total wire size of one blob ring-buffer record, in bytes.
pub const BLOB_SIZE: u32 = 512;

/// Wire size of the blob record header: blob id, next id, effective size,
/// padded to an 8-byte boundary.
pub const BLOB_HEADER_SIZE: usize = 24;

/// Bytes of fragment payload in one blob record: `BLOB_SIZE` minus the header.
pub const BLOB_DATA_SIZE: usize = 488;

/// Signal kind tag carried by a task-exec signal envelope.
pub const LW_SIGNAL_TASK: u32 = 1;

/// Wire size of the signal envelope header.
pub const SIGNAL_HEADER_SIZE: usize = 4;

/// Bytes reserved for an inline (non-overflowed) filename in a task record.
pub const FILENAME_INLINE_SIZE: usize = 32;

/// Total wire size of one task-exec signal record.
pub const TASK_RECORD_SIZE: usize = 72;

/// Header of one blob fragment record.
#[derive(Clone, Copy, Debug, PartialEq, Eq, Structural)]
pub struct lw_blob_header {
    /// Id of this fragment: origin cpu in the high 16 bits, per-cpu sequence
    /// number in the low 48.
    pub blob_id: u64,
    /// Id of the next fragment of the same chain; sequence 0 means this
    /// fragment is the last one.
    pub blob_next: u64,
    /// How many leading bytes of the payload area are meaningful.
    pub effective_data_size: u16,
}

/// One blob fragment as decoded from the blob ring buffer: a header plus the
/// record's payload area.
#[derive(Debug)]
pub struct lw_blob {
    pub header: lw_blob_header,
    pub data: Vec<u8>,
}

/// Mathematical model of a fragment: the two link ids and the meaningful
/// payload bytes.
pub struct BlobView {
    pub blob_id: u64,
    pub blob_next: u64,
    pub payload: Seq<u8>,
}

impl lw_blob {
    /// A fragment is well formed when its effective size fits in its payload
    /// area and the payload area is no larger than a record can carry.
    pub open spec fn wf(&self) -> bool {
        &&& self.header.effective_data_size as int <= self.data@.len()
        &&& self.data@.len() <= BLOB_DATA_SIZE
    }
}

impl View for lw_blob {
    type V = BlobView;

    open spec fn view(&self) -> BlobView {
        BlobView {
            blob_id: self.header.blob_id,
            blob_next: self.header.blob_next,
            payload: self.data@.take(self.header.effective_data_size as int),
        }
    }
}

/// One reconstructed blob: the id that was requested, the concatenated
/// payload bytes, and whether the whole chain was seen. A result with
/// `complete == false` carries only the fragments up to the first gap.
#[derive(Debug)]
pub struct MergedBlob {
    pub blob_id: u64,
    pub data: Vec<u8>,
    pub complete: bool,
}

/// Header of one signal ring-buffer envelope: the signal kind tag.
#[derive(Clone, Copy, Debug, PartialEq, Eq, Structural)]
pub struct lw_signal_header {
    pub signal_type: u32,
}

/// A process id as seen from the root namespace and from the process's own
/// namespace.
#[derive(Clone, Copy, Debug, PartialEq, Eq, Structural)]
pub struct lw_pid {
    pub pid: u32,
    pub pid_vnr: u32,
}

/// A possibly-overflowed filename field: either the bytes held inline in the
/// record, or the blob id of the fragment chain that carries the full value.
#[derive(Debug)]
pub enum lw_filename {
    Inline(Vec<u8>),
    Blob(u64),
}

/// The exec-specific part of a task signal: the filename field and the blob
/// ids of the argument and environment chains (0 when not overflowed).
#[derive(Debug)]
pub struct lw_task_exec {
    pub filename: lw_filename,
    pub args: u64,
    pub env: u64,
}

/// Body of a task-exec signal: the process, its parent, and the exec fields.
#[derive(Debug)]
pub struct lw_task {
    pub pid: lw_pid,
    pub parent: lw_pid,
    pub exec_info: lw_task_exec,
}

/// One task-exec signal record: envelope header plus body.
#[derive(Debug)]
pub struct lw_signal_task {
    pub header: lw_signal_header,
    pub body: lw_task,
}

/// Inode identity used as the key of the monitored-file map.
#[derive(Clone, Copy, Debug, PartialEq, Eq, Structural)]
pub struct fo_inode {
    pub s_dev: u64,
    pub i_ino: u64,
}

/// One monitored-path entry: the path bytes plus fixed metadata and padding
/// areas, as laid out in the kernel-shared map value.
#[derive(Clone, Copy)]
pub struct fo_monitor_name {
    pub path: [u8; 256],
    pub path_meta: [u8; 32],
    pub padding: [u8; 32],
}

} // verus!
