//! Bounds-checked decoding of kernel ring-buffer records.
//!
//! The kernel emits fixed-layout little-endian records. Rather than
//! reinterpreting raw memory, each record type is decoded field by field
//! after an explicit length check; a record that fails its checks is reported
//! as [`BlobError::CorruptedRecord`] and dropped by the callers.
//!
//! Blob record layout (`BLOB_SIZE` bytes): blob id at offset 0, next blob id
//! at 8, effective payload size at 16, padding up to `BLOB_HEADER_SIZE`, then
//! the `BLOB_DATA_SIZE`-byte payload area.
//!
//! Task-exec signal layout (`TASK_RECORD_SIZE` bytes): signal kind at offset
//! 0, pid and namespace pid at 4 and 8, parent pid pair at 12 and 16, padding
//! up to 24, then the filename field: a `FILENAME_INLINE_SIZE`-byte area that
//! holds either the inline filename bytes or, when the overflow flag word at
//! its start is 0, a blob id at offset 32; finally the argument and
//! environment blob ids at 56 and 64.

use vstd::prelude::*;

use crate::types::{
    lw_blob, lw_blob_header, lw_filename, lw_pid, lw_signal_header, lw_signal_task, lw_task,
    lw_task_exec, BLOB_DATA_SIZE, BLOB_HEADER_SIZE, BLOB_SIZE, FILENAME_INLINE_SIZE,
    SIGNAL_HEADER_SIZE, TASK_RECORD_SIZE,
};
use crate::BlobError;

verus! {

/// The value of the two bytes at `i` read as a little-endian integer.
pub open spec fn spec_u16_le(s: Seq<u8>, i: int) -> int {
    s[i] + 0x100 * s[i + 1]
}

/// The value of the four bytes at `i` read as a little-endian integer.
pub open spec fn spec_u32_le(s: Seq<u8>, i: int) -> int {
    s[i] + 0x100 * s[i + 1] + 0x1_0000 * s[i + 2] + 0x100_0000 * s[i + 3]
}

/// The value of the eight bytes at `i` read as a little-endian integer.
pub open spec fn spec_u64_le(s: Seq<u8>, i: int) -> int {
    s[i] + 0x100 * s[i + 1] + 0x1_0000 * s[i + 2] + 0x100_0000 * s[i + 3]
        + 0x1_0000_0000 * s[i + 4] + 0x100_0000_0000 * s[i + 5]
        + 0x1_0000_0000_0000 * s[i + 6] + 0x100_0000_0000_0000 * s[i + 7]
}

/// Reads the little-endian 16-bit integer at offset `i`.
pub fn read_u16_le(buf: &[u8], i: usize) -> (r: u16)
    requires
        i + 2 <= buf@.len(),
    ensures
        r as int == spec_u16_le(buf@, i as int),
{
    (buf[i] as u16) + 0x100u16 * (buf[i + 1] as u16)
}

/// Reads the little-endian 32-bit integer at offset `i`.
pub fn read_u32_le(buf: &[u8], i: usize) -> (r: u32)
    requires
        i + 4 <= buf@.len(),
    ensures
        r as int == spec_u32_le(buf@, i as int),
{
    (buf[i] as u32) + 0x100u32 * (buf[i + 1] as u32) + 0x1_0000u32 * (buf[i + 2] as u32)
        + 0x100_0000u32 * (buf[i + 3] as u32)
}

/// Reads the little-endian 64-bit integer at offset `i`.
pub fn read_u64_le(buf: &[u8], i: usize) -> (r: u64)
    requires
        i + 8 <= buf@.len(),
    ensures
        r as int == spec_u64_le(buf@, i as int),
{
    (buf[i] as u64) + 0x100u64 * (buf[i + 1] as u64) + 0x1_0000u64 * (buf[i + 2] as u64)
        + 0x100_0000u64 * (buf[i + 3] as u64) + 0x1_0000_0000u64 * (buf[i + 4] as u64)
        + 0x100_0000_0000u64 * (buf[i + 5] as u64) + 0x1_0000_0000_0000u64 * (buf[i + 6] as u64)
        + 0x100_0000_0000_0000u64 * (buf[i + 7] as u64)
}

/// Appends the eight little-endian bytes of `v` to `dst`.
pub fn push_u64_le(dst: &mut Vec<u8>, v: u64)
    ensures
        final(dst)@.len() == old(dst)@.len() + 8,
        final(dst)@.subrange(0, old(dst)@.len() as int) == old(dst)@,
        spec_u64_le(final(dst)@, old(dst)@.len() as int) == v,
{
    let b0 = v as u8;
    let b1 = (v >> 8) as u8;
    let b2 = (v >> 16) as u8;
    let b3 = (v >> 24) as u8;
    let b4 = (v >> 32) as u8;
    let b5 = (v >> 40) as u8;
    let b6 = (v >> 48) as u8;
    let b7 = (v >> 56) as u8;
    proof {
        assert(b0 as u64 + 0x100 * (b1 as u64) + 0x1_0000 * (b2 as u64) + 0x100_0000 * (
        b3 as u64) + 0x1_0000_0000 * (b4 as u64) + 0x100_0000_0000 * (b5 as u64)
            + 0x1_0000_0000_0000 * (b6 as u64) + 0x100_0000_0000_0000 * (b7 as u64) == v)
            by (bit_vector)
            requires
                b0 == v as u8,
                b1 == (v >> 8) as u8,
                b2 == (v >> 16) as u8,
                b3 == (v >> 24) as u8,
                b4 == (v >> 32) as u8,
                b5 == (v >> 40) as u8,
                b6 == (v >> 48) as u8,
                b7 == (v >> 56) as u8,
        ;
    }
    dst.push(b0);
    dst.push(b1);
    dst.push(b2);
    dst.push(b3);
    dst.push(b4);
    dst.push(b5);
    dst.push(b6);
    dst.push(b7);
    proof {
        assert(dst@.subrange(0, old(dst)@.len() as int) =~= old(dst)@);
    }
}

impl lw_blob {
    /// Decodes one blob ring-buffer record. Succeeds exactly when the buffer
    /// holds a whole record and the effective size fits the payload area.
    pub fn copy_from_bytes(buf: &[u8]) -> (r: Result<lw_blob, BlobError>)
        ensures
            match r {
                Ok(b) => {
                    &&& buf@.len() >= BLOB_SIZE
                    &&& spec_u16_le(buf@, 16) <= BLOB_DATA_SIZE
                    &&& b.header.blob_id == spec_u64_le(buf@, 0)
                    &&& b.header.blob_next == spec_u64_le(buf@, 8)
                    &&& b.header.effective_data_size == spec_u16_le(buf@, 16)
                    &&& b.data@ == buf@.subrange(
                        BLOB_HEADER_SIZE as int,
                        BLOB_HEADER_SIZE + BLOB_DATA_SIZE as int,
                    )
                    &&& b.wf()
                },
                Err(e) => {
                    &&& e == BlobError::CorruptedRecord
                    &&& (buf@.len() < BLOB_SIZE || spec_u16_le(buf@, 16) > BLOB_DATA_SIZE)
                },
            },
    {
        if buf.len() < BLOB_SIZE as usize {
            return Err(BlobError::CorruptedRecord);
        }
        let effective_data_size = read_u16_le(buf, 16);
        if effective_data_size as usize > BLOB_DATA_SIZE {
            return Err(BlobError::CorruptedRecord);
        }
        let header = lw_blob_header {
            blob_id: read_u64_le(buf, 0),
            blob_next: read_u64_le(buf, 8),
            effective_data_size,
        };
        let region = vstd::slice::slice_subrange(buf, BLOB_HEADER_SIZE, BLOB_HEADER_SIZE + BLOB_DATA_SIZE);
        let data = vstd::slice::slice_to_vec(region);
        Ok(lw_blob { header, data })
    }
}

impl lw_signal_header {
    /// Decodes the envelope header of a signal record. Succeeds exactly when
    /// the buffer holds at least the header.
    pub fn copy_from_bytes(buf: &[u8]) -> (r: Result<lw_signal_header, BlobError>)
        ensures
            match r {
                Ok(h) => {
                    &&& buf@.len() >= SIGNAL_HEADER_SIZE
                    &&& h.signal_type == spec_u32_le(buf@, 0)
                },
                Err(e) => {
                    &&& e == BlobError::CorruptedRecord
                    &&& buf@.len() < SIGNAL_HEADER_SIZE
                },
            },
    {
        if buf.len() < SIGNAL_HEADER_SIZE {
            return Err(BlobError::CorruptedRecord);
        }
        Ok(lw_signal_header { signal_type: read_u32_le(buf, 0) })
    }
}

/// Whether the filename field of the task record in `s` carries a blob
/// reference: the overflow flag word at the field's start is 0.
pub open spec fn spec_filename_overflowed(s: Seq<u8>) -> bool {
    spec_u64_le(s, 24) == 0
}

impl lw_signal_task {
    /// Decodes one task-exec signal record. Succeeds exactly when the buffer
    /// holds a whole record; the filename field decodes to a blob reference
    /// when its overflow flag word is 0, to the inline bytes otherwise.
    pub fn copy_from_bytes(buf: &[u8]) -> (r: Result<lw_signal_task, BlobError>)
        ensures
            match r {
                Ok(t) => {
                    &&& buf@.len() >= TASK_RECORD_SIZE
                    &&& t.header.signal_type == spec_u32_le(buf@, 0)
                    &&& t.body.pid.pid == spec_u32_le(buf@, 4)
                    &&& t.body.pid.pid_vnr == spec_u32_le(buf@, 8)
                    &&& t.body.parent.pid == spec_u32_le(buf@, 12)
                    &&& t.body.parent.pid_vnr == spec_u32_le(buf@, 16)
                    &&& (if spec_filename_overflowed(buf@) {
                        t.body.exec_info.filename == lw_filename::Blob(spec_u64_le(buf@, 32) as u64)
                    } else {
                        t.body.exec_info.filename matches lw_filename::Inline(bytes)
                            && bytes@ == buf@.subrange(24, 24 + FILENAME_INLINE_SIZE as int)
                    })
                    &&& t.body.exec_info.args == spec_u64_le(buf@, 56)
                    &&& t.body.exec_info.env == spec_u64_le(buf@, 64)
                },
                Err(e) => {
                    &&& e == BlobError::CorruptedRecord
                    &&& buf@.len() < TASK_RECORD_SIZE
                },
            },
    {
        if buf.len() < TASK_RECORD_SIZE {
            return Err(BlobError::CorruptedRecord);
        }
        let flag = read_u64_le(buf, 24);
        let filename = if flag == 0 {
            lw_filename::Blob(read_u64_le(buf, 32))
        } else {
            let region = vstd::slice::slice_subrange(buf, 24, 24 + FILENAME_INLINE_SIZE);
            lw_filename::Inline(vstd::slice::slice_to_vec(region))
        };
        Ok(lw_signal_task {
            header: lw_signal_header { signal_type: read_u32_le(buf, 0) },
            body: lw_task {
                pid: lw_pid { pid: read_u32_le(buf, 4), pid_vnr: read_u32_le(buf, 8) },
                parent: lw_pid { pid: read_u32_le(buf, 12), pid_vnr: read_u32_le(buf, 16) },
                exec_info: lw_task_exec {
                    filename,
                    args: read_u64_le(buf, 56),
                    env: read_u64_le(buf, 64),
                },
            },
        })
    }
}

} // verus!
