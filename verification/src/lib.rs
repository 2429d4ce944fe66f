//! User-space side of a kernel telemetry collector: reassembly of oversized
//! event fields (filenames, argument lists, environments) that arrive from the
//! kernel as chains of fixed-size blob fragments, one chain per origin cpu.
//!
//! The crate is organised around the per-cpu merge engine in [`blob`]: a
//! fragment chain is identified by 64-bit blob ids carrying the origin cpu and
//! a per-cpu sequence number, records are decoded from raw ring-buffer bytes in
//! [`types_conv`], task-exec signals are routed to the owning cpu's channels in
//! [`dispatch`], and the per-cpu channel sets live in [`channels`].

pub mod blob;
pub mod channels;
pub mod dispatch;
pub mod file_open_util;
pub mod types;
pub mod types_conv;
pub mod utils;

use vstd::prelude::*;

verus! {

/// Failures of the reassembly pipeline. All are per-record or per-shard:
/// none aborts ingestion as a whole.
#[derive(Clone, Copy, Debug, PartialEq, Eq, Structural)]
pub enum BlobError {
    /// A blob id's cpu index is outside the configured cpu range.
    InvalidCpu,
    /// A channel peer (producer or consumer) is gone.
    ChannelClosed,
    /// A fixed-layout record failed its length or bounds checks.
    CorruptedRecord,
}

} // verus!
