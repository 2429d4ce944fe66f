//! Helpers around the file-open probe: building the key under which a
//! monitored file is registered in the kernel-shared inode map.

use vstd::prelude::*;

use crate::types::fo_inode;
use crate::types_conv::{push_u64_le, spec_u64_le};
use crate::utils::{convert_dev_t, spec_convert_dev_t};
use crate::BlobError;

verus! {

/// Extension of a loaded file-open probe skeleton: ask the probe to watch
/// one file. Implementations look the file's identity up and store the
/// [`fo_inode`] key built by [`monitor_key`] in the probe's inode map.
pub trait ProbeSkelExt {
    /// Registers the file at `file_name` in the probe's monitored-inode map.
    fn monitor_file(&self, file_name: &str) -> Result<(), BlobError>;
}

/// The map key of a monitored file: the userspace device id converted to the
/// kernel encoding, and the inode number as it is.
pub fn monitor_key(st_dev: u64, st_ino: u64) -> (r: fo_inode)
    ensures
        r.s_dev == spec_convert_dev_t(st_dev),
        r.i_ino == st_ino,
{
    fo_inode { s_dev: convert_dev_t(st_dev), i_ino: st_ino }
}

impl fo_inode {
    /// The 16 little-endian bytes of this key as the kernel-shared map
    /// expects them: the device id first, the inode number after it.
    pub fn key_bytes(&self) -> (r: Vec<u8>)
        ensures
            r@.len() == 16,
            spec_u64_le(r@, 0) == self.s_dev,
            spec_u64_le(r@, 8) == self.i_ino,
    {
        let mut r: Vec<u8> = Vec::new();
        push_u64_le(&mut r, self.s_dev);
        push_u64_le(&mut r, self.i_ino);
        r
    }
}

} // verus!
