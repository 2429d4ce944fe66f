//! Small conversions shared by the probe helpers.

use vstd::prelude::*;

verus! {

/// A kernel `dev_t` rebuilt from the userspace `st_dev` encoding: the major
/// number (bits 8..16) moves up to bit 20, the minor byte stays.
pub open spec fn spec_convert_dev_t(st_dev: u64) -> u64 {
    ((st_dev & 0xFF00) << 12) | (st_dev & 0x00FF)
}

/// Converts a userspace `st_dev` value to the kernel's `dev_t` encoding.
pub fn convert_dev_t(st_dev: u64) -> (r: u64)
    ensures
        r == spec_convert_dev_t(st_dev),
{
    ((st_dev & 0xFF00) << 12) | (st_dev & 0x00FF)
}

} // verus!
