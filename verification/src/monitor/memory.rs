//! Memory totals.

use vstd::prelude::*;
use crate::monitor::percent_spec;
use crate::monitor::percent_of;

verus! {

/// Memory totals in bytes. A well-formed record never reports more used
/// than total memory.
#[derive(Clone, Copy, Debug, PartialEq, Eq, Structural)]
pub struct MemoryInfo {
    pub total_bytes: u64,
    pub used_bytes: u64,
}

impl MemoryInfo {
    /// The record is well formed: used memory does not exceed the total.
    pub open spec fn wf(&self) -> bool {
        self.used_bytes <= self.total_bytes
    }

    /// Put together the memory record from its two totals.
    pub fn new(total_bytes: u64, used_bytes: u64) -> (r: Self)
        requires
            used_bytes <= total_bytes,
        ensures
            r == (MemoryInfo { total_bytes, used_bytes }),
            r.wf(),
    {
        MemoryInfo { total_bytes, used_bytes }
    }

    /// The used share in whole percent, rounded down; zero on a machine
    /// that reports no memory at all.
    pub fn percentage(&self) -> (r: u64)
        requires
            self.wf(),
        ensures
            r == percent_spec(self.used_bytes, self.total_bytes),
            r <= 100,
    {
        percent_of(self.used_bytes, self.total_bytes)
    }
}

} // verus!
