//! CPU usage data.
//!
//! Usage percentages are carried in tenths of a percent (425 stands for
//! 42.5%), so that the selection and threshold logic is exact integer
//! arithmetic; the platform layer converts its readings when it builds
//! these records.

use vstd::prelude::*;

verus! {

/// One CPU core: its index and its usage in tenths of a percent.
#[derive(Clone, Copy, Debug, PartialEq, Eq, Structural)]
pub struct CoreInfo {
    pub index: usize,
    pub usage_tenths: u32,
}

/// The CPU as a whole: aggregate usage in tenths of a percent and the
/// ordered per-core readings.
#[derive(Debug)]
pub struct CpuInfo {
    pub global_usage_tenths: u32,
    pub cores: Vec<CoreInfo>,
}

impl CpuInfo {
    /// Put together the CPU record from the aggregate reading and the
    /// per-core readings.
    pub fn new(global_usage_tenths: u32, cores: Vec<CoreInfo>) -> (r: Self)
        ensures
            r.global_usage_tenths == global_usage_tenths,
            r.cores@ == cores@,
    {
        CpuInfo { global_usage_tenths, cores }
    }

    /// How many cores the record holds.
    pub fn core_count(&self) -> (r: usize)
        ensures
            r == self.cores@.len(),
    {
        self.cores.len()
    }
}

} // verus!
