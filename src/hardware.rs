//! What is known of the machine's processor.
use vstd::prelude::*;

verus! {

/// The processor: its brand, core counts, clock and architecture.
pub struct CpuInfo {
    pub brand: String,
    pub cores_physical: usize,
    pub cores_logical: usize,
    pub frequency_mhz: u64,
    pub architecture: String,
}

} // verus!
