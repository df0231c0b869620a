//! The memory sampler and the threshold comparison.

use vstd::prelude::*;

verus! {

/// Number of bytes in one gigabyte: 1024 * 1024 * 1024.
pub const BYTES_PER_GB: u64 = 0x4000_0000;

/// Whether a free-memory reading, in bytes, lies strictly below a threshold
/// given in whole gigabytes.
pub open spec fn below_threshold_spec(free_bytes: u64, threshold_gb: u64) -> bool {
    (free_bytes as int) < (threshold_gb as int) * (BYTES_PER_GB as int)
}

/// Compares a free-memory reading in bytes against a threshold in gigabytes,
/// strictly. The product is formed in 128-bit arithmetic, so the comparison
/// is exact for every threshold.
pub fn below_threshold(free_bytes: u64, threshold_gb: u64) -> (r: bool)
    ensures
        r == below_threshold_spec(free_bytes, threshold_gb),
{
    let t: u128 = threshold_gb as u128;
    proof {
        assert(t * (BYTES_PER_GB as u128) < 0x1_0000_0000_0000_0000_0000_0000u128)
            by (nonlinear_arith)
            requires
                t < 0x1_0000_0000_0000_0000u128,
        ;
    }
    (free_bytes as u128) < t * (BYTES_PER_GB as u128)
}

/// Relies on sysinfo: `System::new` followed by `refresh_memory` and
/// `free_memory` yields the host's free physical memory in bytes, freshly
/// sampled on each call, and 0 where the platform gives no reading. The value
/// depends on the machine's state at the instant of the call, so nothing is
/// promised of it.
#[verifier::external_body]
pub fn free_memory_bytes() -> u64 {
    let mut system = sysinfo::System::new();
    system.refresh_memory();
    system.free_memory()
}

/// One poll tick's memory check: samples free memory and reports whether the
/// reading lies strictly below the threshold. Whatever the sampler returned,
/// a threshold of zero gigabytes never triggers, since the comparison is
/// strict and no reading is below zero bytes.
pub fn check_free_memory(threshold: u64) -> (r: bool)
    ensures
        threshold == 0 ==> !r,
{
    let free = free_memory_bytes();
    below_threshold(free, threshold)
}

/// Law: a threshold of zero gigabytes never triggers. The comparison is
/// strict, and no reading, a reading of exactly zero bytes included, lies
/// strictly below zero bytes.
pub proof fn lemma_zero_threshold_never_triggers()
    ensures
        forall|free_bytes: u64| !below_threshold_spec(free_bytes, 0),
{
}

} // verus!
