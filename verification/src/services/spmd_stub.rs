//! Placeholder SPMD, which the PSCI implementation notifies of power state changes.

use vstd::prelude::*;

verus! {

/// The SPM dispatcher, as seen by the PSCI implementation.
pub struct Spmd;

/// The dispatcher instance.
pub const SPMD: Spmd = Spmd;

impl Spmd {
    /// Handles a PSCI event forwarded by the PSCI implementation, and returns the PSCI return
    /// code of the handling: always success.
    pub fn handle_psci_event(&self, _psci_request: &[u64; 4]) -> (ret: u64)
        ensures
            ret == 0,
    {
        0
    }

    /// Handles the boot of a CPU that was turned on.
    pub fn handle_cold_boot(&self) {
    }

    /// Handles the wake-up of a CPU from a power down suspend.
    pub fn handle_warm_boot(&self) {
    }
}

} // verus!
