//! The aarch64 'virt' machine of the QEMU emulator, as described to the BL31 runtime.

use vstd::prelude::*;

use crate::context::EntryPointInfo;

verus! {

/// The aarch64 'virt' machine of the QEMU emulator.
pub struct Qemu;

impl Qemu {
    /// The number of CPU cores.
    pub const CORE_COUNT: usize = 4;

    /// Returns the entry point for the non-secure world, i.e. BL33.
    pub fn non_secure_entry_point() -> (entry: EntryPointInfo)
        ensures
            entry.pc == 0x6000_0000,
            entry.spsr == 0x3c9,
            entry.args@ == seq![0u64, 0, 0, 0, 0, 0, 0, 0],
    {
        let entry = EntryPointInfo { pc: 0x6000_0000, spsr: 0x3c9, args: [0, 0, 0, 0, 0, 0, 0, 0] };
        assert(entry.args@ =~= seq![0u64, 0, 0, 0, 0, 0, 0, 0]);
        entry
    }

    /// Returns the linear index of the current core: this platform runs on the first core only.
    pub fn core_index() -> (index: usize)
        ensures
            index == 0,
    {
        0
    }
}

} // verus!
