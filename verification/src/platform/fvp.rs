//! The Arm Fixed Virtual Platform, as described to the BL31 runtime.

use vstd::prelude::*;

use crate::context::EntryPointInfo;
use crate::services::psci::{
    Mpidr, PlatformPowerStateInterface, PowerStateType, PsciPlatformOptionalFeatures,
};
use crate::sysregs::Spsr;

verus! {

/// Cluster count.
pub const FVP_CLUSTER_COUNT: usize = 2;
/// Maximum CPU count per cluster.
pub const FVP_MAX_CPUS_PER_CLUSTER: usize = 4;
/// Maximum PE count per CPU.
pub const FVP_MAX_PE_PER_CPU: usize = 1;

/// The physical address of the SPMC manifest blob.
pub const TOS_FW_CONFIG_ADDRESS: u64 = 0;
/// The physical address of the hardware configuration blob.
pub const HW_CONFIG_ADDRESS: u64 = 0;
/// Version of the RMM Boot Interface.
pub const RMM_BOOT_VERSION: u64 = 0;
/// Base address for the EL3 - RMM shared area.
pub const RMM_SHARED_AREA_BASE_ADDRESS: u64 = 0;

/// Fixed Virtual Platform
pub struct Fvp;

/// Whether `mpidr` names a core of the FVP: aff3 zero or absent, and the cluster, CPU and PE
/// numbers within the platform's counts.
pub open spec fn spec_fvp_mpidr_is_valid(mpidr: Mpidr) -> bool {
    &&& match mpidr.aff3 {
        Some(a) => a == 0,
        None => true,
    }
    &&& mpidr.aff2 < FVP_CLUSTER_COUNT
    &&& mpidr.aff1 < FVP_MAX_CPUS_PER_CLUSTER
    &&& mpidr.aff0 < FVP_MAX_PE_PER_CPU
}

/// The `SPSR_EL3` value with which the lower exception levels are entered: all exceptions
/// masked, at the given exception level and stack pointer.
pub open spec fn spec_masked_spsr(mode: u64) -> u64 {
    Spsr::D | Spsr::A | Spsr::I | Spsr::F | mode
}

impl Fvp {
    /// The number of CPU cores.
    pub const CORE_COUNT: usize = 8;
    /// The size in bytes of the largest cache line across all the cache levels.
    pub const CACHE_WRITEBACK_GRANULE: usize = 64;

    /// Returns whether the given MPIDR is valid for this platform.
    pub fn mpidr_is_valid(mpidr: Mpidr) -> (valid: bool)
        ensures
            valid == spec_fvp_mpidr_is_valid(mpidr),
    {
        let aff3 = match mpidr.aff3 {
            Some(a) => a,
            None => 0,
        };
        aff3 == 0 && (mpidr.aff2 as usize) < FVP_CLUSTER_COUNT && (mpidr.aff1 as usize)
            < FVP_MAX_CPUS_PER_CLUSTER && (mpidr.aff0 as usize) < FVP_MAX_PE_PER_CPU
    }

    /// Returns the entry point for the secure world, i.e. BL32, on the core with the given
    /// linear index.
    pub fn secure_entry_point(core_linear_id: u64) -> (entry: EntryPointInfo)
        ensures
            entry.pc == 0x0600_0000,
            entry.spsr == spec_masked_spsr(Spsr::M_AARCH64_EL1H),
            entry.args@ == seq![TOS_FW_CONFIG_ADDRESS, HW_CONFIG_ADDRESS, 0, 0, core_linear_id, 0, 0, 0],
    {
        let entry = EntryPointInfo {
            pc: 0x0600_0000,
            spsr: Spsr::D | Spsr::A | Spsr::I | Spsr::F | Spsr::M_AARCH64_EL1H,
            args: [TOS_FW_CONFIG_ADDRESS, HW_CONFIG_ADDRESS, 0, 0, core_linear_id, 0, 0, 0],
        };
        assert(entry.args@ =~= seq![TOS_FW_CONFIG_ADDRESS, HW_CONFIG_ADDRESS, 0, 0, core_linear_id, 0, 0, 0]);
        entry
    }

    /// Returns the entry point for the non-secure world, i.e. BL33.
    pub fn non_secure_entry_point() -> (entry: EntryPointInfo)
        ensures
            entry.pc == 0x8800_0000,
            entry.spsr == spec_masked_spsr(Spsr::M_AARCH64_EL2H),
            entry.args@ == seq![0u64, 0, 0, 0, 0, 0, 0, 0],
    {
        let entry = EntryPointInfo {
            pc: 0x8800_0000,
            spsr: Spsr::D | Spsr::A | Spsr::I | Spsr::F | Spsr::M_AARCH64_EL2H,
            args: [0, 0, 0, 0, 0, 0, 0, 0],
        };
        assert(entry.args@ =~= seq![0u64, 0, 0, 0, 0, 0, 0, 0]);
        entry
    }

    /// Returns the entry point for the realm world, on the core with the given linear index.
    pub fn realm_entry_point(core_linear_id: u64) -> (entry: EntryPointInfo)
        ensures
            entry.pc == 0xfdc0_0000,
            entry.spsr == spec_masked_spsr(Spsr::M_AARCH64_EL2H),
            entry.args@ == seq![core_linear_id, RMM_BOOT_VERSION, Self::CORE_COUNT as u64, RMM_SHARED_AREA_BASE_ADDRESS, 0, 0, 0, 0],
    {
        let entry = EntryPointInfo {
            pc: 0xfdc0_0000,
            spsr: Spsr::D | Spsr::A | Spsr::I | Spsr::F | Spsr::M_AARCH64_EL2H,
            args: [
                core_linear_id,
                RMM_BOOT_VERSION,
                Self::CORE_COUNT as u64,
                RMM_SHARED_AREA_BASE_ADDRESS,
                0,
                0,
                0,
                0,
            ],
        };
        assert(entry.args@ =~= seq![core_linear_id, RMM_BOOT_VERSION, Self::CORE_COUNT as u64, RMM_SHARED_AREA_BASE_ADDRESS, 0, 0, 0, 0]);
        entry
    }
}

/// The power states of the FVP, from running to powered down.
#[derive(PartialEq, Debug, Eq, Clone, Copy, Structural)]
pub enum FvpPowerState {
    PowerDown,
    Standby,
    On,
}

impl PlatformPowerStateInterface for FvpPowerState {
    open spec fn spec_depth(self) -> nat {
        match self {
            FvpPowerState::On => 0,
            FvpPowerState::Standby => 1,
            FvpPowerState::PowerDown => 2,
        }
    }

    open spec fn spec_power_state_type(self) -> PowerStateType {
        match self {
            FvpPowerState::PowerDown => PowerStateType::PowerDown,
            FvpPowerState::Standby => PowerStateType::StandbyOrRetention,
            FvpPowerState::On => PowerStateType::Run,
        }
    }

    open spec fn spec_off() -> Self {
        FvpPowerState::PowerDown
    }

    open spec fn spec_run() -> Self {
        FvpPowerState::On
    }

    fn off() -> (state: Self) {
        FvpPowerState::PowerDown
    }

    fn run() -> (state: Self) {
        FvpPowerState::On
    }

    fn power_state_type(&self) -> (state_type: PowerStateType) {
        match self {
            FvpPowerState::PowerDown => PowerStateType::PowerDown,
            FvpPowerState::Standby => PowerStateType::StandbyOrRetention,
            FvpPowerState::On => PowerStateType::Run,
        }
    }

    fn depth(&self) -> (depth: usize) {
        match self {
            FvpPowerState::On => 0,
            FvpPowerState::Standby => 1,
            FvpPowerState::PowerDown => 2,
        }
    }

    proof fn lemma_order(a: Self, b: Self) {
    }
}

/// The PSCI platform description of the FVP.
pub struct FvpPsciPlatformImpl;

impl FvpPsciPlatformImpl {
    /// Count of all power domains.
    pub const POWER_DOMAIN_COUNT: usize = 11;
    /// Maximal power level in the system.
    pub const MAX_POWER_LEVEL: usize = 2;

    /// The optional features: none.
    pub fn features() -> (features: PsciPlatformOptionalFeatures)
        ensures
            features.spec_bits() == 0,
    {
        PsciPlatformOptionalFeatures::empty()
    }

    /// Returns the power domain topology as the count of child nodes in a BFS traversal order.
    pub fn topology() -> (topology: [usize; 4])
        ensures
            topology@ == seq![1usize, 2, 4, 4],
    {
        let topology = [1, 2, 4, 4];
        assert(topology@ =~= seq![1usize, 2, 4, 4]);
        topology
    }
}

} // verus!
