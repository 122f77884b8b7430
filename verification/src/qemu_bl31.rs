//! The BL31 deployment for the QEMU virt machine: core numbering, the platform's PSCI power
//! states, and how a powered down CPU comes back.

use vstd::prelude::*;

use crate::services::psci::{
    PlatformPowerStateInterface, PowerState, PowerStateType, PsciCompositePowerState,
};
use crate::sysregs::MpidrEl1;

verus! {

/// The number of CPU clusters.
pub const CLUSTER_COUNT: usize = 1;
/// Log2 of the maximum number of CPUs in each cluster.
pub const PLATFORM_CPU_PER_CLUSTER_SHIFT: usize = 2;
/// The maximum number of CPUs in each cluster.
pub const MAX_CPUS_PER_CLUSTER: usize = 4;
/// The number of CPU cores.
pub const CORE_COUNT: usize = 4;

/// The maximal power level of the QEMU topology.
pub const PSCI_MAX_POWER_LEVEL: usize = 2;
/// The number of power levels.
pub const PSCI_STATE_COUNT: usize = 3;
/// The number of power domains that are not CPUs: the system and the clusters.
pub const PSCI_NON_CPU_DOMAIN_COUNT: usize = CLUSTER_COUNT + 1;

/// Whether the `MPIDR_EL1` value `mpidr` names a core of the machine.
pub open spec fn spec_mpidr_is_valid(mpidr: MpidrEl1) -> bool {
    &&& mpidr.spec_aff(3) == 0
    &&& mpidr.spec_aff(2) == 0
    &&& mpidr.spec_aff(1) < CLUSTER_COUNT
    &&& mpidr.spec_aff(0) < MAX_CPUS_PER_CLUSTER
}

/// The linear core index: the cluster number times the cluster size, plus the CPU number.
pub open spec fn spec_core_position(mpidr: MpidrEl1) -> nat {
    (mpidr.spec_aff(1) * MAX_CPUS_PER_CLUSTER + mpidr.spec_aff(0)) as nat
}

/// Returns whether the given MPIDR is valid for this platform.
pub fn mpidr_is_valid(mpidr: MpidrEl1) -> (valid: bool)
    ensures
        valid == spec_mpidr_is_valid(mpidr),
{
    mpidr.aff3() == 0 && mpidr.aff2() == 0 && (mpidr.aff1() as usize) < CLUSTER_COUNT
        && (mpidr.aff0() as usize) < MAX_CPUS_PER_CLUSTER
}

/// Calculates the linear core index of the core that `mpidr` names.
pub fn core_position(mpidr: MpidrEl1) -> (position: usize)
    ensures
        position == spec_core_position(mpidr),
{
    let v = mpidr.0;
    assert((v & 0xff) + ((v & 0xff00) >> 6) == (v % 0x100) + ((v / 0x100) % 0x100) * 4)
        by (bit_vector);
    ((mpidr.0 & 0xff) + ((mpidr.0 & 0xff00) >> 6)) as usize
}

/// Valid MPIDRs name cores below the core count, and distinct cores have distinct positions.
pub proof fn lemma_core_position_unique(a: MpidrEl1, b: MpidrEl1)
    requires
        spec_mpidr_is_valid(a),
        spec_mpidr_is_valid(b),
    ensures
        spec_core_position(a) < CORE_COUNT,
        spec_core_position(a) == spec_core_position(b) ==> a.spec_aff(0) == b.spec_aff(0)
            && a.spec_aff(1) == b.spec_aff(1),
{
}

/// Returns the power domain topology as the count of child nodes in a BFS traversal order.
pub fn topology() -> (topology: [usize; 3])
    ensures
        topology@ == seq![1usize, CLUSTER_COUNT, MAX_CPUS_PER_CLUSTER],
{
    let topology = [1, CLUSTER_COUNT, MAX_CPUS_PER_CLUSTER];
    assert(topology@ =~= seq![1usize, CLUSTER_COUNT, MAX_CPUS_PER_CLUSTER]);
    topology
}

/// The power states of the machine, from running to powered down.
#[derive(PartialEq, Debug, Eq, Clone, Copy, Structural)]
pub enum QemuPowerState {
    On,
    Retention,
    PowerDown,
}

impl PlatformPowerStateInterface for QemuPowerState {
    open spec fn spec_depth(self) -> nat {
        match self {
            QemuPowerState::On => 0,
            QemuPowerState::Retention => 1,
            QemuPowerState::PowerDown => 2,
        }
    }

    open spec fn spec_power_state_type(self) -> PowerStateType {
        match self {
            QemuPowerState::PowerDown => PowerStateType::PowerDown,
            QemuPowerState::Retention => PowerStateType::StandbyOrRetention,
            QemuPowerState::On => PowerStateType::Run,
        }
    }

    open spec fn spec_off() -> Self {
        QemuPowerState::PowerDown
    }

    open spec fn spec_run() -> Self {
        QemuPowerState::On
    }

    fn off() -> (state: Self) {
        QemuPowerState::PowerDown
    }

    fn run() -> (state: Self) {
        QemuPowerState::On
    }

    fn power_state_type(&self) -> (state_type: PowerStateType) {
        match self {
            QemuPowerState::PowerDown => PowerStateType::PowerDown,
            QemuPowerState::Retention => PowerStateType::StandbyOrRetention,
            QemuPowerState::On => PowerStateType::Run,
        }
    }

    fn depth(&self) -> (depth: usize) {
        match self {
            QemuPowerState::On => 0,
            QemuPowerState::Retention => 1,
            QemuPowerState::PowerDown => 2,
        }
    }

    proof fn lemma_order(a: Self, b: Self) {
    }
}

/// The composite state (states of each level and the last power level) that a `CPU_SUSPEND`
/// power state parameter requests on the machine: bits [11:0] of the raw parameter hold a 4-bit
/// local state per level and bits [15:12] the last power level.
pub open spec fn spec_parse_power_state(power_state: PowerState) -> Option<(Seq<QemuPowerState>, usize)> {
    let raw = power_state.spec_raw();
    let last = (raw / 0x1000) % 0x10;
    let local = raw % 0x1000;
    if last > PSCI_MAX_POWER_LEVEL {
        None
    } else {
        match power_state {
            PowerState::StandbyOrRetention(id) => if id == 1 {
                Some((seq![QemuPowerState::Retention, QemuPowerState::On, QemuPowerState::On], last as usize))
            } else {
                None
            },
            PowerState::PowerDown(_) => if local == 0x2 {
                Some((seq![QemuPowerState::PowerDown, QemuPowerState::On, QemuPowerState::On], last as usize))
            } else if local == 0x12 {
                Some((seq![QemuPowerState::PowerDown, QemuPowerState::Retention, QemuPowerState::On], last as usize))
            } else if local == 0x22 || local == 0x222 {
                Some((seq![QemuPowerState::PowerDown, QemuPowerState::PowerDown, QemuPowerState::On], last as usize))
            } else {
                None
            },
        }
    }
}

/// The state that a 4-bit local state field asks for at a level below the system: `0` keeps
/// the level on, `1` keeps it in retention and `2` powers it down.
pub open spec fn spec_local_state_of_field(field: u32) -> Option<QemuPowerState> {
    if field == 0 {
        Some(QemuPowerState::On)
    } else if field == 1 {
        Some(QemuPowerState::Retention)
    } else if field == 2 {
        Some(QemuPowerState::PowerDown)
    } else {
        None
    }
}

/// In a power down state, the CPU and the cluster take the states that their 4-bit local state
/// fields of the raw parameter ask for, the system stays on, and the last power level is the
/// field above the local states; the standby state asks for retention of the CPU alone.
pub proof fn lemma_parsed_levels_follow_local_states(power_state: PowerState)
    ensures
        spec_parse_power_state(power_state) matches Some((states, last)) ==> {
            &&& states.len() == 3
            &&& states[2] == QemuPowerState::On
            &&& last == ((power_state.spec_raw() >> 12u32) & 0xf) as usize
            &&& power_state is PowerDown ==> {
                &&& Some(states[0]) == spec_local_state_of_field(power_state.spec_raw() & 0xf)
                &&& Some(states[1]) == spec_local_state_of_field((power_state.spec_raw() >> 4u32) & 0xf)
            }
            &&& power_state is StandbyOrRetention ==> {
                &&& states[0] == QemuPowerState::Retention
                &&& states[1] == QemuPowerState::On
            }
        },
{
    let raw = power_state.spec_raw();
    assert({
        &&& ((raw >> 12u32) & 0xf) == (raw / 0x1000) % 0x10
        &&& raw % 0x1000 == 0x2 ==> (raw & 0xf) == 2 && ((raw >> 4u32) & 0xf) == 0
        &&& raw % 0x1000 == 0x12 ==> (raw & 0xf) == 2 && ((raw >> 4u32) & 0xf) == 1
        &&& raw % 0x1000 == 0x22 ==> (raw & 0xf) == 2 && ((raw >> 4u32) & 0xf) == 2
        &&& raw % 0x1000 == 0x222 ==> (raw & 0xf) == 2 && ((raw >> 4u32) & 0xf) == 2
    }) by (bit_vector);
}

/// Tries to convert a PSCI power state value, whose state ID must fit in its 28 bits, into a
/// composite power state. The system power domain can't be powered down by `CPU_SUSPEND`.
pub fn try_parse_power_state(power_state: PowerState) -> (composite: Option<
    PsciCompositePowerState<QemuPowerState>,
>)
    requires
        power_state.spec_state_id() <= PowerState::STATE_ID_MASK,
    ensures
        match composite {
            Some(c) => spec_parse_power_state(power_state) == Some((c.states@, c.last_power_level->0))
                && c.last_power_level is Some,
            None => spec_parse_power_state(power_state) is None,
        },
{
    let raw = power_state.raw();
    assert(((raw & (0xfu32 << 12u32)) >> 12u32) == (raw / 0x1000) % 0x10) by (bit_vector);
    assert((raw & 0x0000_0fff) == raw % 0x1000) by (bit_vector);
    let last_at_power_level: u32 = (raw & (0xfu32 << 12u32)) >> 12u32;
    if last_at_power_level as usize > PSCI_MAX_POWER_LEVEL {
        return None;
    }
    let raw_composite_power_states = raw & 0x0000_0fff;

    if let PowerState::StandbyOrRetention(0x1) = power_state {
        return Some(
            PsciCompositePowerState::new_with_last_power_level(
                vec![QemuPowerState::Retention, QemuPowerState::On, QemuPowerState::On],
                last_at_power_level as usize,
            ),
        );
    }
    if let PowerState::StandbyOrRetention(_) = power_state {
        return None;
    }
    let composite_states = match raw_composite_power_states {
        0x2 => vec![QemuPowerState::PowerDown, QemuPowerState::On, QemuPowerState::On],
        0x12 => vec![QemuPowerState::PowerDown, QemuPowerState::Retention, QemuPowerState::On],
        0x22 => vec![QemuPowerState::PowerDown, QemuPowerState::PowerDown, QemuPowerState::On],
        // Ensure that the system power domain can't be powered down by CPU_SUSPEND. Only
        // SYSTEM_SUSPEND can do that.
        0x222 => vec![QemuPowerState::PowerDown, QemuPowerState::PowerDown, QemuPowerState::On],
        _ => return None,
    };
    Some(
        PsciCompositePowerState::new_with_last_power_level(
            composite_states,
            last_at_power_level as usize,
        ),
    )
}

/// Why a CPU is being powered down.
#[derive(PartialEq, Debug, Eq, Clone, Copy, Structural)]
pub enum PowerDownKind {
    /// For `CPU_OFF`.
    Off,
    /// For `CPU_SUSPEND`.
    Suspend,
}

/// What a CPU does at the end of its power down sequence.
#[derive(PartialEq, Debug, Eq, Clone, Copy, Structural)]
pub enum PowerDownAction {
    /// Turn off the MMU and wait in the holding pen until the CPU is turned on again.
    ColdBootHoldingPen,
    /// Wait for an interrupt, then take the warm boot entry, as real hardware would when the
    /// power down is abandoned.
    WaitThenWarmBoot,
}

/// The per-CPU power down bookkeeping of the QEMU PSCI platform.
pub struct QemuPsciPlatformImpl {
    /// Why each CPU was last asked to power down.
    pub per_cpu_powerdown_kinds: Vec<PowerDownKind>,
}

impl QemuPsciPlatformImpl {
    /// Count of all power domains.
    pub const POWER_DOMAIN_COUNT: usize = PSCI_NON_CPU_DOMAIN_COUNT + CORE_COUNT;

    /// Creates the platform, with every CPU marked as turned off.
    pub fn new() -> (platform: Self)
        ensures
            platform.per_cpu_powerdown_kinds@ == Seq::new(CORE_COUNT as nat, |i: int| PowerDownKind::Off),
    {
        let mut kinds: Vec<PowerDownKind> = Vec::new();
        let mut i: usize = 0;
        while i < CORE_COUNT
            invariant
                i <= CORE_COUNT,
                kinds@ == Seq::new(i as nat, |k: int| PowerDownKind::Off),
            decreases CORE_COUNT - i,
        {
            kinds.push(PowerDownKind::Off);
            i = i + 1;
            assert(kinds@ =~= Seq::new(i as nat, |k: int| PowerDownKind::Off));
        }
        QemuPsciPlatformImpl { per_cpu_powerdown_kinds: kinds }
    }

    /// Records that the CPU `cpu_index` is being suspended.
    pub fn power_domain_suspend(&mut self, cpu_index: usize)
        requires
            cpu_index < old(self).per_cpu_powerdown_kinds@.len(),
        ensures
            final(self).per_cpu_powerdown_kinds@ == old(self).per_cpu_powerdown_kinds@.update(
                cpu_index as int,
                PowerDownKind::Suspend,
            ),
    {
        self.per_cpu_powerdown_kinds.set(cpu_index, PowerDownKind::Suspend);
    }

    /// Records that the CPU `cpu_index` is being turned off.
    pub fn power_domain_off(&mut self, cpu_index: usize)
        requires
            cpu_index < old(self).per_cpu_powerdown_kinds@.len(),
        ensures
            final(self).per_cpu_powerdown_kinds@ == old(self).per_cpu_powerdown_kinds@.update(
                cpu_index as int,
                PowerDownKind::Off,
            ),
    {
        self.per_cpu_powerdown_kinds.set(cpu_index, PowerDownKind::Off);
    }

    /// Decides how the CPU `cpu_index` ends its power down: a CPU that was turned off goes to
    /// the holding pen, a suspended one waits and re-enters through the warm boot path.
    pub fn power_domain_power_down(&self, cpu_index: usize) -> (action: PowerDownAction)
        requires
            cpu_index < self.per_cpu_powerdown_kinds@.len(),
        ensures
            action == if self.per_cpu_powerdown_kinds@[cpu_index as int] == PowerDownKind::Off {
                PowerDownAction::ColdBootHoldingPen
            } else {
                PowerDownAction::WaitThenWarmBoot
            },
    {
        if self.per_cpu_powerdown_kinds[cpu_index] == PowerDownKind::Off {
            PowerDownAction::ColdBootHoldingPen
        } else {
            PowerDownAction::WaitThenWarmBoot
        }
    }
}

} // verus!
