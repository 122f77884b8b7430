//! The BL31 deployment for the Arm Fixed Virtual Platform: memory map helpers, core numbering
//! and the platform's PSCI power states.

use vstd::prelude::*;

use core::ops::{Range, RangeInclusive};

use crate::gicv3::{Group, IntId, InterruptConfig, SecureIntGroup, Trigger, HIGHEST_S_PRIORITY};
use crate::platform::fvp::{FVP_CLUSTER_COUNT, FVP_MAX_CPUS_PER_CLUSTER, FVP_MAX_PE_PER_CPU};
use crate::services::psci::{
    has_type, spec_is_valid_suspend_request, CPU_POWER_LEVEL, ErrorCode, HwState, Mpidr,
    PlatformPowerStateInterface, PowerState, PowerStateType, PsciCompositePowerState,
};
use crate::sysregs::MpidrEl1;

verus! {

/// The lower bound of an inclusive range; its value is unspecified once the range has been
/// iterated to exhaustion.
pub assume_specification<Idx>[ RangeInclusive::<Idx>::start ](r: &RangeInclusive<Idx>) -> (start:
    &Idx)
    ensures
        !r@.exhausted ==> *start == r@.start,
;

/// The upper bound of an inclusive range; its value is unspecified once the range has been
/// iterated to exhaustion.
pub assume_specification<Idx>[ RangeInclusive::<Idx>::end ](r: &RangeInclusive<Idx>) -> (end:
    &Idx)
    ensures
        !r@.exhausted ==> *end == r@.end,
;

/// 2MB, the alignment of the device regions.
pub const ALIGN_2MB: usize = 0x20_0000;

/// Converts `RangeInclusive` into `Range`.
pub fn from_inclusive_range(range_inclusive: &RangeInclusive<usize>) -> (range: Range<usize>)
    requires
        !range_inclusive@.exhausted,
        range_inclusive@.end < usize::MAX,
    ensures
        range.start == range_inclusive@.start,
        range.end == range_inclusive@.end + 1,
{
    *range_inclusive.start()..*range_inclusive.end() + 1
}

/// `x` rounded down to a multiple of 2MB.
pub open spec fn spec_align_down_2mb(x: nat) -> nat {
    x / 0x20_0000 * 0x20_0000
}

/// `x` rounded up to a multiple of 2MB.
pub open spec fn spec_align_up_2mb(x: nat) -> nat {
    (x + 0x1f_ffff) / 0x20_0000 * 0x20_0000
}

/// Returns a 2MB aligned `Range` that covers the `start` and `end` ranges, which must be in
/// order.
pub fn aligned_range_covering(start: &RangeInclusive<usize>, end: &RangeInclusive<usize>) -> (range:
    Range<usize>)
    requires
        !start@.exhausted,
        !end@.exhausted,
        start@.end < end@.start,
        end@.end < usize::MAX,
        spec_align_up_2mb((end@.end + 1) as nat) <= usize::MAX,
    ensures
        range.start == spec_align_down_2mb(start@.start as nat),
        range.end == spec_align_up_2mb((end@.end + 1) as nat),
{
    let start_start = *start.start();
    let end_end = *end.end();
    assert((start_start & !0x1f_ffffusize) == start_start / 0x20_0000 * 0x20_0000) by (bit_vector);
    let start_address = start_start & !(ALIGN_2MB - 1);
    let past_end = end_end + 1;
    let remainder = past_end % ALIGN_2MB;
    let end_address = if remainder == 0 {
        past_end
    } else {
        past_end - remainder + ALIGN_2MB
    };
    proof {
        let x = past_end as int;
        vstd::arithmetic::div_mod::lemma_fundamental_div_mod(x, 0x20_0000);
        vstd::arithmetic::div_mod::lemma_fundamental_div_mod(x + 0x1f_ffff, 0x20_0000);
        if remainder == 0 {
            assert((x + 0x1f_ffff) / 0x20_0000 == x / 0x20_0000) by (nonlinear_arith)
                requires
                    x == 0x20_0000 * (x / 0x20_0000),
                    x + 0x1f_ffff == 0x20_0000 * ((x + 0x1f_ffff) / 0x20_0000) + (x + 0x1f_ffff) % 0x20_0000,
                    0 <= (x + 0x1f_ffff) % 0x20_0000 < 0x20_0000,
            ;
        } else {
            assert((x + 0x1f_ffff) / 0x20_0000 == x / 0x20_0000 + 1) by (nonlinear_arith)
                requires
                    x == 0x20_0000 * (x / 0x20_0000) + x % 0x20_0000,
                    0 < x % 0x20_0000 < 0x20_0000,
                    x + 0x1f_ffff == 0x20_0000 * ((x + 0x1f_ffff) / 0x20_0000) + (x + 0x1f_ffff) % 0x20_0000,
                    0 <= (x + 0x1f_ffff) % 0x20_0000 < 0x20_0000,
            ;
        }
    }
    start_address..end_address
}

/// The aligned range from `aligned_range_covering` starts at or below the first range, ends
/// above the last one, is made of whole 2MB blocks, and starts and ends within a block of them.
pub proof fn lemma_aligned_range_covers(first: nat, last: nat)
    ensures
        spec_align_down_2mb(first) <= first < spec_align_down_2mb(first) + 0x20_0000,
        spec_align_down_2mb(first) % 0x20_0000 == 0,
        last < spec_align_up_2mb(last + 1) <= last + 0x20_0000,
        spec_align_up_2mb(last + 1) % 0x20_0000 == 0,
{
    vstd::arithmetic::div_mod::lemma_fundamental_div_mod(first as int, 0x20_0000);
    vstd::arithmetic::div_mod::lemma_fundamental_div_mod((last + 0x20_0000) as int, 0x20_0000);
    vstd::arithmetic::div_mod::lemma_mod_multiples_basic((first / 0x20_0000) as int, 0x20_0000);
    vstd::arithmetic::div_mod::lemma_mod_multiples_basic(
        ((last + 0x20_0000) / 0x20_0000) as int,
        0x20_0000,
    );
}

/// Returns the interrupt configuration of secure SGI `index`: group 1 secure, edge triggered,
/// of the highest priority.
pub fn secure_sgi_configuration(index: u32) -> (entry: (IntId, InterruptConfig))
    requires
        index < IntId::SGI_COUNT,
    ensures
        entry.0 == IntId(index),
        entry.1 == (InterruptConfig {
            priority: HIGHEST_S_PRIORITY,
            group: Group::Secure(SecureIntGroup::Group1S),
            trigger: Trigger::Edge,
        }),
{
    (
        IntId::sgi(index),
        InterruptConfig {
            priority: HIGHEST_S_PRIORITY,
            group: Group::Secure(SecureIntGroup::Group1S),
            trigger: Trigger::Edge,
        },
    )
}

/// Whether the region `region` contains the address `address`.
pub open spec fn region_contains(region: Range<usize>, address: int) -> bool {
    region.start <= address < region.end
}

/// Returns whether one of the device regions `regions` contains the whole of the `size` bytes at
/// physical address `pa`: a peripheral that lies there may be mapped.
pub fn device_regions_include(regions: &[Range<usize>], pa: usize, size: usize) -> (included: bool)
    requires
        size >= 1,
        pa + size - 1 <= usize::MAX,
    ensures
        included == exists|i: int|
            0 <= i < regions@.len() && region_contains(#[trigger] regions@[i], pa as int)
                && region_contains(regions@[i], pa + size - 1),
{
    let start = pa;
    let end = pa + (size - 1);
    let mut i: usize = 0;
    while i < regions.len()
        invariant
            i <= regions@.len(),
            start == pa,
            end == pa + size - 1,
            forall|j: int|
                0 <= j < i ==> !(region_contains(#[trigger] regions@[j], start as int) && region_contains(
                    regions@[j],
                    end as int,
                )),
        decreases regions@.len() - i,
    {
        let region = &regions[i];
        if region.start <= start && start < region.end && region.start <= end && end < region.end {
            assert(region_contains(regions@[i as int], pa as int));
            return true;
        }
        i = i + 1;
    }
    false
}

/// Whether the `MPIDR_EL1` value `mpidr` names a core of the FVP. Without the MT bit the
/// affinity fields are one level lower.
pub open spec fn spec_mpidr_is_valid(mpidr: MpidrEl1) -> bool {
    if mpidr.spec_mt() {
        &&& mpidr.spec_aff(3) == 0
        &&& mpidr.spec_aff(2) < FVP_CLUSTER_COUNT
        &&& mpidr.spec_aff(1) < FVP_MAX_CPUS_PER_CLUSTER
        &&& mpidr.spec_aff(0) < FVP_MAX_PE_PER_CPU
    } else {
        &&& mpidr.spec_aff(3) == 0
        &&& mpidr.spec_aff(2) == 0
        &&& mpidr.spec_aff(1) < FVP_CLUSTER_COUNT
        &&& mpidr.spec_aff(0) < FVP_MAX_CPUS_PER_CLUSTER
    }
}

/// The cluster, CPU and thread numbers of the core that `mpidr` names.
pub open spec fn spec_core_coordinates(mpidr: MpidrEl1) -> (nat, nat, nat) {
    if mpidr.spec_mt() {
        (mpidr.spec_aff(2), mpidr.spec_aff(1), mpidr.spec_aff(0))
    } else {
        (mpidr.spec_aff(1), mpidr.spec_aff(0), 0)
    }
}

/// The linear core index: ClusterId * FVP_MAX_CPUS_PER_CLUSTER * FVP_MAX_PE_PER_CPU + CPUId *
/// FVP_MAX_PE_PER_CPU + ThreadId.
pub open spec fn spec_core_position(mpidr: MpidrEl1) -> nat {
    let (cluster, cpu, thread) = spec_core_coordinates(mpidr);
    ((cluster * FVP_MAX_CPUS_PER_CLUSTER + cpu) * FVP_MAX_PE_PER_CPU + thread) as nat
}

/// Returns whether the given MPIDR is valid for this platform.
pub fn mpidr_is_valid(mpidr: MpidrEl1) -> (valid: bool)
    ensures
        valid == spec_mpidr_is_valid(mpidr),
{
    if mpidr.mt() {
        mpidr.aff3() == 0 && (mpidr.aff2() as usize) < FVP_CLUSTER_COUNT && (mpidr.aff1() as usize)
            < FVP_MAX_CPUS_PER_CLUSTER && (mpidr.aff0() as usize) < FVP_MAX_PE_PER_CPU
    } else {
        mpidr.aff3() == 0 && mpidr.aff2() == 0 && (mpidr.aff1() as usize) < FVP_CLUSTER_COUNT
            && (mpidr.aff0() as usize) < FVP_MAX_CPUS_PER_CLUSTER
    }
}

/// Calculates the linear core index of the core that `mpidr` names.
pub fn core_position(mpidr: MpidrEl1) -> (position: usize)
    ensures
        position == spec_core_position(mpidr),
{
    let (cluster, cpu, thread) = if mpidr.mt() {
        (mpidr.aff2() as usize, mpidr.aff1() as usize, mpidr.aff0() as usize)
    } else {
        (mpidr.aff1() as usize, mpidr.aff0() as usize, 0usize)
    };
    (cluster * FVP_MAX_CPUS_PER_CLUSTER + cpu) * FVP_MAX_PE_PER_CPU + thread
}

/// Valid MPIDRs name cores below the core count, and distinct cores have distinct positions:
/// two valid MPIDRs of the same MT setting with the same position have the same affinity fields.
pub proof fn lemma_core_position_unique(a: MpidrEl1, b: MpidrEl1)
    requires
        spec_mpidr_is_valid(a),
        spec_mpidr_is_valid(b),
    ensures
        spec_core_position(a) < FVP_CLUSTER_COUNT * FVP_MAX_CPUS_PER_CLUSTER * FVP_MAX_PE_PER_CPU,
        spec_core_position(a) == spec_core_position(b) ==> spec_core_coordinates(a)
            == spec_core_coordinates(b),
        a.spec_mt() == b.spec_mt() && spec_core_position(a) == spec_core_position(b) ==> {
            &&& a.spec_aff(0) == b.spec_aff(0)
            &&& a.spec_aff(1) == b.spec_aff(1)
            &&& a.spec_aff(2) == b.spec_aff(2)
            &&& a.spec_aff(3) == b.spec_aff(3)
        },
{
}

/// The power states of the FVP, from running to powered down.
#[derive(PartialEq, Debug, Eq, Clone, Copy, Structural)]
pub enum FvpPowerState {
    Run,
    Retention,
    Off,
}

impl PlatformPowerStateInterface for FvpPowerState {
    open spec fn spec_depth(self) -> nat {
        match self {
            FvpPowerState::Run => 0,
            FvpPowerState::Retention => 1,
            FvpPowerState::Off => 2,
        }
    }

    open spec fn spec_power_state_type(self) -> PowerStateType {
        match self {
            FvpPowerState::Run => PowerStateType::Run,
            FvpPowerState::Retention => PowerStateType::StandbyOrRetention,
            FvpPowerState::Off => PowerStateType::PowerDown,
        }
    }

    open spec fn spec_off() -> Self {
        FvpPowerState::Off
    }

    open spec fn spec_run() -> Self {
        FvpPowerState::Run
    }

    fn off() -> (state: Self) {
        FvpPowerState::Off
    }

    fn run() -> (state: Self) {
        FvpPowerState::Run
    }

    fn power_state_type(&self) -> (state_type: PowerStateType) {
        match self {
            FvpPowerState::Run => PowerStateType::Run,
            FvpPowerState::Retention => PowerStateType::StandbyOrRetention,
            FvpPowerState::Off => PowerStateType::PowerDown,
        }
    }

    fn depth(&self) -> (depth: usize) {
        match self {
            FvpPowerState::Run => 0,
            FvpPowerState::Retention => 1,
            FvpPowerState::Off => 2,
        }
    }

    proof fn lemma_order(a: Self, b: Self) {
    }
}

impl From<FvpPowerState> for usize {
    fn from(value: FvpPowerState) -> (index: usize)
        ensures
            index == value.spec_depth(),
    {
        value.depth()
    }
}

impl vstd::std_specs::convert::FromSpecImpl<FvpPowerState> for usize {
    open spec fn obeys_from_spec() -> bool {
        true
    }

    open spec fn from_spec(v: FvpPowerState) -> usize {
        v.spec_depth() as usize
    }
}

/// The maximal power level of the FVP topology.
pub const PSCI_MAX_POWER_LEVEL: usize = 2;
/// The number of power levels.
pub const PSCI_STATE_COUNT: usize = 3;
/// The number of power domains that are not CPUs: the system and the clusters.
pub const PSCI_NON_CPU_DOMAIN_COUNT: usize = 1 + FVP_CLUSTER_COUNT;
/// The power level of clusters.
pub const CLUSTER_POWER_LEVEL: usize = 1;

/// Returns the power domain topology as the count of child nodes in a BFS traversal order: one
/// system, its clusters, and the CPUs of each cluster.
pub fn topology() -> (topology: Vec<usize>)
    ensures
        topology@.len() == 2 + FVP_CLUSTER_COUNT,
        topology@[0] == 1,
        topology@[1] == FVP_CLUSTER_COUNT,
        forall|i: int| 2 <= i < 2 + FVP_CLUSTER_COUNT ==> topology@[i] == FVP_MAX_CPUS_PER_CLUSTER,
{
    let mut topology: Vec<usize> = Vec::new();
    topology.push(1);
    topology.push(FVP_CLUSTER_COUNT);
    let mut i: usize = 0;
    while i < FVP_CLUSTER_COUNT
        invariant
            i <= FVP_CLUSTER_COUNT,
            topology@.len() == 2 + i,
            topology@[0] == 1,
            topology@[1] == FVP_CLUSTER_COUNT,
            forall|j: int| 2 <= j < 2 + i ==> topology@[j] == FVP_MAX_CPUS_PER_CLUSTER,
        decreases FVP_CLUSTER_COUNT - i,
    {
        topology.push(FVP_MAX_CPUS_PER_CLUSTER);
        i = i + 1;
    }
    topology
}

/// The composite state (states of each level, and the last power level when the request gives
/// one) that a `CPU_SUSPEND` power state parameter requests on the FVP, following the recommended
/// StateID encoding: a 4-bit local state per level, and the last power level above them.
pub open spec fn spec_parse_power_state(power_state: PowerState) -> Option<(Seq<FvpPowerState>, Option<usize>)> {
    match power_state {
        PowerState::StandbyOrRetention(id) => if id == 1 {
            Some((seq![FvpPowerState::Retention, FvpPowerState::Run, FvpPowerState::Run], None))
        } else {
            None
        },
        PowerState::PowerDown(value) => {
            let local = value % 0x1000;
            let last = (value / 0x1000) % 0x10;
            if last > PSCI_MAX_POWER_LEVEL {
                None
            } else if local == 0x002 {
                Some((seq![FvpPowerState::Off, FvpPowerState::Run, FvpPowerState::Run], Some(last as usize)))
            } else if local == 0x022 || local == 0x222 {
                Some((seq![FvpPowerState::Off, FvpPowerState::Off, FvpPowerState::Run], Some(last as usize)))
            } else {
                None
            }
        },
    }
}

/// The FVP supports exactly the standby state ID 1 and the power down states whose local states
/// are `0x002`, `0x022` or `0x222` with a last power level up to the system's; each composite
/// state it parses keeps the system level running and is a valid suspend request of its kind.
pub proof fn lemma_parsed_power_states(power_state: PowerState)
    ensures
        spec_parse_power_state(power_state) is Some <==> match power_state {
            PowerState::StandbyOrRetention(id) => id == 1,
            PowerState::PowerDown(value) => {
                let local = value % 0x1000;
                &&& local == 0x002 || local == 0x022 || local == 0x222
                &&& (value / 0x1000) % 0x10 <= PSCI_MAX_POWER_LEVEL
            },
        },
        spec_parse_power_state(power_state) matches Some((states, _)) ==> {
            &&& states.len() == PSCI_STATE_COUNT
            &&& states[PSCI_MAX_POWER_LEVEL as int] == FvpPowerState::Run
            &&& spec_is_valid_suspend_request(states, power_state is PowerDown)
        },
{
    if let Some((states, _)) = spec_parse_power_state(power_state) {
        assert(has_type(states[0], if power_state is PowerDown {
            PowerStateType::PowerDown
        } else {
            PowerStateType::StandbyOrRetention
        }));
    }
}

/// In a power down state of the FVP, each level below the system takes the state that its 4-bit
/// local state field asks for: `2` powers it off and `0` keeps it running; the system level
/// always keeps running, and the last power level is the field above the local states. The
/// standby state asks for retention of the CPU alone.
pub proof fn lemma_parsed_levels_follow_local_states(power_state: PowerState)
    ensures
        power_state matches PowerState::PowerDown(value) ==> (
        spec_parse_power_state(power_state) matches Some((states, last)) ==> {
            &&& (states[CPU_POWER_LEVEL as int] == FvpPowerState::Off <==> value & 0xf == 2)
            &&& (states[CPU_POWER_LEVEL as int] == FvpPowerState::Run <==> value & 0xf == 0)
            &&& (states[CLUSTER_POWER_LEVEL as int] == FvpPowerState::Off <==> (value >> 4u32) & 0xf
                == 2)
            &&& (states[CLUSTER_POWER_LEVEL as int] == FvpPowerState::Run <==> (value >> 4u32) & 0xf
                == 0)
            &&& states[PSCI_MAX_POWER_LEVEL as int] == FvpPowerState::Run
            &&& last == Some(((value >> 12u32) & 0xf) as usize)
        }),
        power_state matches PowerState::StandbyOrRetention(id) ==> (
        spec_parse_power_state(power_state) matches Some((states, last)) ==> {
            &&& states[CPU_POWER_LEVEL as int] == FvpPowerState::Retention
            &&& states[CLUSTER_POWER_LEVEL as int] == FvpPowerState::Run
            &&& states[PSCI_MAX_POWER_LEVEL as int] == FvpPowerState::Run
            &&& last is None
        }),
{
    if let PowerState::PowerDown(value) = power_state {
        assert({
            &&& value % 0x1000 == 0x002 ==> (value & 0xf) == 2 && ((value >> 4u32) & 0xf) == 0
            &&& value % 0x1000 == 0x022 ==> (value & 0xf) == 2 && ((value >> 4u32) & 0xf) == 2
            &&& value % 0x1000 == 0x222 ==> (value & 0xf) == 2 && ((value >> 4u32) & 0xf) == 2
            &&& ((value >> 12u32) & 0xf) == (value / 0x1000) % 0x10
        }) by (bit_vector);
    }
}

/// The steps of the FVP's power controller sequences follow the target or previous composite
/// state level by level: the cluster is powered off, on suspend and on turning the CPU off,
/// exactly when the cluster level goes off, and the power up clears a pending cluster power off
/// exactly when the cluster level was off, whatever the system level; the system context is
/// saved and restored exactly when the system level goes or was off; a power down suspend and a
/// turn off always power the CPU off, as the last step of a suspend and after the CPU interface
/// is disabled.
pub proof fn lemma_power_actions_follow_levels(states: Seq<FvpPowerState>)
    requires
        states.len() == PSCI_STATE_COUNT,
        states[CPU_POWER_LEVEL as int] == FvpPowerState::Off,
    ensures
        spec_off_actions(states).contains(FvpPowerAction::PowerOffCluster) <==> states[CLUSTER_POWER_LEVEL as int]
            == FvpPowerState::Off,
        spec_off_actions(states).contains(FvpPowerAction::PowerOffProcessor),
        spec_off_actions(states).index_of(FvpPowerAction::DisableCpuInterface) < spec_off_actions(
            states,
        ).index_of(FvpPowerAction::PowerOffProcessor),
        spec_suspend_actions(states).contains(FvpPowerAction::PowerOffCluster) <==> states[CLUSTER_POWER_LEVEL as int]
            == FvpPowerState::Off,
        spec_suspend_actions(states).contains(FvpPowerAction::SaveSystemPowerDomain) <==> states[PSCI_MAX_POWER_LEVEL as int]
            == FvpPowerState::Off,
        spec_suspend_actions(states).last() == FvpPowerAction::PowerOffProcessor,
        spec_on_finish_common_actions(states).contains(FvpPowerAction::PowerOnProcessor) <==> states[CLUSTER_POWER_LEVEL as int]
            == FvpPowerState::Off,
        spec_on_finish_common_actions(states).contains(FvpPowerAction::RestoreSystemPowerDomain)
            <==> states[PSCI_MAX_POWER_LEVEL as int] == FvpPowerState::Off,
{
    let off = spec_off_actions(states);
    let suspend = spec_suspend_actions(states);
    let on = spec_on_finish_common_actions(states);
    assert(off[0] == FvpPowerAction::DisableCpuInterface);
    assert(off[2] == FvpPowerAction::PowerOffProcessor);
    assert(off.index_of(FvpPowerAction::DisableCpuInterface) == 0);
    if states[CLUSTER_POWER_LEVEL as int] == FvpPowerState::Off {
        assert(off[3] == FvpPowerAction::PowerOffCluster);
        assert(suspend[2] == FvpPowerAction::PowerOffCluster);
        assert(on[0] == FvpPowerAction::PowerOnProcessor);
    } else {
        assert(off =~= seq![
            FvpPowerAction::DisableCpuInterface,
            FvpPowerAction::RedistributorOff,
            FvpPowerAction::PowerOffProcessor,
        ]);
    }
    if states[PSCI_MAX_POWER_LEVEL as int] == FvpPowerState::Off {
        assert(suspend[suspend.len() - 2] == FvpPowerAction::SaveSystemPowerDomain);
        assert(on[on.len() - 3] == FvpPowerAction::RestoreSystemPowerDomain);
    }
}

/// The power up of the CPU undoes what its power down did: the wake-up from a power down
/// suspend clears a pending cluster power off exactly when the suspend powered the cluster off,
/// restores the system context exactly when the suspend saved it, enables the CPU interface
/// that the suspend disabled and disables the wake-up requests that it enabled; the power up
/// after a turn off clears a pending cluster power off exactly when the turn off powered the
/// cluster off, and initialises the redistributor that it marked asleep.
pub proof fn lemma_power_up_undoes_power_down(states: Seq<FvpPowerState>)
    requires
        states.len() == PSCI_STATE_COUNT,
        states[CPU_POWER_LEVEL as int] == FvpPowerState::Off,
    ensures
        ({
            let suspend = spec_suspend_actions(states);
            let wake = spec_on_finish_common_actions(states).push(FvpPowerAction::EnableCpuInterface);
            &&& suspend.contains(FvpPowerAction::PowerOffCluster) <==> wake.contains(
                FvpPowerAction::PowerOnProcessor,
            )
            &&& suspend.contains(FvpPowerAction::SaveSystemPowerDomain) <==> wake.contains(
                FvpPowerAction::RestoreSystemPowerDomain,
            )
            &&& suspend.contains(FvpPowerAction::DisableCpuInterface)
            &&& wake.contains(FvpPowerAction::EnableCpuInterface)
            &&& suspend.contains(FvpPowerAction::EnableWakeupRequests)
            &&& wake.contains(FvpPowerAction::DisableWakeupRequests)
        }),
        ({
            let off = spec_off_actions(states);
            let on = spec_on_finish_common_actions(states).push(FvpPowerAction::RedistributorInit).push(
                FvpPowerAction::EnableCpuInterface,
            );
            &&& off.contains(FvpPowerAction::PowerOffCluster) <==> on.contains(
                FvpPowerAction::PowerOnProcessor,
            )
            &&& off.contains(FvpPowerAction::RedistributorOff)
            &&& on.contains(FvpPowerAction::RedistributorInit)
        }),
{
    let suspend = spec_suspend_actions(states);
    let common = spec_on_finish_common_actions(states);
    let wake = common.push(FvpPowerAction::EnableCpuInterface);
    let off = spec_off_actions(states);
    let on = common.push(FvpPowerAction::RedistributorInit).push(FvpPowerAction::EnableCpuInterface);
    lemma_power_actions_follow_levels(states);
    assert(suspend[0] == FvpPowerAction::EnableWakeupRequests);
    assert(suspend[1] == FvpPowerAction::DisableCpuInterface);
    assert(off[1] == FvpPowerAction::RedistributorOff);
    assert(wake[wake.len() - 1] == FvpPowerAction::EnableCpuInterface);
    assert(wake[wake.len() - 3] == FvpPowerAction::DisableWakeupRequests);
    assert(on[on.len() - 2] == FvpPowerAction::RedistributorInit);
    if common.contains(FvpPowerAction::PowerOnProcessor) {
        let i = choose|i: int| 0 <= i < common.len() && common[i] == FvpPowerAction::PowerOnProcessor;
        assert(wake[i] == FvpPowerAction::PowerOnProcessor);
        assert(on[i] == FvpPowerAction::PowerOnProcessor);
    }
    if wake.contains(FvpPowerAction::PowerOnProcessor) {
        let i = choose|i: int| 0 <= i < wake.len() && wake[i] == FvpPowerAction::PowerOnProcessor;
        assert(i < common.len());
        assert(common[i] == FvpPowerAction::PowerOnProcessor);
    }
    if on.contains(FvpPowerAction::PowerOnProcessor) {
        let i = choose|i: int| 0 <= i < on.len() && on[i] == FvpPowerAction::PowerOnProcessor;
        assert(i < common.len());
        assert(common[i] == FvpPowerAction::PowerOnProcessor);
    }
    if common.contains(FvpPowerAction::RestoreSystemPowerDomain) {
        let i = choose|i: int| 0 <= i < common.len() && common[i] == FvpPowerAction::RestoreSystemPowerDomain;
        assert(wake[i] == FvpPowerAction::RestoreSystemPowerDomain);
    }
    if wake.contains(FvpPowerAction::RestoreSystemPowerDomain) {
        let i = choose|i: int| 0 <= i < wake.len() && wake[i] == FvpPowerAction::RestoreSystemPowerDomain;
        assert(i < common.len());
        assert(common[i] == FvpPowerAction::RestoreSystemPowerDomain);
    }
}

/// Tries to convert a PSCI power state value into a composite power state.
///
/// The system power domain is never suspended through `CPU_SUSPEND`: a request for it keeps the
/// system level running.
pub fn try_parse_power_state(power_state: PowerState) -> (composite: Option<
    PsciCompositePowerState<FvpPowerState>,
>)
    ensures
        match composite {
            Some(c) => spec_parse_power_state(power_state) == Some((c.states@, c.last_power_level)),
            None => spec_parse_power_state(power_state) is None,
        },
{
    if let PowerState::StandbyOrRetention(0x01) = power_state {
        return Some(
            PsciCompositePowerState::new(
                vec![FvpPowerState::Retention, FvpPowerState::Run, FvpPowerState::Run],
            ),
        );
    }
    let value = match power_state {
        PowerState::PowerDown(v) => v,
        _ => return None,
    };
    assert((value & 0x0000_0fff) == value % 0x1000) by (bit_vector);
    assert(((value >> 12) & 0xf) == (value / 0x1000) % 0x10) by (bit_vector);
    let states = match value & 0x0000_0fff {
        0x002 => vec![FvpPowerState::Off, FvpPowerState::Run, FvpPowerState::Run],
        0x022 => vec![FvpPowerState::Off, FvpPowerState::Off, FvpPowerState::Run],
        0x222 => vec![FvpPowerState::Off, FvpPowerState::Off, FvpPowerState::Run],
        _ => return None,
    };
    let last_at_power_level = ((value >> 12) & 0xf) as usize;
    if last_at_power_level > PSCI_MAX_POWER_LEVEL {
        return None;
    }
    Some(PsciCompositePowerState::new_with_last_power_level(states, last_at_power_level))
}

/// The power controller status bit that tells whether a power domain is on.
#[derive(PartialEq, Debug, Eq, Clone, Copy, Structural)]
pub enum SystemStatusLevel {
    /// Affinity level 0: the core.
    L0,
    /// Affinity level 1.
    L1,
    /// Affinity level 2.
    L2,
}

/// The raw MPIDR of `target_cpu` and the status bit that `NODE_HW_STATE` reads for it at
/// `power_level`: the core bit at the CPU level; at the cluster level, the level 1 bit when the
/// MPIDR's lowest bit is clear and the level 2 bit otherwise.
pub open spec fn spec_node_hw_state_query(target_cpu: Mpidr, power_level: u32) -> Result<(u32, SystemStatusLevel), ErrorCode> {
    match target_cpu.spec_to_u32() {
        None => Err(ErrorCode::InvalidParameters),
        Some(raw) => if power_level == CPU_POWER_LEVEL {
            Ok((raw, SystemStatusLevel::L0))
        } else if power_level == CLUSTER_POWER_LEVEL {
            Ok((raw, if raw % 2 == 0 { SystemStatusLevel::L1 } else { SystemStatusLevel::L2 }))
        } else {
            Err(ErrorCode::InvalidParameters)
        },
    }
}

/// Decides what `NODE_HW_STATE` must read from the power controller for `target_cpu` at
/// `power_level`.
pub fn node_hw_state_query(target_cpu: Mpidr, power_level: u32) -> (query: Result<
    (u32, SystemStatusLevel),
    ErrorCode,
>)
    ensures
        query == spec_node_hw_state_query(target_cpu, power_level),
{
    let raw_mpidr = match target_cpu.to_u32() {
        Some(raw) => raw,
        None => return Err(ErrorCode::InvalidParameters),
    };
    let level = power_level as usize;
    if level == CPU_POWER_LEVEL {
        Ok((raw_mpidr, SystemStatusLevel::L0))
    } else if level == CLUSTER_POWER_LEVEL {
        assert((raw_mpidr & 0x1 == 0) == (raw_mpidr % 2 == 0)) by (bit_vector);
        // Bit 0 of the MPIDR value selects the status level: L1 when clear, L2 when set.
        if raw_mpidr & 0x1 == 0 {
            Ok((raw_mpidr, SystemStatusLevel::L1))
        } else {
            Ok((raw_mpidr, SystemStatusLevel::L2))
        }
    } else {
        Err(ErrorCode::InvalidParameters)
    }
}

/// The hardware state of a power domain whose status bit reads `status_bit_set`.
pub fn node_hw_state_from_status(status_bit_set: bool) -> (state: HwState)
    ensures
        state == if status_bit_set { HwState::On } else { HwState::Off },
{
    if status_bit_set {
        HwState::On
    } else {
        HwState::Off
    }
}

/// A step that the FVP takes to change the power state of the calling CPU and its domains.
#[derive(PartialEq, Debug, Eq, Clone, Copy, Structural)]
pub enum FvpPowerAction {
    /// Lets interrupts wake the CPU up (sets `PWKUPR.WEN`).
    EnableWakeupRequests,
    /// Stops interrupts from waking the CPU up (clears `PWKUPR.WEN`).
    DisableWakeupRequests,
    /// Disables the GIC CPU interface.
    DisableCpuInterface,
    /// Enables the GIC CPU interface.
    EnableCpuInterface,
    /// Marks the GIC redistributor of the CPU as asleep.
    RedistributorOff,
    /// Initialises the GIC redistributor of the CPU with the platform's interrupt configuration.
    RedistributorInit,
    /// Asks the power controller to power the CPU off.
    PowerOffProcessor,
    /// Asks the power controller to power the CPU's cluster off.
    PowerOffCluster,
    /// Tells the power controller that the CPU is on, clearing a pending cluster power off.
    PowerOnProcessor,
    /// Saves the GIC distributor and redistributor context.
    SaveSystemPowerDomain,
    /// Restores the GIC distributor and redistributor context.
    RestoreSystemPowerDomain,
    /// Sets the counter frequency of the CPU from the system timer.
    SetCounterFrequency,
}

/// Whether `states` is an FVP composite state whose CPU level is in state `state`.
pub open spec fn cpu_level_is(states: Seq<FvpPowerState>, state: FvpPowerState) -> bool {
    states.len() > CLUSTER_POWER_LEVEL && states[CPU_POWER_LEVEL as int] == state
}

/// `action` if `condition` holds, and nothing otherwise.
pub open spec fn step_if(condition: bool, action: FvpPowerAction) -> Seq<FvpPowerAction> {
    if condition {
        seq![action]
    } else {
        Seq::empty()
    }
}

/// The steps of a power down suspend to `states`: wake-up requests enabled, the CPU interface
/// disabled, the cluster powered off if it goes off, the system context saved if the system
/// goes off, and the CPU powered off. A retention needs no step.
pub open spec fn spec_suspend_actions(states: Seq<FvpPowerState>) -> Seq<FvpPowerAction> {
    if states[CPU_POWER_LEVEL as int] == FvpPowerState::Retention {
        Seq::empty()
    } else {
        seq![FvpPowerAction::EnableWakeupRequests, FvpPowerAction::DisableCpuInterface]
            + step_if(states[CLUSTER_POWER_LEVEL as int] == FvpPowerState::Off, FvpPowerAction::PowerOffCluster)
            + step_if(states.last() == FvpPowerState::Off, FvpPowerAction::SaveSystemPowerDomain)
            + seq![FvpPowerAction::PowerOffProcessor]
    }
}

/// The steps of turning the CPU off to `states`: the CPU interface disabled, the redistributor
/// marked asleep, the CPU powered off, then the cluster if it goes off.
pub open spec fn spec_off_actions(states: Seq<FvpPowerState>) -> Seq<FvpPowerAction> {
    seq![
        FvpPowerAction::DisableCpuInterface,
        FvpPowerAction::RedistributorOff,
        FvpPowerAction::PowerOffProcessor,
    ] + step_if(states[CLUSTER_POWER_LEVEL as int] == FvpPowerState::Off, FvpPowerAction::PowerOffCluster)
}

/// The steps that every power up from `previous` takes: a pending cluster power off cleared if
/// the cluster was off, the system context restored if the system was off, wake-up requests
/// disabled and the counter frequency set.
pub open spec fn spec_on_finish_common_actions(previous: Seq<FvpPowerState>) -> Seq<FvpPowerAction> {
    step_if(previous[CLUSTER_POWER_LEVEL as int] == FvpPowerState::Off, FvpPowerAction::PowerOnProcessor)
        + step_if(previous.last() == FvpPowerState::Off, FvpPowerAction::RestoreSystemPowerDomain)
        + seq![FvpPowerAction::DisableWakeupRequests, FvpPowerAction::SetCounterFrequency]
}

/// Returns the steps of a suspend of the calling CPU to the composite state `target_state`.
pub fn power_domain_suspend(target_state: &PsciCompositePowerState<FvpPowerState>) -> (actions: Vec<
    FvpPowerAction,
>)
    requires
        cpu_level_is(target_state.states@, FvpPowerState::Retention) || cpu_level_is(
            target_state.states@,
            FvpPowerState::Off,
        ),
    ensures
        actions@ == spec_suspend_actions(target_state.states@),
{
    let mut actions: Vec<FvpPowerAction> = Vec::new();
    // FVP has retention only at cpu level: nothing is to be done for retention.
    if target_state.cpu_level_state() == FvpPowerState::Retention {
        return actions;
    }
    actions.push(FvpPowerAction::EnableWakeupRequests);
    // Prevent interrupts from spuriously waking up this cpu.
    actions.push(FvpPowerAction::DisableCpuInterface);
    if target_state.states[CLUSTER_POWER_LEVEL] == FvpPowerState::Off {
        actions.push(FvpPowerAction::PowerOffCluster);
    }
    if target_state.highest_level_state() == FvpPowerState::Off {
        actions.push(FvpPowerAction::SaveSystemPowerDomain);
    }
    actions.push(FvpPowerAction::PowerOffProcessor);
    assert(actions@ =~= spec_suspend_actions(target_state.states@));
    actions
}

/// Returns the steps of turning the calling CPU off to the composite state `target_state`.
pub fn power_domain_off(target_state: &PsciCompositePowerState<FvpPowerState>) -> (actions: Vec<
    FvpPowerAction,
>)
    requires
        cpu_level_is(target_state.states@, FvpPowerState::Off),
    ensures
        actions@ == spec_off_actions(target_state.states@),
{
    let mut actions: Vec<FvpPowerAction> = Vec::new();
    actions.push(FvpPowerAction::DisableCpuInterface);
    actions.push(FvpPowerAction::RedistributorOff);
    actions.push(FvpPowerAction::PowerOffProcessor);
    if target_state.states[CLUSTER_POWER_LEVEL] == FvpPowerState::Off {
        actions.push(FvpPowerAction::PowerOffCluster);
    }
    assert(actions@ =~= spec_off_actions(target_state.states@));
    actions
}

/// Returns the steps that every power up of the calling CPU from the composite state
/// `previous_state` takes.
pub fn power_domain_on_finish_common(previous_state: &PsciCompositePowerState<FvpPowerState>) -> (actions:
    Vec<FvpPowerAction>)
    requires
        cpu_level_is(previous_state.states@, FvpPowerState::Off),
    ensures
        actions@ == spec_on_finish_common_actions(previous_state.states@),
{
    let mut actions: Vec<FvpPowerAction> = Vec::new();
    // The CPU may have woken up while its cluster was powering down: clear the pending cluster
    // power off so that a later WFI is not taken for a power down request.
    if previous_state.states[CLUSTER_POWER_LEVEL] == FvpPowerState::Off {
        actions.push(FvpPowerAction::PowerOnProcessor);
    }
    if previous_state.highest_level_state() == FvpPowerState::Off {
        actions.push(FvpPowerAction::RestoreSystemPowerDomain);
    }
    // Interrupts must not interfere with a cpu power down unless wake-ups are enabled again.
    actions.push(FvpPowerAction::DisableWakeupRequests);
    actions.push(FvpPowerAction::SetCounterFrequency);
    assert(actions@ =~= spec_on_finish_common_actions(previous_state.states@));
    actions
}

/// Returns the steps of waking the calling CPU up from a suspend to `previous_state`: none after
/// a retention, otherwise the common power up steps and the CPU interface enabled.
pub fn power_domain_suspend_finish(previous_state: &PsciCompositePowerState<FvpPowerState>) -> (actions:
    Vec<FvpPowerAction>)
    requires
        cpu_level_is(previous_state.states@, FvpPowerState::Retention) || cpu_level_is(
            previous_state.states@,
            FvpPowerState::Off,
        ),
    ensures
        actions@ == if previous_state.states@[CPU_POWER_LEVEL as int] == FvpPowerState::Retention {
            Seq::empty()
        } else {
            spec_on_finish_common_actions(previous_state.states@).push(FvpPowerAction::EnableCpuInterface)
        },
{
    if previous_state.cpu_level_state() == FvpPowerState::Retention {
        return Vec::new();
    }
    let mut actions = power_domain_on_finish_common(previous_state);
    actions.push(FvpPowerAction::EnableCpuInterface);
    actions
}

/// Returns the steps of finishing the power up of the calling CPU, turned on from
/// `previous_state`: the common power up steps, then its redistributor initialised and its CPU
/// interface enabled.
pub fn power_domain_on_finish(previous_state: &PsciCompositePowerState<FvpPowerState>) -> (actions: Vec<
    FvpPowerAction,
>)
    requires
        cpu_level_is(previous_state.states@, FvpPowerState::Off),
    ensures
        actions@ == spec_on_finish_common_actions(previous_state.states@).push(
            FvpPowerAction::RedistributorInit,
        ).push(FvpPowerAction::EnableCpuInterface),
{
    let mut actions = power_domain_on_finish_common(previous_state);
    actions.push(FvpPowerAction::RedistributorInit);
    actions.push(FvpPowerAction::EnableCpuInterface);
    actions
}

} // verus!
