//! The Power State Coordination Interface: power state types, the rules that a composite power
//! state request must follow, the platform interface, the PSCI calls that turn CPUs on and off,
//! suspend them and boot them over the power domain tree, and the PSCI service entry.

use vstd::prelude::*;

use super::{owns_range, spec_owns_range, Service};

pub mod power_domain_tree;

use self::power_domain_tree::{first_child, is_bfs_parent, is_valid_topology, PowerDomainTree};
use super::spmd_stub::SPMD;
use crate::context::World;
use crate::smccc::{FunctionId, OwningEntityNumber, SmcReturn};

verus! {

/// The lowest function number of PSCI.
pub const FUNCTION_NUMBER_MIN: u16 = 0x0000;

/// The highest function number of PSCI.
pub const FUNCTION_NUMBER_MAX: u16 = 0x001F;

/// The power level of CPUs, the lowest in the topology.
pub const CPU_POWER_LEVEL: usize = 0;

/// Function ID of `PSCI_VERSION`.
pub const PSCI_VERSION: u32 = 0x8400_0000;

/// The PSCI version that the firmware implements, 1.3, as `PSCI_VERSION` reports it: the major
/// version in bits 16 to 30 and the minor version in bits 0 to 15.
pub const PSCI_VERSION_1_3: u32 = 0x0001_0003;

/// PSCI return error codes (section 5.2.2 of the PSCI specification).
#[derive(Clone, Copy, Debug, Eq, PartialEq, Structural)]
pub enum ErrorCode {
    NotSupported,
    InvalidParameters,
    Denied,
    AlreadyOn,
    OnPending,
    InternalFailure,
    NotPresent,
    Disabled,
    InvalidAddress,
}

impl ErrorCode {
    /// The numeric value of the error code.
    pub open spec fn spec_code(self) -> i32 {
        match self {
            ErrorCode::NotSupported => -1i32,
            ErrorCode::InvalidParameters => -2i32,
            ErrorCode::Denied => -3i32,
            ErrorCode::AlreadyOn => -4i32,
            ErrorCode::OnPending => -5i32,
            ErrorCode::InternalFailure => -6i32,
            ErrorCode::NotPresent => -7i32,
            ErrorCode::Disabled => -8i32,
            ErrorCode::InvalidAddress => -9i32,
        }
    }

    /// Returns the numeric value of the error code.
    pub fn code(self) -> (code: i32)
        ensures
            code == self.spec_code(),
    {
        match self {
            ErrorCode::NotSupported => -1,
            ErrorCode::InvalidParameters => -2,
            ErrorCode::Denied => -3,
            ErrorCode::AlreadyOn => -4,
            ErrorCode::OnPending => -5,
            ErrorCode::InternalFailure => -6,
            ErrorCode::NotPresent => -7,
            ErrorCode::Disabled => -8,
            ErrorCode::InvalidAddress => -9,
        }
    }
}

/// The `power_state` parameter of `CPU_SUSPEND` in the extended StateID format: the state type
/// and the platform-specific state ID.
#[derive(Clone, Copy, Debug, Eq, PartialEq, Structural)]
pub enum PowerState {
    StandbyOrRetention(u32),
    PowerDown(u32),
}

impl PowerState {
    /// Bit 30 of the raw parameter: set for power down states.
    pub const STATE_TYPE_PD_BIT: u32 = 0x4000_0000;
    /// Bits [27:0] of the raw parameter: the state ID.
    pub const STATE_ID_MASK: u32 = 0x0fff_ffff;

    /// The state ID of the parameter.
    pub open spec fn spec_state_id(self) -> u32 {
        match self {
            PowerState::StandbyOrRetention(id) => id,
            PowerState::PowerDown(id) => id,
        }
    }

    /// The raw parameter value: the state type bit and the state ID.
    pub open spec fn spec_raw(self) -> u32 {
        match self {
            PowerState::StandbyOrRetention(id) => id,
            PowerState::PowerDown(id) => (id + 0x4000_0000) as u32,
        }
    }

    /// Returns the raw parameter value. The state ID must fit in its 28 bits.
    pub fn raw(self) -> (raw: u32)
        requires
            self.spec_state_id() <= Self::STATE_ID_MASK,
        ensures
            raw == self.spec_raw(),
    {
        match self {
            PowerState::StandbyOrRetention(id) => id,
            PowerState::PowerDown(id) => {
                assert(id <= 0x0fff_ffff ==> (0x4000_0000u32 | id) == id + 0x4000_0000)
                    by (bit_vector);
                Self::STATE_TYPE_PD_BIT | id
            },
        }
    }
}

/// The affinity fields of an MPIDR value.
#[derive(Clone, Copy, Debug, Eq, PartialEq, Structural)]
pub struct Mpidr {
    pub aff0: u8,
    pub aff1: u8,
    pub aff2: u8,
    pub aff3: Option<u8>,
}

impl Mpidr {
    /// Bits of `MPIDR_EL1` that are not affinity fields.
    pub const MBZ_BITS_64: u64 = 0xffff_ff00_ff00_0000;

    /// The MPIDR whose affinity fields are those of the `MPIDR_EL1` value `value`.
    pub open spec fn spec_from_register_value(value: u64) -> Mpidr {
        Mpidr {
            aff0: (value % 0x100) as u8,
            aff1: ((value / 0x100) % 0x100) as u8,
            aff2: ((value / 0x1_0000) % 0x100) as u8,
            aff3: Some(((value / 0x1_0000_0000) % 0x100) as u8),
        }
    }

    /// Creates an MPIDR from the affinity fields of an `MPIDR_EL1` value, ignoring its other
    /// bits.
    pub fn from_register_value(mpidr_el1: u64) -> (mpidr: Mpidr)
        ensures
            mpidr == Self::spec_from_register_value(mpidr_el1),
    {
        let v = mpidr_el1;
        assert((v as u8) == v % 0x100) by (bit_vector);
        assert(((v >> 8) as u8) == (v / 0x100) % 0x100) by (bit_vector);
        assert(((v >> 16) as u8) == (v / 0x1_0000) % 0x100) by (bit_vector);
        assert(((v >> 32) as u8) == (v / 0x1_0000_0000) % 0x100) by (bit_vector);
        Mpidr {
            aff0: mpidr_el1 as u8,
            aff1: (mpidr_el1 >> 8) as u8,
            aff2: (mpidr_el1 >> 16) as u8,
            aff3: Some((mpidr_el1 >> 32) as u8),
        }
    }

    /// The 32-bit MPIDR value holding the affinity fields, if aff3 is absent or zero.
    pub open spec fn spec_to_u32(self) -> Option<u32> {
        match self.aff3 {
            None => Some((self.aff0 + 0x100 * self.aff1 + 0x1_0000 * self.aff2) as u32),
            Some(aff3) => if aff3 == 0 {
                Some((self.aff0 + 0x100 * self.aff1 + 0x1_0000 * self.aff2) as u32)
            } else {
                None
            },
        }
    }

    /// Returns the 32-bit MPIDR value holding the affinity fields, or `None` if a non-zero aff3
    /// would be lost.
    pub fn to_u32(self) -> (value: Option<u32>)
        ensures
            value == self.spec_to_u32(),
    {
        let ok = match self.aff3 {
            None => true,
            Some(aff3) => aff3 == 0,
        };
        if ok {
            let a0 = self.aff0 as u32;
            let a1 = self.aff1 as u32;
            let a2 = self.aff2 as u32;
            assert(a0 < 256 && a1 < 256 && a2 < 256 ==> ((a2 << 16) | (a1 << 8) | a0) == a0 + 0x100
                * a1 + 0x1_0000 * a2) by (bit_vector);
            Some((a2 << 16) | (a1 << 8) | a0)
        } else {
            None
        }
    }
}

/// The entry point at which a CPU resumes in the non-secure world.
#[allow(inconsistent_fields)]
#[derive(Clone, Copy, Debug, Eq, PartialEq, Structural)]
pub enum EntryPoint {
    Entry32 { entry_point_address: u32, context_id: u32 },
    Entry64 { entry_point_address: u64, context_id: u64 },
}

impl EntryPoint {
    /// The entry point address.
    pub open spec fn spec_entry_point_address(self) -> u64 {
        match self {
            EntryPoint::Entry32 { entry_point_address, .. } => entry_point_address as u64,
            EntryPoint::Entry64 { entry_point_address, .. } => entry_point_address,
        }
    }

    /// Returns the entry point address.
    pub fn entry_point_address(&self) -> (address: u64)
        ensures
            address == self.spec_entry_point_address(),
    {
        match self {
            EntryPoint::Entry32 { entry_point_address, .. } => *entry_point_address as u64,
            EntryPoint::Entry64 { entry_point_address, .. } => *entry_point_address,
        }
    }
}

/// The `AFFINITY_INFO` state of a CPU.
#[derive(Clone, Copy, Debug, Eq, PartialEq, Structural)]
pub enum AffinityInfo {
    On,
    Off,
    OnPending,
}

/// The hardware state of a power domain, as returned by `NODE_HW_STATE`.
#[derive(Clone, Copy, Debug, Eq, PartialEq, Structural)]
pub enum HwState {
    On,
    Off,
    Standby,
}

/// The type of a `SYSTEM_OFF2` request.
#[derive(Clone, Copy, Debug, Eq, PartialEq, Structural)]
pub enum SystemOff2Type {
    HibernateOff,
}

/// An additional parameter of an off or reset request.
#[derive(Clone, Copy, Debug, Eq, PartialEq, Structural)]
pub enum Cookie {
    Cookie32(u32),
    Cookie64(u64),
}

/// An architectural reset type of `SYSTEM_RESET2`.
#[derive(Clone, Copy, Debug, Eq, PartialEq, Structural)]
pub enum ArchitecturalResetType {
    SystemWarmReset,
}

/// The reset type of `SYSTEM_RESET2`.
#[derive(Clone, Copy, Debug, Eq, PartialEq, Structural)]
pub enum ResetType {
    Architectural(ArchitecturalResetType),
    VendorSpecific(u32),
}

/// Optional platform feature flags.
#[derive(Clone, Copy, Debug, Eq, PartialEq, Structural)]
pub struct PsciPlatformOptionalFeatures {
    bits: u64,
}

impl PsciPlatformOptionalFeatures {
    pub const SYSTEM_OFF2: u64 = 0x01;
    pub const SYSTEM_RESET2: u64 = 0x02;
    pub const MEM_PROTECT: u64 = 0x04;
    pub const MEM_PROTECT_CHECK_RANGE: u64 = 0x08;
    pub const CPU_FREEZE: u64 = 0x10;
    pub const CPU_DEFAULT_SUSPEND: u64 = 0x20;
    pub const NODE_HW_STATE: u64 = 0x40;
    pub const SYSTEM_SUSPEND: u64 = 0x80;
    /// Every defined flag.
    pub const ALL_BITS: u64 = 0xff;

    /// The flag bits that are set.
    pub closed spec fn spec_bits(self) -> u64 {
        self.bits
    }

    /// No features.
    pub fn empty() -> (features: Self)
        ensures
            features.spec_bits() == 0,
    {
        PsciPlatformOptionalFeatures { bits: 0 }
    }

    /// Every feature.
    pub fn all() -> (features: Self)
        ensures
            features.spec_bits() == Self::ALL_BITS,
    {
        PsciPlatformOptionalFeatures { bits: Self::ALL_BITS }
    }

    /// The features whose flags are set in `bits`, ignoring undefined flags.
    pub fn from_bits_truncate(bits: u64) -> (features: Self)
        ensures
            features.spec_bits() == bits & Self::ALL_BITS,
    {
        PsciPlatformOptionalFeatures { bits: bits & Self::ALL_BITS }
    }

    /// Returns the flag bits that are set.
    pub fn bits(&self) -> (bits: u64)
        ensures
            bits == self.spec_bits(),
    {
        self.bits
    }

    /// Returns whether every flag set in `flags` is set.
    pub fn contains(&self, flags: u64) -> (contains: bool)
        ensures
            contains == (self.spec_bits() & flags == flags),
    {
        self.bits & flags == flags
    }
}

/// The type of a platform-specific power state.
#[derive(Debug, Clone, Copy, PartialEq, Eq, Structural)]
pub enum PowerStateType {
    PowerDown,
    StandbyOrRetention,
    Run,
}

/// Platform-specific power state interface.
///
/// The platform provides a power state type that implements this trait. Its states are ordered
/// by depth, from the running state (depth zero) to the power down state (the deepest).
pub trait PlatformPowerStateInterface: Sized + Copy {
    /// The position of the state in the order from running to power down.
    spec fn spec_depth(self) -> nat;

    /// The type of the state.
    spec fn spec_power_state_type(self) -> PowerStateType;

    /// The state of a powered down domain.
    spec fn spec_off() -> Self;

    /// The state of a running domain.
    spec fn spec_run() -> Self;

    /// Returns the state of a powered down domain.
    fn off() -> (state: Self)
        ensures
            state == Self::spec_off(),
    ;

    /// Returns the state of a running domain.
    fn run() -> (state: Self)
        ensures
            state == Self::spec_run(),
    ;

    /// Returns the type of the platform-specific power state.
    fn power_state_type(&self) -> (state_type: PowerStateType)
        ensures
            state_type == self.spec_power_state_type(),
    ;

    /// Returns the position of the state in the order from running to power down.
    fn depth(&self) -> (depth: usize)
        ensures
            depth == self.spec_depth(),
    ;

    /// The running state has depth zero and is the only state of type `Run`, the power down
    /// state is a power down state, and the depth tells states apart.
    proof fn lemma_order(a: Self, b: Self)
        ensures
            Self::spec_run().spec_depth() == 0,
            Self::spec_run().spec_power_state_type() == PowerStateType::Run,
            Self::spec_off().spec_power_state_type() == PowerStateType::PowerDown,
            a.spec_depth() >= Self::spec_run().spec_depth(),
            b.spec_depth() <= Self::spec_off().spec_depth(),
            a.spec_power_state_type() == PowerStateType::Run <==> a == Self::spec_run(),
            a.spec_depth() == b.spec_depth() ==> a == b,
    ;
}

/// Whether the power state `state` has type `state_type`.
pub open spec fn has_type<P: PlatformPowerStateInterface>(state: P, state_type: PowerStateType) -> bool {
    state.spec_power_state_type() == state_type
}

/// Whether `level` is the highest level of `states` whose state has (when `matching`) or has
/// not (otherwise) the type `state_type`.
pub open spec fn is_highest_level_where<P: PlatformPowerStateInterface>(
    states: Seq<P>,
    level: int,
    state_type: PowerStateType,
    matching: bool,
) -> bool {
    &&& 0 <= level < states.len()
    &&& has_type(states[level], state_type) == matching
    &&& forall|j: int| level < j < states.len() ==> has_type(#[trigger] states[j], state_type) != matching
}

/// Whether no level of `states` has (when `matching`) or lacks (otherwise) the type
/// `state_type`.
pub open spec fn no_level_where<P: PlatformPowerStateInterface>(
    states: Seq<P>,
    state_type: PowerStateType,
    matching: bool,
) -> bool {
    forall|j: int| 0 <= j < states.len() ==> has_type(#[trigger] states[j], state_type) != matching
}

/// Whether the states do not get deeper from a level to the level above it.
pub open spec fn is_non_increasing<P: PlatformPowerStateInterface>(states: Seq<P>) -> bool {
    forall|i: int, j: int| 0 <= i <= j < states.len() ==> states[j].spec_depth() <= states[i].spec_depth()
}

/// Whether the composite state `states` is a valid suspend request of the given kind: some
/// level leaves the running state, no level is in a deeper state than the level below it, and
/// some level powers down exactly when a power down state was requested.
pub open spec fn spec_is_valid_suspend_request<P: PlatformPowerStateInterface>(
    states: Seq<P>,
    is_power_down_state: bool,
) -> bool {
    &&& !no_level_where(states, PowerStateType::Run, false)
    &&& is_non_increasing(states)
    &&& is_power_down_state == !no_level_where(states, PowerStateType::PowerDown, true)
}

/// Object for storing platform-specific power state for multiple power levels, from the CPU
/// level upwards.
pub struct PsciCompositePowerState<P> {
    /// The state of each power level, the CPU level first.
    pub states: Vec<P>,
    /// The highest level at which the calling CPU is the last one to be powered down, when the
    /// request says so.
    pub last_power_level: Option<usize>,
}

impl<P: PlatformPowerStateInterface> PsciCompositePowerState<P> {
    /// Creates a composite state from the state of each level.
    pub fn new(states: Vec<P>) -> (composite: Self)
        ensures
            composite.states@ == states@,
            composite.last_power_level == None::<usize>,
    {
        PsciCompositePowerState { states, last_power_level: None }
    }

    /// Creates a composite state from the state of each level and the highest level at which
    /// the calling CPU is the last one to be powered down.
    pub fn new_with_last_power_level(states: Vec<P>, last_power_level: usize) -> (composite: Self)
        ensures
            composite.states@ == states@,
            composite.last_power_level == Some(last_power_level),
    {
        PsciCompositePowerState { states, last_power_level: Some(last_power_level) }
    }

    /// Returns `level_count` levels all in state `state`.
    fn uniform(level_count: usize, state: P) -> (composite: Self)
        ensures
            composite.states@ == Seq::new(level_count as nat, |i: int| state),
            composite.last_power_level == None::<usize>,
    {
        let mut states: Vec<P> = Vec::new();
        let mut i: usize = 0;
        while i < level_count
            invariant
                i <= level_count,
                states@ == Seq::new(i as nat, |k: int| state),
            decreases level_count - i,
        {
            states.push(state);
            i = i + 1;
            assert(states@ =~= Seq::new(i as nat, |k: int| state));
        }
        PsciCompositePowerState { states, last_power_level: None }
    }

    /// States set to OFF on all `level_count` levels.
    pub fn off(level_count: usize) -> (composite: Self)
        ensures
            composite.states@ == Seq::new(level_count as nat, |i: int| P::spec_off()),
            composite.last_power_level == None::<usize>,
    {
        Self::uniform(level_count, P::off())
    }

    /// States set to RUN on all `level_count` levels.
    pub fn run(level_count: usize) -> (composite: Self)
        ensures
            composite.states@ == Seq::new(level_count as nat, |i: int| P::spec_run()),
            composite.last_power_level == None::<usize>,
    {
        Self::uniform(level_count, P::run())
    }

    /// Returns the power state of the CPU level.
    pub fn cpu_level_state(&self) -> (state: P)
        requires
            self.states@.len() > 0,
        ensures
            state == self.states@[CPU_POWER_LEVEL as int],
    {
        self.states[CPU_POWER_LEVEL]
    }

    /// Returns the power state of the highest level of the topology.
    pub fn highest_level_state(&self) -> (state: P)
        requires
            self.states@.len() > 0,
        ensures
            state == self.states@.last(),
    {
        self.states[self.states.len() - 1]
    }

    /// Returns the highest level whose state has (when `matching`) or lacks (otherwise) the
    /// type `state_type`.
    fn find_highest_level_where(&self, state_type: PowerStateType, matching: bool) -> (level:
        Option<usize>)
        ensures
            match level {
                Some(l) => is_highest_level_where(self.states@, l as int, state_type, matching),
                None => no_level_where(self.states@, state_type, matching),
            },
    {
        let mut i = self.states.len();
        while i > 0
            invariant
                i <= self.states@.len(),
                forall|j: int|
                    i <= j < self.states@.len() ==> has_type(#[trigger] self.states@[j], state_type)
                        != matching,
            decreases i,
        {
            let t = self.states[i - 1].power_state_type();
            if (t == state_type) == matching {
                return Some(i - 1);
            }
            i = i - 1;
        }
        None
    }

    /// Find the highest power level which is not set to running state.
    pub fn find_highest_non_run_level(&self) -> (level: Option<usize>)
        ensures
            match level {
                Some(l) => is_highest_level_where(self.states@, l as int, PowerStateType::Run, false),
                None => no_level_where(self.states@, PowerStateType::Run, false),
            },
    {
        self.find_highest_level_where(PowerStateType::Run, false)
    }

    /// Find the highest power level which is set to power down state.
    pub fn find_highest_power_down_level(&self) -> (level: Option<usize>)
        ensures
            match level {
                Some(l) => is_highest_level_where(
                    self.states@,
                    l as int,
                    PowerStateType::PowerDown,
                    true,
                ),
                None => no_level_where(self.states@, PowerStateType::PowerDown, true),
            },
    {
        self.find_highest_level_where(PowerStateType::PowerDown, true)
    }

    /// Returns whether no level is in a deeper state than the level below it.
    fn is_non_increasing(&self) -> (sorted: bool)
        ensures
            sorted == is_non_increasing(self.states@),
    {
        let n = self.states.len();
        if n == 0 {
            return true;
        }
        let mut i: usize = 1;
        while i < n
            invariant
                n == self.states@.len(),
                1 <= i <= n,
                is_non_increasing(self.states@.subrange(0, i as int)),
            decreases n - i,
        {
            if self.states[i - 1].depth() < self.states[i].depth() {
                assert(!is_non_increasing(self.states@)) by {
                    assert(self.states@[i - 1].spec_depth() < self.states@[i as int].spec_depth());
                }
                return false;
            }
            assert forall|a: int, b: int| 0 <= a <= b < i + 1 implies #[trigger] self.states@.subrange(
                0,
                i + 1,
            )[b].spec_depth() <= #[trigger] self.states@.subrange(0, i + 1)[a].spec_depth() by {
                if b == i {
                    if a < i {
                        assert(self.states@.subrange(0, i as int)[i - 1].spec_depth()
                            <= self.states@.subrange(0, i as int)[a].spec_depth());
                    }
                } else {
                    assert(self.states@.subrange(0, i as int)[b].spec_depth()
                        <= self.states@.subrange(0, i as int)[a].spec_depth());
                }
            }
            i = i + 1;
        }
        assert(self.states@.subrange(0, n as int) =~= self.states@);
        true
    }

    /// Checks that the composite state does not violate any PSCI rules.
    pub fn is_valid_suspend_request(&self, is_power_down_state: bool) -> (valid: bool)
        ensures
            valid == spec_is_valid_suspend_request(self.states@, is_power_down_state),
    {
        // There should be a non-run level
        if self.find_highest_non_run_level().is_none() {
            return false;
        }
        // Higher levels must be in less than or equal power state
        if !self.is_non_increasing() {
            return false;
        }
        if is_power_down_state {
            // There must be a power down state
            self.find_highest_power_down_level().is_some()
        } else {
            // Retention state, there should not be a power state on any level
            self.find_highest_power_down_level().is_none()
        }
    }
}

/// A valid suspend request always takes the CPU level out of the running state, as no level may
/// be deeper than the CPU level.
pub proof fn lemma_valid_suspend_request_suspends_cpu<P: PlatformPowerStateInterface>(
    states: Seq<P>,
    is_power_down_state: bool,
)
    requires
        spec_is_valid_suspend_request(states, is_power_down_state),
    ensures
        states.len() > 0,
        !has_type(states[CPU_POWER_LEVEL as int], PowerStateType::Run),
{
    let l = choose|j: int| 0 <= j < states.len() && !(has_type(#[trigger] states[j], PowerStateType::Run) != false);
    P::lemma_order(states[l], P::spec_run());
    P::lemma_order(states[0], P::spec_run());
    assert(states[l].spec_depth() <= states[0].spec_depth());
}

/// PSCI platform interface: what the PSCI implementation needs of the platform.
///
/// Whether the platform implements the optional functions has to be in sync with the reported
/// optional features.
pub trait PsciPlatformInterface: Sized {
    /// Platform-specific power state type.
    type PlatformPowerState: PlatformPowerStateInterface;

    /// The highest power level in the system.
    spec fn spec_max_power_level() -> usize;

    /// Returns the highest power level in the system.
    fn max_power_level() -> (level: usize)
        ensures
            level == Self::spec_max_power_level(),
    ;

    /// The flags of the optional features that the platform implements.
    spec fn spec_features() -> u64;

    /// Returns the optional features that the platform implements.
    fn features() -> (features: PsciPlatformOptionalFeatures)
        ensures
            features.spec_bits() == Self::spec_features(),
    ;

    /// The power domain topology: the number of root domains followed by the count of child nodes
    /// of each non-CPU domain, in BFS traversal order.
    spec fn spec_topology() -> Seq<usize>;

    /// Returns the power domain topology as the number of root domains followed by the count of
    /// child nodes of each non-CPU domain, in BFS traversal order.
    fn topology() -> (topology: &'static [usize])
        ensures
            topology@ == Self::spec_topology(),
    ;

    /// The CPU index of the CPU with the MPIDR `mpidr`, if the platform has such a CPU.
    spec fn spec_cpu_index_by_mpidr(mpidr: Mpidr) -> Option<usize>;

    /// Tries to convert an MPIDR to a CPU index.
    fn try_get_cpu_index_by_mpidr(mpidr: &Mpidr) -> (index: Option<usize>)
        ensures
            index == Self::spec_cpu_index_by_mpidr(*mpidr),
    ;

    /// The composite power state, the CPU level first, that the extended PSCI power state value
    /// `power_state` stands for, if the platform supports it.
    spec fn spec_parse_power_state(power_state: PowerState) -> Option<Seq<Self::PlatformPowerState>>;

    /// Tries to convert an extended PSCI power state value into a composite power state.
    fn try_parse_power_state(power_state: PowerState) -> (composite: Option<
        PsciCompositePowerState<Self::PlatformPowerState>,
    >)
        ensures
            match composite {
                Some(c) => Self::spec_parse_power_state(power_state) == Some(c.states@),
                None => Self::spec_parse_power_state(power_state) is None,
            },
    ;

    /// The requests that the platform has received so far, oldest first, each with what it was
    /// handed and, where it answers, its answer.
    spec fn spec_log(&self) -> Seq<PlatformRequest<Self::PlatformPowerState>>;

    /// Places the current CPU into the standby state `cpu_state` and continues execution on an
    /// interrupt.
    fn cpu_standby(&mut self, cpu_state: Self::PlatformPowerState)
        ensures
            final(self).spec_log() == old(self).spec_log().push(PlatformRequest::CpuStandby(cpu_state)),
    ;

    /// Performs the actions needed to suspend the CPU, e.g. programs the power controller.
    fn power_domain_suspend(&mut self, target_state: &PsciCompositePowerState<Self::PlatformPowerState>)
        ensures
            final(self).spec_log() == old(self).spec_log().push(
                PlatformRequest::PowerDomainSuspend(target_state.states@),
            ),
    ;

    /// Performs platform-specific operations after a wake-up from a suspend.
    fn power_domain_suspend_finish(
        &mut self,
        target_state: &PsciCompositePowerState<Self::PlatformPowerState>,
    )
        ensures
            final(self).spec_log() == old(self).spec_log().push(
                PlatformRequest::PowerDomainSuspendFinish(target_state.states@),
            ),
    ;

    /// Whether the platform promises that its housekeeping before turning off a CPU succeeds.
    spec fn spec_off_early_succeeds() -> bool;

    /// Platform housekeeping before turning off the CPU.
    fn power_domain_off_early(
        &mut self,
        target_state: &PsciCompositePowerState<Self::PlatformPowerState>,
    ) -> (ret: Result<(), ErrorCode>)
        ensures
            final(self).spec_log() == old(self).spec_log().push(
                PlatformRequest::PowerDomainOffEarly(target_state.states@, ret),
            ),
            Self::spec_off_early_succeeds() ==> ret is Ok,
    ;

    /// Performs the platform-specific actions to turn the CPU off, e.g. programs the power
    /// controller.
    fn power_domain_off(&mut self, target_state: &PsciCompositePowerState<Self::PlatformPowerState>)
        ensures
            final(self).spec_log() == old(self).spec_log().push(
                PlatformRequest::PowerDomainOff(target_state.states@),
            ),
    ;

    /// Waits for the power down of the CPU; on hardware it does not return.
    fn power_domain_power_down_wfi(
        &mut self,
        target_state: &PsciCompositePowerState<Self::PlatformPowerState>,
    )
        ensures
            final(self).spec_log() == old(self).spec_log().push(
                PlatformRequest::PowerDomainPowerDownWfi(target_state.states@),
            ),
    ;

    /// Whether the platform promises that turning on the power domain of the CPU `mpidr`
    /// succeeds.
    spec fn spec_power_domain_on_succeeds(mpidr: Mpidr) -> bool;

    /// Turns on the power domain of the CPU identified by its MPIDR.
    fn power_domain_on(&mut self, mpidr: Mpidr) -> (ret: Result<(), ErrorCode>)
        ensures
            final(self).spec_log() == old(self).spec_log().push(PlatformRequest::PowerDomainOn(mpidr, ret)),
            Self::spec_power_domain_on_succeeds(mpidr) ==> ret is Ok,
    ;

    /// Performs the platform-specific actions after the CPU has been turned on.
    fn power_domain_on_finish(&mut self, target_state: &PsciCompositePowerState<Self::PlatformPowerState>)
        ensures
            final(self).spec_log() == old(self).spec_log().push(
                PlatformRequest::PowerDomainOnFinish(target_state.states@),
            ),
    ;

    /// Whether the platform accepts `entry` as a non-secure entry point.
    spec fn spec_is_valid_ns_entrypoint(entry: EntryPoint) -> bool;

    /// Validates a non-secure entry point.
    fn is_valid_ns_entrypoint(&self, entry: &EntryPoint) -> (valid: bool)
        ensures
            valid == Self::spec_is_valid_ns_entrypoint(*entry),
    ;

    /// Whether the platform promises that the CPU never has interrupts pending.
    spec fn spec_never_pending() -> bool;

    /// Checks whether the CPU has pending interrupts.
    fn has_pending_interrupts(&mut self) -> (pending: bool)
        ensures
            final(self).spec_log() == old(self).spec_log().push(
                PlatformRequest::HasPendingInterrupts(pending),
            ),
            Self::spec_never_pending() ==> !pending,
    ;

    /// Waits for an interrupt.
    fn wait_for_interrupt(&mut self)
        ensures
            final(self).spec_log() == old(self).spec_log().push(PlatformRequest::WaitForInterrupt),
    ;

    /// Shuts down the system; on hardware it does not return.
    fn system_off(&mut self)
        ensures
            final(self).spec_log() == old(self).spec_log().push(PlatformRequest::SystemOff),
    ;

    /// Suspends the system to disk; on hardware it does not return on success.
    fn system_off2(&mut self, off_type: SystemOff2Type, cookie: Cookie) -> (ret: Result<(), ErrorCode>)
        ensures
            final(self).spec_log() == old(self).spec_log().push(
                PlatformRequest::SystemOff2(off_type, cookie, ret),
            ),
    ;

    /// Resets the system, as a hardware power-cycle would; on hardware it does not return.
    fn system_reset(&mut self)
        ensures
            final(self).spec_log() == old(self).spec_log().push(PlatformRequest::SystemReset),
    ;

    /// Makes an architectural or vendor specific reset; on hardware it does not return on
    /// success.
    fn system_reset2(&mut self, reset_type: ResetType, cookie: Cookie) -> (ret: Result<(), ErrorCode>)
        ensures
            final(self).spec_log() == old(self).spec_log().push(
                PlatformRequest::SystemReset2(reset_type, cookie, ret),
            ),
    ;
}

/// Returns success if the optional features `features` include all of `flags`, and
/// `NOT_SUPPORTED` otherwise.
pub fn check_features(features: PsciPlatformOptionalFeatures, flags: u64) -> (ret: Result<(), ErrorCode>)
    ensures
        ret == if features.spec_bits() & flags == flags {
            Ok::<(), ErrorCode>(())
        } else {
            Err::<(), ErrorCode>(ErrorCode::NotSupported)
        },
{
    if features.contains(flags) {
        Ok(())
    } else {
        Err(ErrorCode::NotSupported)
    }
}

/// What a `CPU_SUSPEND` request amounts to, once its composite state is known.
#[derive(Clone, Copy, Debug, Eq, PartialEq, Structural)]
pub enum SuspendPlan {
    /// A standby of the CPU alone, its ancestors left running.
    CpuStandby,
    /// A suspend that affects the levels up to `highest_level`.
    Suspend { highest_level: usize },
}

/// The plan for a suspend to the composite state `states` of a system with `level_count` power
/// levels: invalid unless it has one state per level and is a valid suspend request of its kind;
/// a standby of the CPU alone if it is no power down state and only the CPU level leaves the
/// running state; otherwise a suspend up to the highest level that leaves the running state.
pub open spec fn spec_suspend_plan<P: PlatformPowerStateInterface>(
    states: Seq<P>,
    is_power_down_state: bool,
    level_count: int,
) -> Result<SuspendPlan, ErrorCode> {
    if states.len() != level_count || !spec_is_valid_suspend_request(states, is_power_down_state) {
        Err(ErrorCode::InvalidParameters)
    } else {
        let h = choose|h: int| is_highest_level_where(states, h, PowerStateType::Run, false);
        if !is_power_down_state && h == CPU_POWER_LEVEL {
            Ok(SuspendPlan::CpuStandby)
        } else {
            Ok(SuspendPlan::Suspend { highest_level: h as usize })
        }
    }
}

/// Returns the plan for a suspend to the composite state `composite` of a system with
/// `level_count` power levels.
pub fn plan_suspend<P: PlatformPowerStateInterface>(
    composite: &PsciCompositePowerState<P>,
    is_power_down_state: bool,
    level_count: usize,
) -> (plan: Result<SuspendPlan, ErrorCode>)
    ensures
        plan == spec_suspend_plan(composite.states@, is_power_down_state, level_count as int),
        plan matches Ok(SuspendPlan::Suspend { highest_level }) ==> is_highest_level_where(
            composite.states@,
            highest_level as int,
            PowerStateType::Run,
            false,
        ),
{
    if composite.states.len() != level_count || !composite.is_valid_suspend_request(
        is_power_down_state,
    ) {
        return Err(ErrorCode::InvalidParameters);
    }
    match composite.find_highest_non_run_level() {
        Some(h) => {
            proof {
                let states = composite.states@;
                assert(is_highest_level_where(states, h as int, PowerStateType::Run, false));
                let c = choose|c: int| is_highest_level_where(states, c, PowerStateType::Run, false);
                if c < h {
                    assert(has_type(states[h as int], PowerStateType::Run) == false);
                } else if c > h {
                    assert(has_type(states[c], PowerStateType::Run) == false);
                }
            }
            if !is_power_down_state && h == CPU_POWER_LEVEL {
                Ok(SuspendPlan::CpuStandby)
            } else {
                Ok(SuspendPlan::Suspend { highest_level: h })
            }
        },
        None => Err(ErrorCode::InvalidParameters),
    }
}

/// Whether the tree `after` is the tree `before` with CPU `cpu` suspended to the composite
/// state `states`, which affects the levels up to `highest_level`, to resume at `entry`: the CPU
/// is in `states[0]` and requests `states[l]` for its ancestor at each level `l` up to
/// `highest_level` and the running state above, its ancestors are coordinated, and nothing else
/// changes.
pub open spec fn is_suspended_to<P: PlatformPowerStateInterface>(
    before: PowerDomainTree<P>,
    after: PowerDomainTree<P>,
    cpu: int,
    states: Seq<P>,
    highest_level: int,
    entry: EntryPoint,
) -> bool {
    &&& before.same_shape(&after)
    &&& after.inv()
    &&& after.spec_cpu_state(cpu) == states[CPU_POWER_LEVEL as int]
    &&& after.spec_entry_point(cpu) == Some(entry)
    &&& forall|l: int|
        1 <= l <= highest_level ==> #[trigger] after.spec_request(after.spec_ancestor(cpu, l), cpu) == states[l]
    &&& forall|l: int|
        highest_level < l <= after.spec_max_level() ==> #[trigger] after.spec_request(
            after.spec_ancestor(cpu, l),
            cpu,
        ) == P::spec_run()
    &&& forall|n: int|
        0 <= n < after.spec_node_count() && !after.is_ancestor_up_to(cpu, n, highest_level)
            ==> #[trigger] after.spec_node_state(n) == before.spec_node_state(n)
    &&& forall|n: int|
        0 <= n < after.spec_node_count() && !after.is_ancestor_up_to(cpu, n, highest_level)
            ==> #[trigger] after.spec_request(n, cpu) == before.spec_request(n, cpu)
    &&& forall|n: int, c: int|
        0 <= n < after.spec_node_count() && after.is_cpu(c) && c != cpu ==> #[trigger] after.spec_request(n, c)
            == before.spec_request(n, c)
    &&& forall|c: int|
        after.is_cpu(c) && c != cpu ==> {
            &&& #[trigger] after.spec_cpu_state(c) == before.spec_cpu_state(c)
            &&& after.spec_entry_point(c) == before.spec_entry_point(c)
        }
    &&& forall|c: int| after.is_cpu(c) ==> #[trigger] after.spec_affinity(c) == before.spec_affinity(c)
}

/// The checks of `CPU_ON` on the tree `tree` for the CPU index `cpu_index` that the target MPIDR
/// resolved to and an entry point that is valid or not: an unknown CPU is an invalid parameter,
/// an invalid entry point an invalid address, a CPU that is on or being turned on is refused;
/// otherwise the CPU is the one to turn on.
pub open spec fn spec_cpu_on_check<P: PlatformPowerStateInterface>(
    tree: PowerDomainTree<P>,
    cpu_index: Option<usize>,
    entry_valid: bool,
) -> Result<usize, ErrorCode> {
    match cpu_index {
        None => Err(ErrorCode::InvalidParameters),
        Some(c) => if !tree.is_cpu(c as int) {
            Err(ErrorCode::InvalidParameters)
        } else if !entry_valid {
            Err(ErrorCode::InvalidAddress)
        } else {
            match tree.spec_affinity(c as int) {
                AffinityInfo::On => Err(ErrorCode::AlreadyOn),
                AffinityInfo::OnPending => Err(ErrorCode::OnPending),
                AffinityInfo::Off => Ok(c),
            }
        },
    }
}

/// The local power state of CPU `cpu` of `tree` and of each of its ancestors, the CPU level
/// first.
pub open spec fn spec_local_states<P: PlatformPowerStateInterface>(tree: PowerDomainTree<P>, cpu: int) -> Seq<
    P,
> {
    Seq::new(
        (tree.spec_max_level() + 1) as nat,
        |l: int|
            if l == 0 {
                tree.spec_cpu_state(cpu)
            } else {
                tree.spec_node_state(tree.spec_ancestor(cpu, l))
            },
    )
}

/// The composite state that a suspend of CPU `cpu` to `requested`, affecting the levels up to
/// `highest_level`, hands to the platform, once the CPU's ancestors in `tree` are coordinated:
/// the coordinated state of each ancestor up to that level, and the requested state elsewhere.
pub open spec fn spec_suspended_states<P: PlatformPowerStateInterface>(
    tree: PowerDomainTree<P>,
    cpu: int,
    requested: Seq<P>,
    highest_level: int,
) -> Seq<P> {
    Seq::new(
        requested.len(),
        |l: int|
            if 1 <= l <= highest_level {
                tree.spec_node_state(tree.spec_ancestor(cpu, l))
            } else {
                requested[l]
            },
    )
}

/// Whether `requests` are the requests that a standby of CPU `cpu` of `before` to `requested`,
/// affecting the levels up to `highest_level`, makes of the platform: the suspend, with the CPU
/// level and the levels above `highest_level` as requested; the wait for an interrupt; and the
/// end of the suspend, with the state handed to the suspend up to `highest_level` and the
/// earlier states of the CPU's ancestors above it.
pub open spec fn is_standby_requests<P: PlatformPowerStateInterface>(
    requests: Seq<PlatformRequest<P>>,
    before: PowerDomainTree<P>,
    cpu: int,
    requested: Seq<P>,
    highest_level: int,
) -> bool {
    &&& requests.len() == 3
    &&& requests[0] matches PlatformRequest::PowerDomainSuspend(suspended) && {
        &&& suspended.len() == requested.len()
        &&& suspended[0] == requested[0]
        &&& forall|l: int| highest_level < l < requested.len() ==> #[trigger] suspended[l] == requested[l]
        &&& requests[2] matches PlatformRequest::PowerDomainSuspendFinish(woken) && {
            &&& woken.len() == requested.len()
            &&& forall|l: int| 0 <= l <= highest_level ==> #[trigger] woken[l] == suspended[l]
            &&& forall|l: int|
                highest_level < l < requested.len() ==> #[trigger] woken[l] == spec_local_states(
                    before,
                    cpu,
                )[l]
        }
    }
    &&& requests[1] == PlatformRequest::<P>::WaitForInterrupt
}

/// A request that the PSCI implementation makes of its platform: what it hands over, and what
/// the platform answers where it answers.
pub enum PlatformRequest<P> {
    /// `cpu_standby` with the CPU's standby state.
    CpuStandby(P),
    /// `power_domain_suspend` with the composite state, the CPU level first.
    PowerDomainSuspend(Seq<P>),
    /// `power_domain_suspend_finish` with the composite state, the CPU level first.
    PowerDomainSuspendFinish(Seq<P>),
    /// `power_domain_off_early` with the composite state, and its answer.
    PowerDomainOffEarly(Seq<P>, Result<(), ErrorCode>),
    /// `power_domain_off` with the composite state.
    PowerDomainOff(Seq<P>),
    /// `power_domain_power_down_wfi` with the composite state.
    PowerDomainPowerDownWfi(Seq<P>),
    /// `power_domain_on` with the target MPIDR, and its answer.
    PowerDomainOn(Mpidr, Result<(), ErrorCode>),
    /// `power_domain_on_finish` with the composite state.
    PowerDomainOnFinish(Seq<P>),
    /// `has_pending_interrupts`, and its answer.
    HasPendingInterrupts(bool),
    /// `wait_for_interrupt`.
    WaitForInterrupt,
    /// `system_off`.
    SystemOff,
    /// `system_off2` with its parameters, and its answer.
    SystemOff2(SystemOff2Type, Cookie, Result<(), ErrorCode>),
    /// `system_reset`.
    SystemReset,
    /// `system_reset2` with its parameters, and its answer.
    SystemReset2(ResetType, Cookie, Result<(), ErrorCode>),
}

/// Main PSCI structure: handles the PSCI calls and stores the power state of each power domain.
pub struct Psci<T: PsciPlatformInterface> {
    platform: T,
    power_domain_tree: PowerDomainTree<T::PlatformPowerState>,
}

impl<T: PsciPlatformInterface> Psci<T> {
    /// The power domain tree.
    pub closed spec fn spec_tree(&self) -> PowerDomainTree<T::PlatformPowerState> {
        self.power_domain_tree
    }

    /// The platform.
    pub closed spec fn spec_platform(&self) -> T {
        self.platform
    }

    /// The requests made of the platform so far, oldest first.
    pub closed spec fn spec_requests(&self) -> Seq<PlatformRequest<T::PlatformPowerState>> {
        self.platform.spec_log()
    }

    /// Whether this is the outcome of a suspend of running CPU `cpu` to the composite state
    /// `requested`, affecting the levels up to `highest_level`, with the entry point `entry`, of a
    /// power down state or not, from the tree `before` after the requests `before_requests`,
    /// where the platform reported an interrupt pending or not (`pending`).
    ///
    /// With an interrupt pending nothing happens. Otherwise a power down leaves the CPU suspended
    /// to the requested state, handing the coordinated state to the platform to suspend and to
    /// power down; a standby makes the standby requests and leaves the CPU running again, with
    /// the states as they were.
    pub open spec fn is_suspend_outcome(
        &self,
        before: PowerDomainTree<T::PlatformPowerState>,
        before_requests: Seq<PlatformRequest<T::PlatformPowerState>>,
        pending: bool,
        cpu: int,
        requested: Seq<T::PlatformPowerState>,
        highest_level: int,
        entry: EntryPoint,
        is_power_down_state: bool,
    ) -> bool {
        &&& pending ==> self.spec_tree() == before && self.spec_requests() == before_requests
        &&& !pending && !is_power_down_state ==> {
            &&& self.is_running(cpu)
            &&& self.spec_tree().same_states(&before)
            &&& self.spec_requests().len() == before_requests.len() + 3
            &&& self.spec_requests().subrange(0, before_requests.len() as int) == before_requests
            &&& is_standby_requests(
                self.spec_requests().subrange(
                    before_requests.len() as int,
                    self.spec_requests().len() as int,
                ),
                before,
                cpu,
                requested,
                highest_level,
            )
        }
        &&& !pending && is_power_down_state ==> {
            &&& is_suspended_to(before, self.spec_tree(), cpu, requested, highest_level, entry)
            &&& self.spec_requests() == before_requests.push(
                PlatformRequest::PowerDomainSuspend(
                    spec_suspended_states(self.spec_tree(), cpu, requested, highest_level),
                ),
            ).push(
                PlatformRequest::PowerDomainPowerDownWfi(
                    spec_suspended_states(self.spec_tree(), cpu, requested, highest_level),
                ),
            )
        }
    }

    /// The platform.
    pub fn platform(&self) -> (platform: &T)
        ensures
            *platform == self.spec_platform(),
    {
        &self.platform
    }

    /// The invariant of the power domain tree holds.
    pub open spec fn inv(&self) -> bool {
        self.spec_tree().inv()
    }

    /// Whether CPU `cpu` is on and running: the state of a CPU that makes a PSCI call.
    pub open spec fn is_running(&self, cpu: int) -> bool {
        &&& self.spec_tree().is_cpu(cpu)
        &&& self.spec_tree().spec_affinity(cpu) == AffinityInfo::On
        &&& self.spec_tree().spec_cpu_state(cpu) == T::PlatformPowerState::spec_run()
    }

    /// Creates the PSCI implementation for the platform `platform`, with the CPU `primary_cpu`
    /// on and running and every other CPU off. Returns `None` if the platform's topology does not
    /// describe a tree of its power levels, or `primary_cpu` is not one of its CPUs.
    pub fn new(platform: T, primary_cpu: usize) -> (psci: Option<Self>)
        ensures
            psci is Some <==> is_valid_topology(T::spec_topology(), T::spec_max_power_level() as int)
                && primary_cpu < first_child(T::spec_topology(), T::spec_topology().len() - 1) - (
            T::spec_topology().len() - 1),
            psci matches Some(p) ==> {
                &&& p.inv()
                &&& p.is_running(primary_cpu as int)
                &&& p.spec_tree().requests_all_run(primary_cpu as int)
                &&& forall|c: int|
                    p.spec_tree().is_cpu(c) && c != primary_cpu ==> #[trigger] p.spec_tree().spec_affinity(c)
                        == AffinityInfo::Off && p.spec_tree().spec_cpu_state(c)
                        == T::PlatformPowerState::spec_off()
                &&& forall|c: int| p.spec_tree().is_cpu(c) ==> #[trigger] p.spec_tree().spec_entry_point(c) == None::<EntryPoint>
                &&& p.spec_platform() == platform
                &&& p.spec_tree().spec_max_level() == T::spec_max_power_level()
                &&& p.spec_tree().spec_node_count() == T::spec_topology().len() - 1
                &&& p.spec_tree().spec_cpu_count() == first_child(
                    T::spec_topology(),
                    T::spec_topology().len() - 1,
                ) - (T::spec_topology().len() - 1)
                &&& forall|c: int|
                    p.spec_tree().is_cpu(c) ==> is_bfs_parent(
                        T::spec_topology(),
                        #[trigger] p.spec_tree().spec_ancestor(c, 1),
                        p.spec_tree().spec_node_count() + c,
                    )
                &&& forall|c: int, l: int|
                    p.spec_tree().is_cpu(c) && 1 <= l < p.spec_tree().spec_max_level() ==> is_bfs_parent(
                        T::spec_topology(),
                        #[trigger] p.spec_tree().spec_ancestor(c, l + 1),
                        p.spec_tree().spec_ancestor(c, l),
                    )
            },
    {
        let mut tree = match PowerDomainTree::new(T::topology(), T::max_power_level()) {
            Some(tree) => tree,
            None => return None,
        };
        if primary_cpu >= tree.cpu_count() {
            return None;
        }
        let ghost t0 = tree;
        tree.set_affinity(primary_cpu, AffinityInfo::On);
        let ghost t1 = tree;
        tree.restore_running(primary_cpu);
        proof {
            assert forall|c: int| tree.is_cpu(c) implies #[trigger] tree.spec_ancestor(c, 1)
                == t0.spec_ancestor(c, 1) by {
                assert(t1.spec_ancestor(c, 1) == t0.spec_ancestor(c, 1));
            }
            assert forall|c: int, l: int| tree.is_cpu(c) && 1 <= l <= tree.spec_max_level() implies #[trigger] tree.spec_ancestor(c, l)
                == t0.spec_ancestor(c, l) by {
                assert(t1.spec_ancestor(c, l) == t0.spec_ancestor(c, l));
            }
        }
        Some(Psci { platform, power_domain_tree: tree })
    }

    /// Returns the number of CPUs.
    pub fn cpu_count(&self) -> (count: usize)
        requires
            self.inv(),
        ensures
            count == self.spec_tree().spec_cpu_count(),
    {
        self.power_domain_tree.cpu_count()
    }

    /// Returns the local power state of CPU `cpu`.
    pub fn cpu_local_state(&self, cpu: usize) -> (state: T::PlatformPowerState)
        requires
            self.inv(),
            self.spec_tree().is_cpu(cpu as int),
        ensures
            state == self.spec_tree().spec_cpu_state(cpu as int),
    {
        self.power_domain_tree.cpu_state(cpu)
    }

    /// Returns the local power state of CPU `cpu` and of each of its ancestors, the CPU level
    /// first.
    pub fn local_states(&self, cpu: usize) -> (states: Vec<T::PlatformPowerState>)
        requires
            self.inv(),
            self.spec_tree().is_cpu(cpu as int),
        ensures
            states@.len() == self.spec_tree().spec_max_level() + 1,
            states@[0] == self.spec_tree().spec_cpu_state(cpu as int),
            forall|l: int|
                self.spec_tree().is_upper_level(l) ==> #[trigger] states@[l] == self.spec_tree().spec_node_state(
                    self.spec_tree().spec_ancestor(cpu as int, l),
                ),
    {
        self.power_domain_tree.composite_from_nodes(cpu)
    }

    /// The checks of `CPU_ON` for the CPU that the target MPIDR resolved to (`cpu_index`) and
    /// the validity of the entry point: an unknown CPU is an invalid parameter, an invalid entry
    /// point an invalid address, a CPU that is on or being turned on is refused; otherwise the
    /// CPU is marked as being turned on and returned.
    pub fn begin_cpu_on(&mut self, cpu_index: Option<usize>, entry_valid: bool) -> (ret: Result<
        usize,
        ErrorCode,
    >)
        requires
            old(self).inv(),
        ensures
            final(self).inv(),
            ret == spec_cpu_on_check(old(self).spec_tree(), cpu_index, entry_valid),
            ret is Err ==> *final(self) == *old(self),
            ret matches Ok(c) ==> {
                &&& final(self).spec_tree().spec_affinity(c as int) == AffinityInfo::OnPending
                &&& final(self).spec_tree().same_states_except_affinity(&old(self).spec_tree(), c as int)
            },
            final(self).spec_requests() == old(self).spec_requests(),
            final(self).spec_platform() == old(self).spec_platform(),
    {
        let cpu = match cpu_index {
            Some(c) => c,
            None => return Err(ErrorCode::InvalidParameters),
        };
        if cpu >= self.power_domain_tree.cpu_count() {
            return Err(ErrorCode::InvalidParameters);
        }
        if !entry_valid {
            return Err(ErrorCode::InvalidAddress);
        }
        match self.power_domain_tree.affinity(cpu) {
            AffinityInfo::On => Err(ErrorCode::AlreadyOn),
            AffinityInfo::OnPending => Err(ErrorCode::OnPending),
            AffinityInfo::Off => {
                self.power_domain_tree.set_affinity(cpu, AffinityInfo::OnPending);
                Ok(cpu)
            },
        }
    }

    /// Completes `CPU_ON` of CPU `cpu` with the result of turning on its power domain: on
    /// success the entry point is stored for the CPU's boot, on failure the CPU is off again.
    pub fn complete_cpu_on(&mut self, cpu: usize, entry: EntryPoint, result: Result<(), ErrorCode>) -> (ret:
        Result<(), ErrorCode>)
        requires
            old(self).inv(),
            old(self).spec_tree().is_cpu(cpu as int),
        ensures
            final(self).inv(),
            ret == result,
            result is Ok ==> {
                &&& final(self).spec_tree().spec_entry_point(cpu as int) == Some(entry)
                &&& final(self).spec_tree().same_states_except_entry(&old(self).spec_tree(), cpu as int)
            },
            result is Err ==> {
                &&& final(self).spec_tree().spec_affinity(cpu as int) == AffinityInfo::Off
                &&& final(self).spec_tree().same_states_except_affinity(&old(self).spec_tree(), cpu as int)
            },
            final(self).spec_requests() == old(self).spec_requests(),
            final(self).spec_platform() == old(self).spec_platform(),
    {
        match result {
            Ok(()) => {
                self.power_domain_tree.set_entry_point(cpu, Some(entry));
            },
            Err(_) => {
                self.power_domain_tree.set_affinity(cpu, AffinityInfo::Off);
            },
        }
        result
    }

    /// Handles the `CPU_ON` PSCI call: turns on the CPU identified by `target_cpu`, which is to
    /// start at the non-secure entry point `entry`.
    pub fn cpu_on(&mut self, target_cpu: Mpidr, entry: EntryPoint) -> (ret: Result<(), ErrorCode>)
        requires
            old(self).inv(),
        ensures
            final(self).inv(),
            ret is Err ==> final(self).spec_tree().same_states(&old(self).spec_tree()),
            ret is Ok ==> exists|c: int|
                {
                    &&& old(self).spec_tree().is_cpu(c)
                    &&& old(self).spec_tree().spec_affinity(c) == AffinityInfo::Off
                    &&& #[trigger] final(self).spec_tree().spec_affinity(c) == AffinityInfo::OnPending
                    &&& final(self).spec_tree().spec_entry_point(c) == Some(entry)
                },
            match spec_cpu_on_check(
                old(self).spec_tree(),
                T::spec_cpu_index_by_mpidr(target_cpu),
                T::spec_is_valid_ns_entrypoint(entry),
            ) {
                Err(e) => ret == Err::<(), ErrorCode>(e) && *final(self) == *old(self),
                Ok(c) => ret is Ok ==> {
                    &&& final(self).spec_tree().spec_affinity(c as int) == AffinityInfo::OnPending
                    &&& final(self).spec_tree().spec_entry_point(c as int) == Some(entry)
                    &&& final(self).spec_tree().same_states_except_cpu_on(&old(self).spec_tree(), c as int)
                },
            },
            spec_cpu_on_check(
                old(self).spec_tree(),
                T::spec_cpu_index_by_mpidr(target_cpu),
                T::spec_is_valid_ns_entrypoint(entry),
            ) is Ok ==> final(self).spec_requests() == old(self).spec_requests().push(
                PlatformRequest::PowerDomainOn(target_cpu, ret),
            ),
            spec_cpu_on_check(
                old(self).spec_tree(),
                T::spec_cpu_index_by_mpidr(target_cpu),
                T::spec_is_valid_ns_entrypoint(entry),
            ) is Ok && T::spec_power_domain_on_succeeds(target_cpu) ==> ret is Ok,
    {
        let cpu_index = T::try_get_cpu_index_by_mpidr(&target_cpu);
        let entry_valid = self.platform.is_valid_ns_entrypoint(&entry);
        let cpu = match self.begin_cpu_on(cpu_index, entry_valid) {
            Ok(cpu) => cpu,
            Err(error) => return Err(error),
        };
        let ghost pending = self.spec_tree();
        let result = self.platform.power_domain_on(target_cpu);
        let ret = self.complete_cpu_on(cpu, entry, result);
        proof {
            let before = old(self).spec_tree();
            if ret is Ok {
                assert(self.spec_tree().spec_affinity(cpu as int) == AffinityInfo::OnPending);
            } else {
                let after = self.spec_tree();
                assert forall|c: int| after.is_cpu(c) implies #[trigger] after.spec_affinity(c)
                    == before.spec_affinity(c) by {
                    if c != cpu {
                        assert(pending.spec_affinity(c) == before.spec_affinity(c));
                    }
                }
                assert forall|c: int| after.is_cpu(c) implies #[trigger] after.spec_entry_point(c)
                    == before.spec_entry_point(c) by {
                    assert(pending.spec_entry_point(c) == before.spec_entry_point(c));
                }
                assert forall|c: int| after.is_cpu(c) implies #[trigger] after.spec_cpu_state(c)
                    == before.spec_cpu_state(c) by {
                    assert(pending.spec_cpu_state(c) == before.spec_cpu_state(c));
                }
                assert forall|n: int| 0 <= n < after.spec_node_count() implies #[trigger] after.spec_node_state(n)
                    == before.spec_node_state(n) by {
                    assert(pending.spec_node_state(n) == before.spec_node_state(n));
                }
                assert forall|n: int, c: int| 0 <= n < after.spec_node_count() && after.is_cpu(c) implies #[trigger] after.spec_request(n, c)
                    == before.spec_request(n, c) by {
                    assert(pending.spec_request(n, c) == before.spec_request(n, c));
                }
                assert forall|n: int| 0 <= n < after.spec_node_count() implies #[trigger] after.spec_node_level(n)
                    == before.spec_node_level(n) by {
                    assert(pending.spec_node_level(n) == before.spec_node_level(n));
                }
                assert forall|c: int, l: int| after.is_cpu(c) && after.is_upper_level(l) implies #[trigger] after.spec_ancestor(c, l)
                    == before.spec_ancestor(c, l) by {
                    assert(pending.spec_ancestor(c, l) == before.spec_ancestor(c, l));
                }
            }
        }
        ret
    }

    /// Handles the `AFFINITY_INFO` PSCI call for the CPU that the target MPIDR resolved to
    /// (`cpu_index`): only the CPU level can be queried.
    pub fn affinity_info_of(&self, cpu_index: Option<usize>, lowest_affinity_level: u32) -> (ret:
        Result<AffinityInfo, ErrorCode>)
        requires
            self.inv(),
        ensures
            match cpu_index {
                Some(c) => if self.spec_tree().is_cpu(c as int) && lowest_affinity_level
                    == CPU_POWER_LEVEL {
                    ret == Ok::<AffinityInfo, ErrorCode>(self.spec_tree().spec_affinity(c as int))
                } else {
                    ret == Err::<AffinityInfo, ErrorCode>(ErrorCode::InvalidParameters)
                },
                None => ret == Err::<AffinityInfo, ErrorCode>(ErrorCode::InvalidParameters),
            },
    {
        let cpu = match cpu_index {
            Some(c) => c,
            None => return Err(ErrorCode::InvalidParameters),
        };
        if cpu >= self.power_domain_tree.cpu_count() {
            return Err(ErrorCode::InvalidParameters);
        }
        if lowest_affinity_level as usize > CPU_POWER_LEVEL {
            return Err(ErrorCode::InvalidParameters);
        }
        Ok(self.power_domain_tree.affinity(cpu))
    }

    /// Handles the `AFFINITY_INFO` PSCI call: returns the state of the CPU identified by
    /// `target_affinity`.
    pub fn affinity_info(&self, target_affinity: Mpidr, lowest_affinity_level: u32) -> (ret: Result<
        AffinityInfo,
        ErrorCode,
    >)
        requires
            self.inv(),
        ensures
            lowest_affinity_level != CPU_POWER_LEVEL ==> ret == Err::<AffinityInfo, ErrorCode>(
                ErrorCode::InvalidParameters,
            ),
            ret matches Ok(a) ==> exists|c: int|
                self.spec_tree().is_cpu(c) && #[trigger] self.spec_tree().spec_affinity(c) == a,
            match T::spec_cpu_index_by_mpidr(target_affinity) {
                Some(c) => if self.spec_tree().is_cpu(c as int) && lowest_affinity_level
                    == CPU_POWER_LEVEL {
                    ret == Ok::<AffinityInfo, ErrorCode>(self.spec_tree().spec_affinity(c as int))
                } else {
                    ret == Err::<AffinityInfo, ErrorCode>(ErrorCode::InvalidParameters)
                },
                None => ret == Err::<AffinityInfo, ErrorCode>(ErrorCode::InvalidParameters),
            },
    {
        let cpu_index = T::try_get_cpu_index_by_mpidr(&target_affinity);
        self.affinity_info_of(cpu_index, lowest_affinity_level)
    }

    /// Must be called when CPU `cpu` is powered up, after `CPU_ON` or a power down suspend: puts
    /// it and its ancestors in the running state and returns its non-secure entry point.
    pub fn handle_cpu_boot(&mut self, cpu: usize) -> (entry: EntryPoint)
        requires
            old(self).inv(),
            old(self).spec_tree().is_cpu(cpu as int),
            old(self).spec_tree().spec_affinity(cpu as int) != AffinityInfo::Off,
            old(self).spec_tree().spec_affinity(cpu as int) == AffinityInfo::On ==> has_type(
                old(self).spec_tree().spec_cpu_state(cpu as int),
                PowerStateType::PowerDown,
            ),
            old(self).spec_tree().spec_entry_point(cpu as int) is Some,
        ensures
            final(self).inv(),
            Some(entry) == old(self).spec_tree().spec_entry_point(cpu as int),
            final(self).is_running(cpu as int),
            final(self).spec_tree().requests_all_run(cpu as int),
            final(self).spec_tree().spec_entry_point(cpu as int) == None::<EntryPoint>,
            forall|l: int|
                final(self).spec_tree().is_upper_level(l) ==> #[trigger] final(self).spec_tree().spec_node_state(
                    final(self).spec_tree().spec_ancestor(cpu as int, l),
                ) == T::PlatformPowerState::spec_run(),
            forall|c: int|
                final(self).spec_tree().is_cpu(c) && c != cpu ==> {
                    &&& #[trigger] final(self).spec_tree().spec_affinity(c) == old(self).spec_tree().spec_affinity(c)
                    &&& final(self).spec_tree().spec_cpu_state(c) == old(self).spec_tree().spec_cpu_state(c)
                    &&& final(self).spec_tree().spec_entry_point(c) == old(self).spec_tree().spec_entry_point(c)
                },
            old(self).spec_tree().same_shape(&final(self).spec_tree()),
            forall|n: int|
                0 <= n < final(self).spec_tree().spec_node_count() && !final(self).spec_tree().is_ancestor_up_to(
                    cpu as int,
                    n,
                    final(self).spec_tree().spec_max_level(),
                ) ==> #[trigger] final(self).spec_tree().spec_node_state(n) == old(self).spec_tree().spec_node_state(n),
            forall|n: int|
                0 <= n < final(self).spec_tree().spec_node_count() && !final(self).spec_tree().is_ancestor_up_to(
                    cpu as int,
                    n,
                    final(self).spec_tree().spec_max_level(),
                ) ==> #[trigger] final(self).spec_tree().spec_request(n, cpu as int) == old(self).spec_tree().spec_request(n, cpu as int),
            forall|n: int, c: int|
                0 <= n < final(self).spec_tree().spec_node_count() && final(self).spec_tree().is_cpu(c) && c
                    != cpu ==> #[trigger] final(self).spec_tree().spec_request(n, c) == old(self).spec_tree().spec_request(n, c),
            final(self).spec_requests() == old(self).spec_requests().push(
                if old(self).spec_tree().spec_affinity(cpu as int) == AffinityInfo::OnPending {
                    PlatformRequest::PowerDomainOnFinish(spec_local_states(old(self).spec_tree(), cpu as int))
                } else {
                    PlatformRequest::PowerDomainSuspendFinish(
                        spec_local_states(old(self).spec_tree(), cpu as int),
                    )
                },
            ),
    {
        let affinity_info = self.power_domain_tree.affinity(cpu);
        let composite = PsciCompositePowerState::new(self.power_domain_tree.composite_from_nodes(cpu));
        if affinity_info == AffinityInfo::OnPending {
            // Finishing CPU_ON
            self.platform.power_domain_on_finish(&composite);
            SPMD.handle_cold_boot();
            self.power_domain_tree.set_affinity(cpu, AffinityInfo::On);
        } else {
            // Waking up from suspend
            SPMD.handle_warm_boot();
            self.platform.power_domain_suspend_finish(&composite);
        }
        proof {
            assert(composite.states@ =~= spec_local_states(old(self).spec_tree(), cpu as int));
        }
        self.power_domain_tree.restore_running(cpu);
        let entry = self.power_domain_tree.entry_point(cpu);
        self.power_domain_tree.set_entry_point(cpu, None);
        match entry {
            Some(e) => e,
            None => {
                proof {
                    assert(false);
                }
                // The entry point was set: this cannot be reached.
                EntryPoint::Entry64 { entry_point_address: 0, context_id: 0 }
            },
        }
    }

    /// Handles the `CPU_OFF` PSCI call from CPU `cpu`: requests the power down state for the CPU
    /// and all its ancestors, coordinates them, marks the CPU off and powers it down. If the
    /// platform's early housekeeping fails, its error is returned and nothing changes.
    pub fn cpu_off(&mut self, cpu: usize) -> (ret: Result<(), ErrorCode>)
        requires
            old(self).inv(),
            old(self).is_running(cpu as int),
        ensures
            final(self).inv(),
            ret is Err ==> final(self).spec_tree() == old(self).spec_tree(),
            ret is Err ==> final(self).spec_requests() == old(self).spec_requests().push(
                PlatformRequest::PowerDomainOffEarly(
                    Seq::new(
                        (old(self).spec_tree().spec_max_level() + 1) as nat,
                        |l: int| T::PlatformPowerState::spec_off(),
                    ),
                    ret,
                ),
            ),
            ret is Ok ==> final(self).spec_requests() == old(self).spec_requests().push(
                PlatformRequest::PowerDomainOffEarly(
                    Seq::new(
                        (old(self).spec_tree().spec_max_level() + 1) as nat,
                        |l: int| T::PlatformPowerState::spec_off(),
                    ),
                    ret,
                ),
            ).push(
                PlatformRequest::PowerDomainOff(spec_local_states(final(self).spec_tree(), cpu as int)),
            ).push(
                PlatformRequest::PowerDomainPowerDownWfi(
                    spec_local_states(final(self).spec_tree(), cpu as int),
                ),
            ),
            ret is Ok ==> {
                &&& final(self).spec_tree().spec_affinity(cpu as int) == AffinityInfo::Off
                &&& final(self).spec_tree().spec_cpu_state(cpu as int) == T::PlatformPowerState::spec_off()
                &&& forall|l: int|
                    final(self).spec_tree().is_upper_level(l) ==> #[trigger] final(self).spec_tree().spec_request(
                        final(self).spec_tree().spec_ancestor(cpu as int, l),
                        cpu as int,
                    ) == T::PlatformPowerState::spec_off()
                &&& forall|c: int|
                    final(self).spec_tree().is_cpu(c) && c != cpu ==> {
                        &&& #[trigger] final(self).spec_tree().spec_affinity(c) == old(self).spec_tree().spec_affinity(c)
                        &&& final(self).spec_tree().spec_cpu_state(c) == old(self).spec_tree().spec_cpu_state(c)
                        &&& final(self).spec_tree().spec_entry_point(c) == old(self).spec_tree().spec_entry_point(c)
                    }
                &&& forall|n: int, c: int|
                    0 <= n < final(self).spec_tree().spec_node_count() && final(self).spec_tree().is_cpu(c) && c
                        != cpu ==> #[trigger] final(self).spec_tree().spec_request(n, c) == old(self).spec_tree().spec_request(n, c)
                &&& final(self).spec_tree().spec_entry_point(cpu as int) == old(self).spec_tree().spec_entry_point(cpu as int)
            },
            T::spec_off_early_succeeds() ==> ret is Ok,
    {
        let max_level = self.power_domain_tree.max_level();
        let off_state = PsciCompositePowerState::<T::PlatformPowerState>::off(max_level + 1);
        let early = self.platform.power_domain_off_early(&off_state);
        self.finish_cpu_off(cpu, early)
    }

    /// Completes `CPU_OFF` of CPU `cpu` with the result `early` of the platform's early
    /// housekeeping: if it failed, its error is returned and nothing changes; otherwise the power
    /// down state is requested for the CPU and all its ancestors, they are coordinated, the CPU is
    /// marked off and powered down.
    pub fn finish_cpu_off(&mut self, cpu: usize, early: Result<(), ErrorCode>) -> (ret: Result<
        (),
        ErrorCode,
    >)
        requires
            old(self).inv(),
            old(self).is_running(cpu as int),
        ensures
            final(self).inv(),
            ret == early,
            ret is Err ==> *final(self) == *old(self),
            ret is Ok ==> {
                &&& final(self).spec_tree().spec_affinity(cpu as int) == AffinityInfo::Off
                &&& final(self).spec_tree().spec_cpu_state(cpu as int) == T::PlatformPowerState::spec_off()
                &&& forall|l: int|
                    final(self).spec_tree().is_upper_level(l) ==> #[trigger] final(self).spec_tree().spec_request(
                        final(self).spec_tree().spec_ancestor(cpu as int, l),
                        cpu as int,
                    ) == T::PlatformPowerState::spec_off()
                &&& forall|c: int|
                    final(self).spec_tree().is_cpu(c) && c != cpu ==> {
                        &&& #[trigger] final(self).spec_tree().spec_affinity(c) == old(self).spec_tree().spec_affinity(c)
                        &&& final(self).spec_tree().spec_cpu_state(c) == old(self).spec_tree().spec_cpu_state(c)
                        &&& final(self).spec_tree().spec_entry_point(c) == old(self).spec_tree().spec_entry_point(c)
                    }
                &&& forall|n: int, c: int|
                    0 <= n < final(self).spec_tree().spec_node_count() && final(self).spec_tree().is_cpu(c) && c
                        != cpu ==> #[trigger] final(self).spec_tree().spec_request(n, c) == old(self).spec_tree().spec_request(n, c)
                &&& final(self).spec_tree().spec_entry_point(cpu as int) == old(self).spec_tree().spec_entry_point(cpu as int)
            },
            ret is Err ==> final(self).spec_requests() == old(self).spec_requests(),
            ret is Ok ==> final(self).spec_requests() == old(self).spec_requests().push(
                PlatformRequest::PowerDomainOff(spec_local_states(final(self).spec_tree(), cpu as int)),
            ).push(
                PlatformRequest::PowerDomainPowerDownWfi(
                    spec_local_states(final(self).spec_tree(), cpu as int),
                ),
            ),
    {
        if early.is_err() {
            return early;
        }
        let max_level = self.power_domain_tree.max_level();
        let off_state = PsciCompositePowerState::<T::PlatformPowerState>::off(max_level + 1);
        let mut states = off_state.states;
        proof {
            assert(is_non_increasing(states@));
        }
        self.power_domain_tree.enter_state(cpu, &mut states, max_level);
        let composite_state = PsciCompositePowerState::new(states);
        self.platform.power_domain_off(&composite_state);
        self.power_domain_tree.set_affinity(cpu, AffinityInfo::Off);
        self.platform.power_domain_power_down_wfi(&composite_state);
        proof {
            assert(composite_state.states@ =~= spec_local_states(self.spec_tree(), cpu as int));
        }
        early
    }

    /// Handles the `CPU_SUSPEND` PSCI call from CPU `cpu` with the power state `power_state` and
    /// the non-secure entry point `entry`.
    ///
    /// The power state is parsed by the platform and planned by `plan_suspend`: an unknown or
    /// invalid request is an invalid parameter. A standby of the CPU alone waits in the
    /// platform's standby and leaves the CPU running again. Otherwise, a power down request needs
    /// a valid entry point, and `cpu_suspend_start` suspends the CPU.
    pub fn cpu_suspend(&mut self, cpu: usize, power_state: PowerState, entry: EntryPoint) -> (ret:
        Result<(), ErrorCode>)
        requires
            old(self).inv(),
            old(self).is_running(cpu as int),
        ensures
            final(self).inv(),
            ret is Err ==> *final(self) == *old(self),
            ret is Err ==> ret == Err::<(), ErrorCode>(ErrorCode::InvalidParameters) || (ret == Err::<
                (),
                ErrorCode,
            >(ErrorCode::InvalidAddress) && power_state is PowerDown),
            ret is Ok && power_state is StandbyOrRetention ==> final(self).is_running(cpu as int),
            ret is Ok && power_state is StandbyOrRetention ==> final(self).spec_tree().same_states(
                &old(self).spec_tree(),
            ),
            ret is Ok && power_state is PowerDown ==> final(self).spec_tree() == old(self).spec_tree() || exists|
                states: Seq<T::PlatformPowerState>,
                highest_level: int,
            |
                #![trigger is_suspended_to(old(self).spec_tree(), final(self).spec_tree(), cpu as int, states, highest_level, entry)]
                is_suspended_to(
                    old(self).spec_tree(),
                    final(self).spec_tree(),
                    cpu as int,
                    states,
                    highest_level,
                    entry,
                ) && !has_type(states[CPU_POWER_LEVEL as int], PowerStateType::Run),
            match T::spec_parse_power_state(power_state) {
                None => ret == Err::<(), ErrorCode>(ErrorCode::InvalidParameters),
                Some(states) => match spec_suspend_plan(
                    states,
                    power_state is PowerDown,
                    old(self).spec_tree().spec_max_level() + 1,
                ) {
                    Err(e) => ret == Err::<(), ErrorCode>(e),
                    Ok(SuspendPlan::CpuStandby) => {
                        &&& ret is Ok
                        &&& final(self).spec_requests() == old(self).spec_requests().push(
                            PlatformRequest::CpuStandby(states[CPU_POWER_LEVEL as int]),
                        )
                    },
                    Ok(SuspendPlan::Suspend { highest_level }) => if power_state is PowerDown
                        && !T::spec_is_valid_ns_entrypoint(entry) {
                        ret == Err::<(), ErrorCode>(ErrorCode::InvalidAddress)
                    } else {
                        &&& ret is Ok
                        &&& final(self).spec_requests().len() > old(self).spec_requests().len()
                        &&& T::spec_never_pending() ==> final(self).spec_requests()[old(
                            self,
                        ).spec_requests().len() as int] == PlatformRequest::<T::PlatformPowerState>::HasPendingInterrupts(false)
                        &&& final(self).spec_requests()[old(self).spec_requests().len() as int] matches PlatformRequest::HasPendingInterrupts(
                            pending,
                        ) && final(self).is_suspend_outcome(
                            old(self).spec_tree(),
                            old(self).spec_requests().push(PlatformRequest::HasPendingInterrupts(pending)),
                            pending,
                            cpu as int,
                            states,
                            highest_level as int,
                            entry,
                            power_state is PowerDown,
                        )
                    },
                },
            },
    {
        let composite_state = match T::try_parse_power_state(power_state) {
            Some(composite_state) => composite_state,
            None => return Err(ErrorCode::InvalidParameters),
        };
        let is_power_down_state = match power_state {
            PowerState::PowerDown(_) => true,
            PowerState::StandbyOrRetention(_) => false,
        };
        let max_level = self.power_domain_tree.max_level();
        match plan_suspend(&composite_state, is_power_down_state, max_level + 1) {
            Err(error) => Err(error),
            Ok(SuspendPlan::CpuStandby) => {
                // CPU standby which does not affect parent nodes
                let cpu_pd_state = composite_state.cpu_level_state();
                proof {
                    assert(self.spec_tree().cpu_requests_ok(cpu as int));
                }
                self.power_domain_tree.set_cpu_state_within_run(cpu, cpu_pd_state);
                // Wait for an interrupt in the platform's standby state.
                self.platform.cpu_standby(cpu_pd_state);
                self.power_domain_tree.set_cpu_state_within_run(cpu, T::PlatformPowerState::run());
                Ok(())
            },
            Ok(SuspendPlan::Suspend { highest_level }) => {
                if is_power_down_state && !self.platform.is_valid_ns_entrypoint(&entry) {
                    return Err(ErrorCode::InvalidAddress);
                }
                proof {
                    let states = composite_state.states@;
                    lemma_valid_suspend_request_suspends_cpu(states, is_power_down_state);
                    T::PlatformPowerState::lemma_order(states[0], states[0]);
                }
                self.cpu_suspend_start(
                    cpu,
                    entry,
                    highest_level,
                    composite_state,
                    is_power_down_state,
                )
            },
        }
    }

    /// Suspends CPU `cpu` to the composite state `composite_state`, which affects the levels up to
    /// `highest_affected_level`, unless an interrupt is pending.
    ///
    /// The CPU's ancestors up to that level are coordinated and the CPU takes its requested
    /// state. A power down stores the entry point for the CPU's boot and powers the CPU down;
    /// a standby waits for an interrupt and then puts the CPU and its ancestors back in the
    /// running state.
    pub fn cpu_suspend_start(
        &mut self,
        cpu: usize,
        entry: EntryPoint,
        highest_affected_level: usize,
        composite_state: PsciCompositePowerState<T::PlatformPowerState>,
        is_power_down_state: bool,
    ) -> (ret: Result<(), ErrorCode>)
        requires
            old(self).inv(),
            old(self).is_running(cpu as int),
            composite_state.states@.len() == old(self).spec_tree().spec_max_level() + 1,
            is_non_increasing(composite_state.states@),
            highest_affected_level <= old(self).spec_tree().spec_max_level(),
            !has_type(composite_state.states@[CPU_POWER_LEVEL as int], PowerStateType::Run),
        ensures
            final(self).inv(),
            ret is Ok,
            !is_power_down_state ==> final(self).is_running(cpu as int),
            !is_power_down_state ==> final(self).spec_tree().same_states(&old(self).spec_tree()),
            final(self).spec_requests().len() > old(self).spec_requests().len(),
            final(self).spec_requests()[old(self).spec_requests().len() as int] matches PlatformRequest::HasPendingInterrupts(
                pending,
            ) && final(self).is_suspend_outcome(
                old(self).spec_tree(),
                old(self).spec_requests().push(PlatformRequest::HasPendingInterrupts(pending)),
                pending,
                cpu as int,
                composite_state.states@,
                highest_affected_level as int,
                entry,
                is_power_down_state,
            ),
            is_power_down_state ==> final(self).spec_tree() == old(self).spec_tree() || is_suspended_to(
                old(self).spec_tree(),
                final(self).spec_tree(),
                cpu as int,
                composite_state.states@,
                highest_affected_level as int,
                entry,
            ),
            T::spec_never_pending() ==> final(self).spec_requests()[old(
                self,
            ).spec_requests().len() as int] == PlatformRequest::<T::PlatformPowerState>::HasPendingInterrupts(false),
    {
        let pending = self.platform.has_pending_interrupts();
        let ghost logged = self.spec_requests();
        let ret = self.suspend_unless_pending(
            pending,
            cpu,
            entry,
            highest_affected_level,
            composite_state,
            is_power_down_state,
        );
        proof {
            if pending {
                assert(self.spec_requests() == logged);
            } else if is_power_down_state {
                assert(self.spec_requests()[logged.len() - 1] == logged[logged.len() - 1]);
            } else {
                assert(self.spec_requests()[logged.len() - 1] == self.spec_requests().subrange(
                    0,
                    logged.len() as int,
                )[logged.len() - 1]);
            }
        }
        ret
    }

    /// Suspends CPU `cpu` to the composite state `composite_state`, which affects the levels up to
    /// `highest_affected_level`, if no interrupt is pending (`pending`, as the platform reported
    /// it); with an interrupt pending nothing changes.
    ///
    /// The CPU's ancestors up to that level are coordinated and the CPU takes its requested
    /// state. A power down stores the entry point for the CPU's boot and powers the CPU down;
    /// a standby waits for an interrupt and then puts the CPU and its ancestors back in the
    /// running state.
    pub fn suspend_unless_pending(
        &mut self,
        pending: bool,
        cpu: usize,
        entry: EntryPoint,
        highest_affected_level: usize,
        composite_state: PsciCompositePowerState<T::PlatformPowerState>,
        is_power_down_state: bool,
    ) -> (ret: Result<(), ErrorCode>)
        requires
            old(self).inv(),
            old(self).is_running(cpu as int),
            composite_state.states@.len() == old(self).spec_tree().spec_max_level() + 1,
            is_non_increasing(composite_state.states@),
            highest_affected_level <= old(self).spec_tree().spec_max_level(),
            !has_type(composite_state.states@[CPU_POWER_LEVEL as int], PowerStateType::Run),
        ensures
            final(self).inv(),
            ret is Ok,
            pending ==> *final(self) == *old(self),
            !pending && !is_power_down_state ==> {
                &&& final(self).spec_requests().len() == old(self).spec_requests().len() + 3
                &&& final(self).spec_requests().subrange(0, old(self).spec_requests().len() as int)
                    == old(self).spec_requests()
                &&& is_standby_requests(
                    final(self).spec_requests().subrange(
                        old(self).spec_requests().len() as int,
                        final(self).spec_requests().len() as int,
                    ),
                    old(self).spec_tree(),
                    cpu as int,
                    composite_state.states@,
                    highest_affected_level as int,
                )
            },
            !pending && is_power_down_state ==> final(self).spec_requests() == old(self).spec_requests().push(
                PlatformRequest::PowerDomainSuspend(
                    spec_suspended_states(
                        final(self).spec_tree(),
                        cpu as int,
                        composite_state.states@,
                        highest_affected_level as int,
                    ),
                ),
            ).push(
                PlatformRequest::PowerDomainPowerDownWfi(
                    spec_suspended_states(
                        final(self).spec_tree(),
                        cpu as int,
                        composite_state.states@,
                        highest_affected_level as int,
                    ),
                ),
            ),
            !pending && !is_power_down_state ==> final(self).is_running(cpu as int),
            !pending && !is_power_down_state ==> final(self).spec_tree().same_states(
                &old(self).spec_tree(),
            ),
            !pending && is_power_down_state ==> is_suspended_to(
                old(self).spec_tree(),
                final(self).spec_tree(),
                cpu as int,
                composite_state.states@,
                highest_affected_level as int,
                entry,
            ),
            final(self).is_suspend_outcome(
                old(self).spec_tree(),
                old(self).spec_requests(),
                pending,
                cpu as int,
                composite_state.states@,
                highest_affected_level as int,
                entry,
                is_power_down_state,
            ),
    {
        if pending {
            // Has pending interrupts, do not suspend
            return Ok(());
        }
        let last_power_level = composite_state.last_power_level;
        let mut states = composite_state.states;
        let ghost requested_cpu_state = states@[0];
        let ghost requested = states@;
        let ghost before = self.spec_tree();
        self.power_domain_tree.enter_state(cpu, &mut states, highest_affected_level);
        let ghost suspended = self.spec_tree();
        if is_power_down_state {
            self.power_domain_tree.set_entry_point(cpu, Some(entry));
            proof {
                let after = self.spec_tree();
                PowerDomainTree::lemma_same_shape_trans(&before, &suspended, &after);
                let c0 = cpu as int;
                let h = highest_affected_level as int;
                assert forall|l: int| 1 <= l <= h implies #[trigger] after.spec_request(
                    after.spec_ancestor(c0, l),
                    c0,
                ) == requested[l] by {
                    assert(after.spec_ancestor(c0, l) == suspended.spec_ancestor(c0, l));
                    assert(suspended.spec_request(suspended.spec_ancestor(c0, l), c0) == requested[l]);
                }
                assert forall|l: int| h < l <= after.spec_max_level() implies #[trigger] after.spec_request(
                    after.spec_ancestor(c0, l),
                    c0,
                ) == T::PlatformPowerState::spec_run() by {
                    assert(after.spec_ancestor(c0, l) == suspended.spec_ancestor(c0, l));
                    assert(suspended.spec_request(suspended.spec_ancestor(c0, l), c0)
                        == T::PlatformPowerState::spec_run());
                }
                assert forall|n: int|
                    0 <= n < after.spec_node_count() && !after.is_ancestor_up_to(c0, n, h) implies #[trigger] after.spec_node_state(n)
                        == before.spec_node_state(n) by {
                    assert(after.spec_node_state(n) == suspended.spec_node_state(n));
                    assert(suspended.spec_node_level(n) == after.spec_node_level(n));
                    if 1 <= after.spec_node_level(n) <= after.spec_max_level() {
                        assert(suspended.spec_ancestor(c0, after.spec_node_level(n)) == after.spec_ancestor(
                            c0,
                            after.spec_node_level(n),
                        ));
                    }
                }
                assert forall|n: int|
                    0 <= n < after.spec_node_count() && !after.is_ancestor_up_to(c0, n, h) implies #[trigger] after.spec_request(
                        n,
                        c0,
                    ) == before.spec_request(n, c0) by {
                    assert(after.spec_request(n, c0) == suspended.spec_request(n, c0));
                    assert(suspended.spec_node_level(n) == after.spec_node_level(n));
                    if 1 <= after.spec_node_level(n) <= after.spec_max_level() {
                        assert(suspended.spec_ancestor(c0, after.spec_node_level(n)) == after.spec_ancestor(
                            c0,
                            after.spec_node_level(n),
                        ));
                    }
                }
                assert forall|n: int, c: int|
                    0 <= n < after.spec_node_count() && after.is_cpu(c) && c != c0 implies #[trigger] after.spec_request(
                        n,
                        c,
                    ) == before.spec_request(n, c) by {
                    assert(after.spec_request(n, c) == suspended.spec_request(n, c));
                }
                assert forall|c: int| after.is_cpu(c) && c != c0 implies {
                    &&& #[trigger] after.spec_cpu_state(c) == before.spec_cpu_state(c)
                    &&& after.spec_entry_point(c) == before.spec_entry_point(c)
                } by {
                    assert(after.spec_cpu_state(c) == suspended.spec_cpu_state(c));
                    assert(suspended.spec_entry_point(c) == before.spec_entry_point(c));
                }
                assert forall|c: int| after.is_cpu(c) implies #[trigger] after.spec_affinity(c)
                    == before.spec_affinity(c) by {
                    assert(suspended.spec_affinity(c) == before.spec_affinity(c));
                }
                assert(after.spec_cpu_state(c0) == suspended.spec_cpu_state(c0));
            }
        }
        let target_state = PsciCompositePowerState { states, last_power_level };
        let ghost old_requests = self.spec_requests();
        proof {
            assert(target_state.states@ =~= spec_suspended_states(
                self.spec_tree(),
                cpu as int,
                requested,
                highest_affected_level as int,
            ));
        }
        self.platform.power_domain_suspend(&target_state);
        if is_power_down_state {
            self.platform.power_domain_power_down_wfi(&target_state);
            proof {
                assert(self.spec_tree().spec_cpu_state(cpu as int) == requested_cpu_state);
            }
        } else {
            // Go to suspend by waiting for interrupts.
            self.platform.wait_for_interrupt();
            // Restore running state after wake-up.
            let woken_state = PsciCompositePowerState::new(
                self.power_domain_tree.composite_from_nodes(cpu),
            );
            self.platform.power_domain_suspend_finish(&woken_state);
            proof {
                let log = self.spec_requests();
                let new = log.subrange(old_requests.len() as int, log.len() as int);
                assert(log.subrange(0, old_requests.len() as int) =~= old_requests);
                assert(new =~= seq![
                    PlatformRequest::PowerDomainSuspend(target_state.states@),
                    PlatformRequest::WaitForInterrupt,
                    PlatformRequest::PowerDomainSuspendFinish(woken_state.states@),
                ]);
                assert forall|l: int|
                    highest_affected_level < l < requested.len() implies #[trigger] woken_state.states@[l]
                        == spec_local_states(before, cpu as int)[l] by {
                    let n = suspended.spec_ancestor(cpu as int, l);
                    assert(suspended.spec_ancestor(cpu as int, l) == before.spec_ancestor(cpu as int, l));
                    assert(!suspended.is_ancestor_up_to(cpu as int, n, highest_affected_level as int));
                }
            }
            self.power_domain_tree.restore_running(cpu);
            proof {
                assert(self.spec_tree().spec_affinity(cpu as int) == AffinityInfo::On);
                PowerDomainTree::lemma_suspend_and_wake_restores(
                    &before,
                    &suspended,
                    &self.spec_tree(),
                    cpu as int,
                    highest_affected_level as int,
                );
            }
        }
        Ok(())
    }

    /// Handles the `SYSTEM_OFF` PSCI call: shuts down the system.
    pub fn system_off(&mut self)
        ensures
            final(self).spec_tree() == old(self).spec_tree(),
            final(self).spec_requests() == old(self).spec_requests().push(PlatformRequest::SystemOff),
    {
        self.platform.system_off();
    }

    /// Handles the `SYSTEM_OFF2` PSCI call: suspends the system to disk if the platform
    /// implements it, and otherwise returns `NOT_SUPPORTED`.
    pub fn system_off2(&mut self, off_type: SystemOff2Type, cookie: Cookie) -> (ret: Result<
        (),
        ErrorCode,
    >)
        ensures
            final(self).spec_tree() == old(self).spec_tree(),
            if T::spec_features() & PsciPlatformOptionalFeatures::SYSTEM_OFF2
                == PsciPlatformOptionalFeatures::SYSTEM_OFF2 {
                final(self).spec_requests() == old(self).spec_requests().push(
                    PlatformRequest::SystemOff2(off_type, cookie, ret),
                )
            } else {
                &&& ret == Err::<(), ErrorCode>(ErrorCode::NotSupported)
                &&& final(self).spec_requests() == old(self).spec_requests()
            },
    {
        match check_features(T::features(), PsciPlatformOptionalFeatures::SYSTEM_OFF2) {
            Ok(()) => {
                let ret = self.platform.system_off2(off_type, cookie);
                ret
            },
            Err(error) => Err(error),
        }
    }

    /// Handles the `SYSTEM_RESET` PSCI call: resets the system.
    pub fn system_reset(&mut self)
        ensures
            final(self).spec_tree() == old(self).spec_tree(),
            final(self).spec_requests() == old(self).spec_requests().push(PlatformRequest::SystemReset),
    {
        self.platform.system_reset();
    }

    /// Handles the `SYSTEM_RESET2` PSCI call: resets the system in the given way if the platform
    /// implements it, and otherwise returns `NOT_SUPPORTED`.
    pub fn system_reset2(&mut self, reset_type: ResetType, cookie: Cookie) -> (ret: Result<
        (),
        ErrorCode,
    >)
        ensures
            final(self).spec_tree() == old(self).spec_tree(),
            if T::spec_features() & PsciPlatformOptionalFeatures::SYSTEM_RESET2
                == PsciPlatformOptionalFeatures::SYSTEM_RESET2 {
                final(self).spec_requests() == old(self).spec_requests().push(
                    PlatformRequest::SystemReset2(reset_type, cookie, ret),
                )
            } else {
                &&& ret == Err::<(), ErrorCode>(ErrorCode::NotSupported)
                &&& final(self).spec_requests() == old(self).spec_requests()
            },
    {
        match check_features(T::features(), PsciPlatformOptionalFeatures::SYSTEM_RESET2) {
            Ok(()) => {
                let ret = self.platform.system_reset2(reset_type, cookie);
                ret
            },
            Err(error) => Err(error),
        }
    }
}

/// After `CPU_ON` of an off CPU succeeds (`begin_cpu_on`, then `complete_cpu_on` with the
/// platform's success), the CPU may boot, and the entry point that its boot returns is the one
/// given to `CPU_ON`.
pub proof fn lemma_cpu_on_then_boot<P: PlatformPowerStateInterface>(
    before: PowerDomainTree<P>,
    pending: PowerDomainTree<P>,
    on: PowerDomainTree<P>,
    cpu: int,
    entry: EntryPoint,
)
    requires
        before.inv(),
        before.is_cpu(cpu),
        before.spec_affinity(cpu) == AffinityInfo::Off,
        pending.spec_affinity(cpu) == AffinityInfo::OnPending,
        pending.same_states_except_affinity(&before, cpu),
        on.spec_entry_point(cpu) == Some(entry),
        on.same_states_except_entry(&pending, cpu),
    ensures
        on.is_cpu(cpu),
        on.spec_affinity(cpu) == AffinityInfo::OnPending,
        on.spec_entry_point(cpu) is Some,
        on.spec_entry_point(cpu) == Some(entry),
{
    assert(on.spec_affinity(cpu) == pending.spec_affinity(cpu));
}

impl<T: PsciPlatformInterface> Service for Psci<T> {
    open spec fn spec_owns(function: FunctionId) -> bool {
        spec_owns_range(
            function,
            OwningEntityNumber::STANDARD_SECURE,
            FUNCTION_NUMBER_MIN,
            FUNCTION_NUMBER_MAX,
        )
    }

    /// `PSCI_VERSION` from the normal world is answered with version 1.3; no other PSCI call is
    /// handled through the SMC entry, nor any call from another world: `NOT_SUPPORTED` is
    /// returned as a 32-bit value.
    open spec fn spec_handle_smc(
        function: FunctionId,
        x1: u64,
        x2: u64,
        x3: u64,
        x4: u64,
        world: World,
    ) -> Seq<u64> {
        if function.0 == PSCI_VERSION && world == World::NonSecure {
            seq![PSCI_VERSION_1_3 as u64]
        } else {
            seq![ErrorCode::NotSupported.spec_code() as u32 as u64]
        }
    }

    fn owns(function: FunctionId) -> (owns: bool) {
        owns_range(
            function,
            OwningEntityNumber::STANDARD_SECURE,
            FUNCTION_NUMBER_MIN,
            FUNCTION_NUMBER_MAX,
        )
    }

    fn handle_smc(
        function: FunctionId,
        _x1: u64,
        _x2: u64,
        _x3: u64,
        _x4: u64,
        world: World,
    ) -> (ret: SmcReturn) {
        if function.0 == PSCI_VERSION && world == World::NonSecure {
            PSCI_VERSION_1_3.into()
        } else {
            let result = ErrorCode::NotSupported.code() as u32;
            result.into()
        }
    }
}

} // verus!
