//! A fake platform for unit tests: 13 cores in a system of 2 SoCs of 2 clusters each, where each
//! cluster has 3 cores except the last one, which has 4.

use vstd::prelude::*;

use crate::services::psci::power_domain_tree::{first_child, is_bfs_parent, is_level_assignment, is_valid_topology};
use crate::services::psci::{
    PlatformRequest,
    Cookie, EntryPoint, ErrorCode, Mpidr, PlatformPowerStateInterface, PowerState, PowerStateType,
    PsciCompositePowerState, PsciPlatformInterface, PsciPlatformOptionalFeatures, ResetType,
    SystemOff2Type,
};

verus! {

/// The index of the system power domain.
pub const SYSTEM_DOMAIN_INDEX: u8 = 0;
/// The number of SoCs in the system.
pub const SOCS_PER_SYSTEM: usize = 2;
/// The number of clusters in each SoC.
pub const CLUSTERS_PER_SOC: usize = 2;
/// The number of cores in each cluster but the last.
pub const CORES_PER_CLUSTER: usize = 3;
/// The number of cores in the last cluster.
pub const CORES_PER_CLUSTER_LAST: usize = 4;

/// A fake platform for unit tests.
pub struct TestPlatform;

/// Whether `mpidr` names a core of the test platform.
pub open spec fn spec_test_mpidr_is_valid(mpidr: Mpidr) -> bool {
    let system_index = match mpidr.aff3 {
        Some(a) => a,
        None => SYSTEM_DOMAIN_INDEX,
    };
    &&& system_index == SYSTEM_DOMAIN_INDEX
    &&& mpidr.aff2 < SOCS_PER_SYSTEM
    &&& mpidr.aff1 < CLUSTERS_PER_SOC
    &&& if mpidr.aff2 == SOCS_PER_SYSTEM - 1 && mpidr.aff1 == CLUSTERS_PER_SOC - 1 {
        mpidr.aff0 < CORES_PER_CLUSTER_LAST
    } else {
        mpidr.aff0 < CORES_PER_CLUSTER
    }
}

/// The linear index of the core with the given MPIDR.
pub open spec fn spec_test_core_pos(mpidr: Mpidr) -> nat {
    ((mpidr.aff2 * CLUSTERS_PER_SOC + mpidr.aff1) * CORES_PER_CLUSTER + mpidr.aff0) as nat
}

impl TestPlatform {
    /// The number of CPU cores.
    pub const CORE_COUNT: usize = 13;
    /// The size in bytes of the largest cache line across all the cache levels.
    pub const CACHE_WRITEBACK_GRANULE: usize = 64;

    /// Returns whether the given MPIDR is valid for this platform.
    pub fn mpidr_is_valid(mpidr: Mpidr) -> (valid: bool)
        ensures
            valid == spec_test_mpidr_is_valid(mpidr),
    {
        let system_index = match mpidr.aff3 {
            Some(a) => a,
            None => SYSTEM_DOMAIN_INDEX,
        };
        let soc_index = mpidr.aff2 as usize;
        let cluster_index = mpidr.aff1 as usize;
        let core_index = mpidr.aff0 as usize;

        // Validate System, SoC and Cluster indexes
        if system_index != SYSTEM_DOMAIN_INDEX || soc_index >= SOCS_PER_SYSTEM || cluster_index
            >= CLUSTERS_PER_SOC {
            return false;
        }
        // Validate Core index
        let is_last_cluster = soc_index == SOCS_PER_SYSTEM - 1 && cluster_index == CLUSTERS_PER_SOC
            - 1;
        if is_last_cluster {
            core_index < CORES_PER_CLUSTER_LAST
        } else {
            core_index < CORES_PER_CLUSTER
        }
    }
}

/// Given the `MPIDR_EL1` value of a core of the platform, returns its linear core index.
pub fn plat_calc_core_pos(mpidr: u64) -> (index: usize)
    requires
        spec_test_mpidr_is_valid(Mpidr::spec_from_register_value(mpidr)),
    ensures
        index == spec_test_core_pos(Mpidr::spec_from_register_value(mpidr)),
        index < TestPlatform::CORE_COUNT,
{
    let mpidr = Mpidr::from_register_value(mpidr);
    let soc_index = mpidr.aff2 as usize;
    let cluster_index = mpidr.aff1 as usize;
    let core_index = mpidr.aff0 as usize;
    ((soc_index * CLUSTERS_PER_SOC) + cluster_index) * CORES_PER_CLUSTER + core_index
}

/// Distinct cores of the test platform have distinct linear indices below the core count.
pub proof fn lemma_test_core_pos_unique(a: Mpidr, b: Mpidr)
    requires
        spec_test_mpidr_is_valid(a),
        spec_test_mpidr_is_valid(b),
    ensures
        spec_test_core_pos(a) < TestPlatform::CORE_COUNT,
        spec_test_core_pos(a) == spec_test_core_pos(b) ==> a.aff0 == b.aff0 && a.aff1 == b.aff1
            && a.aff2 == b.aff2,
{
}

/// The topology of the test platform is a valid tree of four power levels, with 7 non-CPU
/// domains (the system, 2 SoCs and 4 clusters) and 13 CPUs.
pub proof fn lemma_test_topology()
    ensures
        is_valid_topology(TestPsciPlatformImpl::spec_topology(), TestPsciPlatformImpl::MAX_POWER_LEVEL as int),
        TestPsciPlatformImpl::spec_topology().len() - 1 == 7,
        first_child(TestPsciPlatformImpl::spec_topology(), 7) - 7 == TestPlatform::CORE_COUNT,
{
    let t = TestPsciPlatformImpl::spec_topology();
    reveal_with_fuel(first_child, 8);
    assert(first_child(t, 0) == 1);
    assert(first_child(t, 1) == 3);
    assert(first_child(t, 2) == 5);
    assert(first_child(t, 3) == 7);
    assert(first_child(t, 4) == 10);
    assert(first_child(t, 5) == 13);
    assert(first_child(t, 6) == 16);
    assert(first_child(t, 7) == 20);
    let level = |k: int|
        if k == 0 {
            3int
        } else if k <= 2 {
            2int
        } else if k <= 6 {
            1int
        } else {
            0int
        };
    assert forall|p: int, k: int|
        1 <= k < 20 && #[trigger] is_bfs_parent(t, p, k) implies level(k) == level(p) - 1 by {
        assert(0 <= p < 7);
        if p == 0 {
        } else if p == 1 {
        } else if p == 2 {
        } else if p == 3 {
        } else if p == 4 {
        } else if p == 5 {
        } else {
        }
    }
    assert(is_level_assignment(t, 3, level));
}

/// The power states of the test platform, from running to powered down.
#[derive(PartialEq, Debug, Eq, Clone, Copy, Structural)]
pub enum TestPowerState {
    On,
    Standby0,
    Standby1,
    Standby2,
    PowerDown,
}

impl PlatformPowerStateInterface for TestPowerState {
    open spec fn spec_depth(self) -> nat {
        match self {
            TestPowerState::On => 0,
            TestPowerState::Standby0 => 1,
            TestPowerState::Standby1 => 2,
            TestPowerState::Standby2 => 3,
            TestPowerState::PowerDown => 4,
        }
    }

    open spec fn spec_power_state_type(self) -> PowerStateType {
        match self {
            TestPowerState::PowerDown => PowerStateType::PowerDown,
            TestPowerState::On => PowerStateType::Run,
            _ => PowerStateType::StandbyOrRetention,
        }
    }

    open spec fn spec_off() -> Self {
        TestPowerState::PowerDown
    }

    open spec fn spec_run() -> Self {
        TestPowerState::On
    }

    fn off() -> (state: Self) {
        TestPowerState::PowerDown
    }

    fn run() -> (state: Self) {
        TestPowerState::On
    }

    fn power_state_type(&self) -> (state_type: PowerStateType) {
        match self {
            TestPowerState::PowerDown => PowerStateType::PowerDown,
            TestPowerState::Standby0 | TestPowerState::Standby1 | TestPowerState::Standby2 => {
                PowerStateType::StandbyOrRetention
            },
            TestPowerState::On => PowerStateType::Run,
        }
    }

    fn depth(&self) -> (depth: usize) {
        match self {
            TestPowerState::On => 0,
            TestPowerState::Standby0 => 1,
            TestPowerState::Standby1 => 2,
            TestPowerState::Standby2 => 3,
            TestPowerState::PowerDown => 4,
        }
    }

    proof fn lemma_order(a: Self, b: Self) {
    }
}

/// The PSCI platform description of the test platform.
pub struct TestPsciPlatformImpl {
    /// The requests received so far, with what they were handed.
    log: Ghost<Seq<PlatformRequest<TestPowerState>>>,
    /// The kinds of the requests received so far, oldest first.
    calls: Vec<TestPlatformCall>,
}

/// The kind of a request that the test platform has received.
#[derive(Clone, Copy, Debug, PartialEq, Eq, Structural)]
pub enum TestPlatformCall {
    CpuStandby,
    PowerDomainSuspend,
    PowerDomainSuspendFinish,
    PowerDomainOffEarly,
    PowerDomainOff,
    PowerDomainPowerDownWfi,
    PowerDomainOn,
    PowerDomainOnFinish,
    HasPendingInterrupts,
    WaitForInterrupt,
    SystemOff,
    SystemOff2,
    SystemReset,
    SystemReset2,
}

/// The composite power state that a `CPU_SUSPEND` power state parameter requests on the test
/// platform, if it is one the platform supports.
pub open spec fn spec_test_parse_power_state(power_state: PowerState) -> Option<Seq<TestPowerState>> {
    match power_state {
        PowerState::StandbyOrRetention(id) => if id == 0 {
            Some(seq![TestPowerState::Standby0, TestPowerState::On, TestPowerState::On, TestPowerState::On])
        } else if id == 1 {
            Some(seq![TestPowerState::Standby1, TestPowerState::Standby0, TestPowerState::On, TestPowerState::On])
        } else if id == 2 {
            Some(seq![TestPowerState::Standby2, TestPowerState::Standby1, TestPowerState::Standby0, TestPowerState::On])
        } else {
            None
        },
        PowerState::PowerDown(id) => if id == 0 {
            Some(seq![TestPowerState::PowerDown, TestPowerState::PowerDown, TestPowerState::PowerDown, TestPowerState::PowerDown])
        } else {
            None
        },
    }
}

impl TestPsciPlatformImpl {
    /// Count of all power domains.
    pub const POWER_DOMAIN_COUNT: usize = 20;
    /// Maximal power level in the system.
    pub const MAX_POWER_LEVEL: usize = 3;

    /// Creates the platform description.
    pub fn new() -> (platform: Self)
        ensures
            platform.spec_log() == Seq::<PlatformRequest<TestPowerState>>::empty(),
            platform.spec_calls() == Seq::<TestPlatformCall>::empty(),
    {
        TestPsciPlatformImpl { log: Ghost(Seq::empty()), calls: Vec::new() }
    }

    /// The kinds of the requests received so far, oldest first.
    pub closed spec fn spec_calls(&self) -> Seq<TestPlatformCall> {
        self.calls@
    }

    /// Returns the kinds of the requests received so far, oldest first.
    pub fn calls(&self) -> (calls: &[TestPlatformCall])
        ensures
            calls@ == self.spec_calls(),
    {
        self.calls.as_slice()
    }
}

impl PsciPlatformInterface for TestPsciPlatformImpl {
    type PlatformPowerState = TestPowerState;

    open spec fn spec_max_power_level() -> usize {
        Self::MAX_POWER_LEVEL
    }

    fn max_power_level() -> (level: usize) {
        Self::MAX_POWER_LEVEL
    }

    /// System, SoCs, clusters, then the cores of each cluster.
    open spec fn spec_topology() -> Seq<usize> {
        seq![1usize, 2, 2, 2, 3, 3, 3, 4]
    }

    /// All the optional features.
    open spec fn spec_features() -> u64 {
        PsciPlatformOptionalFeatures::ALL_BITS
    }

    /// The optional features: all of them.
    fn features() -> (features: PsciPlatformOptionalFeatures) {
        PsciPlatformOptionalFeatures::all()
    }

    fn topology() -> (topology: &'static [usize]) {
        let topology: &'static [usize] = &[1, 2, 2, 2, 3, 3, 3, 4];
        proof {
            assert(topology@ =~= seq![1usize, 2, 2, 2, 3, 3, 3, 4]);
        }
        topology
    }

    /// The linear core index of a valid MPIDR.
    open spec fn spec_cpu_index_by_mpidr(mpidr: Mpidr) -> Option<usize> {
        if spec_test_mpidr_is_valid(mpidr) {
            Some(spec_test_core_pos(mpidr) as usize)
        } else {
            None
        }
    }

    /// The power states that `spec_test_parse_power_state` gives.
    open spec fn spec_parse_power_state(power_state: PowerState) -> Option<Seq<TestPowerState>> {
        spec_test_parse_power_state(power_state)
    }

    /// The requests received so far.
    closed spec fn spec_log(&self) -> Seq<PlatformRequest<TestPowerState>> {
        self.log@
    }

    /// The housekeeping always succeeds.
    open spec fn spec_off_early_succeeds() -> bool {
        true
    }

    /// Turning on a power domain always succeeds.
    open spec fn spec_power_domain_on_succeeds(mpidr: Mpidr) -> bool {
        true
    }

    /// No interrupt is ever pending.
    open spec fn spec_never_pending() -> bool {
        true
    }

    /// Every entry point is valid.
    open spec fn spec_is_valid_ns_entrypoint(entry: EntryPoint) -> bool {
        true
    }

    /// The linear core index of a valid MPIDR.
    fn try_get_cpu_index_by_mpidr(mpidr: &Mpidr) -> (index: Option<usize>)
        ensures
            match index {
                Some(i) => spec_test_mpidr_is_valid(*mpidr) && i == spec_test_core_pos(*mpidr),
                None => !spec_test_mpidr_is_valid(*mpidr),
            },
    {
        if !TestPlatform::mpidr_is_valid(*mpidr) {
            return None;
        }
        let soc_index = mpidr.aff2 as usize;
        let cluster_index = mpidr.aff1 as usize;
        let core_index = mpidr.aff0 as usize;
        Some(((soc_index * CLUSTERS_PER_SOC) + cluster_index) * CORES_PER_CLUSTER + core_index)
    }

    fn try_parse_power_state(power_state: PowerState) -> (composite: Option<
        PsciCompositePowerState<TestPowerState>,
    >)
        ensures
            match composite {
                Some(c) => spec_test_parse_power_state(power_state) == Some(c.states@)
                    && c.last_power_level == None::<usize>,
                None => spec_test_parse_power_state(power_state) is None,
            },
    {
        let states = match power_state {
            PowerState::StandbyOrRetention(0) => vec![
                TestPowerState::Standby0,
                TestPowerState::On,
                TestPowerState::On,
                TestPowerState::On,
            ],
            PowerState::StandbyOrRetention(1) => vec![
                TestPowerState::Standby1,
                TestPowerState::Standby0,
                TestPowerState::On,
                TestPowerState::On,
            ],
            PowerState::StandbyOrRetention(2) => vec![
                TestPowerState::Standby2,
                TestPowerState::Standby1,
                TestPowerState::Standby0,
                TestPowerState::On,
            ],
            PowerState::PowerDown(0) => vec![
                TestPowerState::PowerDown,
                TestPowerState::PowerDown,
                TestPowerState::PowerDown,
                TestPowerState::PowerDown,
            ],
            _ => return None,
        };
        Some(PsciCompositePowerState::new(states))
    }

    fn cpu_standby(&mut self, cpu_state: TestPowerState)
        ensures
            final(self).spec_log() == old(self).spec_log().push(PlatformRequest::CpuStandby(cpu_state)),
    {
        self.calls.push(TestPlatformCall::CpuStandby);
        self.log = Ghost(self.log@.push(PlatformRequest::CpuStandby(cpu_state)));
    }

    fn power_domain_suspend(&mut self, target_state: &PsciCompositePowerState<TestPowerState>)
        ensures
            final(self).spec_log() == old(self).spec_log().push(PlatformRequest::PowerDomainSuspend(target_state.states@)),
    {
        self.calls.push(TestPlatformCall::PowerDomainSuspend);
        self.log = Ghost(self.log@.push(PlatformRequest::PowerDomainSuspend(target_state.states@)));
    }

    fn power_domain_suspend_finish(&mut self, target_state: &PsciCompositePowerState<TestPowerState>)
        ensures
            final(self).spec_log() == old(self).spec_log().push(PlatformRequest::PowerDomainSuspendFinish(target_state.states@)),
    {
        self.calls.push(TestPlatformCall::PowerDomainSuspendFinish);
        self.log = Ghost(self.log@.push(PlatformRequest::PowerDomainSuspendFinish(target_state.states@)));
    }

    fn power_domain_off_early(&mut self, target_state: &PsciCompositePowerState<TestPowerState>) -> (ret: Result<(), ErrorCode>)
        ensures
            final(self).spec_log() == old(self).spec_log().push(PlatformRequest::PowerDomainOffEarly(target_state.states@, ret)),
            ret is Ok,
    {
        let ret = Ok(());
        self.calls.push(TestPlatformCall::PowerDomainOffEarly);
        self.log = Ghost(self.log@.push(PlatformRequest::PowerDomainOffEarly(target_state.states@, ret)));
        ret
    }

    fn power_domain_off(&mut self, target_state: &PsciCompositePowerState<TestPowerState>)
        ensures
            final(self).spec_log() == old(self).spec_log().push(PlatformRequest::PowerDomainOff(target_state.states@)),
    {
        self.calls.push(TestPlatformCall::PowerDomainOff);
        self.log = Ghost(self.log@.push(PlatformRequest::PowerDomainOff(target_state.states@)));
    }

    /// The test platform cannot power a CPU down: it records the request and returns.
    fn power_domain_power_down_wfi(&mut self, target_state: &PsciCompositePowerState<TestPowerState>)
        ensures
            final(self).spec_log() == old(self).spec_log().push(PlatformRequest::PowerDomainPowerDownWfi(target_state.states@)),
    {
        self.calls.push(TestPlatformCall::PowerDomainPowerDownWfi);
        self.log = Ghost(self.log@.push(PlatformRequest::PowerDomainPowerDownWfi(target_state.states@)));
    }

    fn power_domain_on(&mut self, mpidr: Mpidr) -> (ret: Result<(), ErrorCode>)
        ensures
            final(self).spec_log() == old(self).spec_log().push(PlatformRequest::PowerDomainOn(mpidr, ret)),
            ret is Ok,
    {
        let ret = Ok(());
        self.calls.push(TestPlatformCall::PowerDomainOn);
        self.log = Ghost(self.log@.push(PlatformRequest::PowerDomainOn(mpidr, ret)));
        ret
    }

    fn power_domain_on_finish(&mut self, target_state: &PsciCompositePowerState<TestPowerState>)
        ensures
            final(self).spec_log() == old(self).spec_log().push(PlatformRequest::PowerDomainOnFinish(target_state.states@)),
    {
        self.calls.push(TestPlatformCall::PowerDomainOnFinish);
        self.log = Ghost(self.log@.push(PlatformRequest::PowerDomainOnFinish(target_state.states@)));
    }

    fn is_valid_ns_entrypoint(&self, _entry: &EntryPoint) -> (valid: bool)
        ensures
            valid,
    {
        true
    }

    fn has_pending_interrupts(&mut self) -> (pending: bool)
        ensures
            final(self).spec_log() == old(self).spec_log().push(PlatformRequest::HasPendingInterrupts(pending)),
            !pending,
    {
        let ret = false;
        self.calls.push(TestPlatformCall::HasPendingInterrupts);
        self.log = Ghost(self.log@.push(PlatformRequest::HasPendingInterrupts(ret)));
        ret
    }

    fn wait_for_interrupt(&mut self)
        ensures
            final(self).spec_log() == old(self).spec_log().push(PlatformRequest::WaitForInterrupt),
    {
        self.calls.push(TestPlatformCall::WaitForInterrupt);
        self.log = Ghost(self.log@.push(PlatformRequest::WaitForInterrupt));
    }

    /// The test platform cannot shut down: it records the request and returns.
    fn system_off(&mut self)
        ensures
            final(self).spec_log() == old(self).spec_log().push(PlatformRequest::SystemOff),
    {
        self.calls.push(TestPlatformCall::SystemOff);
        self.log = Ghost(self.log@.push(PlatformRequest::SystemOff));
    }

    fn system_off2(&mut self, off_type: SystemOff2Type, cookie: Cookie) -> (ret: Result<(), ErrorCode>)
        ensures
            final(self).spec_log() == old(self).spec_log().push(PlatformRequest::SystemOff2(off_type, cookie, ret)),
            ret is Ok,
    {
        let ret = Ok(());
        self.calls.push(TestPlatformCall::SystemOff2);
        self.log = Ghost(self.log@.push(PlatformRequest::SystemOff2(off_type, cookie, ret)));
        ret
    }

    /// The test platform cannot reset: it records the request and returns.
    fn system_reset(&mut self)
        ensures
            final(self).spec_log() == old(self).spec_log().push(PlatformRequest::SystemReset),
    {
        self.calls.push(TestPlatformCall::SystemReset);
        self.log = Ghost(self.log@.push(PlatformRequest::SystemReset));
    }

    fn system_reset2(&mut self, reset_type: ResetType, cookie: Cookie) -> (ret: Result<(), ErrorCode>)
        ensures
            final(self).spec_log() == old(self).spec_log().push(PlatformRequest::SystemReset2(reset_type, cookie, ret)),
            ret is Ok,
    {
        let ret = Ok(());
        self.calls.push(TestPlatformCall::SystemReset2);
        self.log = Ghost(self.log@.push(PlatformRequest::SystemReset2(reset_type, cookie, ret)));
        ret
    }
}

/// The `core::fmt::Error` of the standard library, which a write to a formatter returns.
#[verifier::external_type_specification]
#[verifier::external_body]
pub struct ExFmtError(core::fmt::Error);

/// A log sink of the test platform, which writes to the standard output.
pub struct DummyLoggerWriter;

/// The standard output stream of the standard library.
#[verifier::external_type_specification]
#[verifier::external_body]
pub struct ExStdout(std::io::Stdout);

/// Returns a handle to the standard output; calls `std::io::stdout`, of which nothing is claimed.
#[verifier::external_body]
fn stdout() -> std::io::Stdout {
    std::io::stdout()
}

/// Writes `bytes` to `out`, ignoring a failure; calls `std::io::Write::write_all`, of which
/// nothing is claimed.
#[verifier::external_body]
fn write_all(out: &mut std::io::Stdout, bytes: &[u8]) {
    let _ = std::io::Write::write_all(out, bytes);
}

impl core::fmt::Write for DummyLoggerWriter {
    fn write_str(&mut self, s: &str) -> (ret: core::fmt::Result)
        ensures
            ret is Ok,
    {
        let mut out = stdout();
        write_all(&mut out, s.as_bytes());
        Ok(())
    }
}

} // verus!
