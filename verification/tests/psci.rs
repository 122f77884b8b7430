use rf_a::platform::test::{TestPlatformCall, TestPowerState, TestPsciPlatformImpl};
use rf_a::services::psci::power_domain_tree::PowerDomainTree;
use rf_a::services::psci::{
    check_features, plan_suspend, AffinityInfo, ArchitecturalResetType, Cookie, EntryPoint,
    ErrorCode, Mpidr, PowerState, Psci, PsciCompositePowerState, PsciPlatformInterface,
    PsciPlatformOptionalFeatures, ResetType, SuspendPlan, SystemOff2Type, CPU_POWER_LEVEL,
};

const LEVELS: usize = TestPsciPlatformImpl::MAX_POWER_LEVEL + 1;

#[test]
fn psci_composite_power_state() {
    let mut composite_state = PsciCompositePowerState::<TestPowerState>::off(LEVELS);
    assert_eq!(TestPowerState::PowerDown, composite_state.cpu_level_state());

    assert_eq!(
        TestPowerState::PowerDown,
        composite_state.highest_level_state()
    );

    composite_state.states[CPU_POWER_LEVEL] = TestPowerState::On;
    assert_eq!(TestPowerState::On, composite_state.cpu_level_state());

    composite_state = PsciCompositePowerState::off(LEVELS);
    assert_eq!(
        Some(TestPsciPlatformImpl::MAX_POWER_LEVEL),
        composite_state.find_highest_power_down_level()
    );
    assert_eq!(
        Some(TestPsciPlatformImpl::MAX_POWER_LEVEL),
        composite_state.find_highest_non_run_level()
    );

    composite_state.states[TestPsciPlatformImpl::MAX_POWER_LEVEL] = TestPowerState::On;
    assert_eq!(
        Some(TestPsciPlatformImpl::MAX_POWER_LEVEL - 1),
        composite_state.find_highest_power_down_level()
    );
    assert_eq!(
        Some(TestPsciPlatformImpl::MAX_POWER_LEVEL - 1),
        composite_state.find_highest_non_run_level()
    );

    composite_state = PsciCompositePowerState::run(LEVELS);
    assert_eq!(None, composite_state.find_highest_power_down_level());
    assert_eq!(None, composite_state.find_highest_non_run_level());

    composite_state = PsciCompositePowerState::run(LEVELS);
    assert!(!composite_state.is_valid_suspend_request(false));

    composite_state = PsciCompositePowerState::off(LEVELS);
    composite_state.states[CPU_POWER_LEVEL] = TestPowerState::On;
    assert!(!composite_state.is_valid_suspend_request(false));

    composite_state = PsciCompositePowerState::off(LEVELS);
    assert!(composite_state.is_valid_suspend_request(true));
    assert!(!composite_state.is_valid_suspend_request(false));

    composite_state = PsciCompositePowerState::run(LEVELS);
    composite_state.states[CPU_POWER_LEVEL] = TestPowerState::PowerDown;
    assert!(composite_state.is_valid_suspend_request(true));
    assert!(!composite_state.is_valid_suspend_request(false));
}

#[test]
fn psci_composite_power_state_set_from_nodes() {
    let mut tree =
        PowerDomainTree::<TestPowerState>::new(TestPsciPlatformImpl::topology(), TestPsciPlatformImpl::MAX_POWER_LEVEL)
            .unwrap();
    tree.restore_running(2);
    let composite_state = PsciCompositePowerState::new(tree.composite_from_nodes(2));

    assert_eq!(
        vec![TestPowerState::On; TestPsciPlatformImpl::MAX_POWER_LEVEL - CPU_POWER_LEVEL + 1],
        composite_state.states[CPU_POWER_LEVEL..].to_vec()
    )
}

#[test]
fn psci_composite_power_state_coordination() {
    let mut composite_state = PsciCompositePowerState::<TestPowerState>::off(LEVELS);
    composite_state.states[TestPsciPlatformImpl::MAX_POWER_LEVEL - 1] = TestPowerState::On;
    composite_state.states[TestPsciPlatformImpl::MAX_POWER_LEVEL] = TestPowerState::On;
    let mut tree =
        PowerDomainTree::<TestPowerState>::new(TestPsciPlatformImpl::topology(), TestPsciPlatformImpl::MAX_POWER_LEVEL)
            .unwrap();
    tree.restore_running(2);

    tree.coordinate_state(2, &mut composite_state.states, TestPsciPlatformImpl::MAX_POWER_LEVEL);
}

const RUN: TestPowerState = TestPowerState::On;
const OFF: TestPowerState = TestPowerState::PowerDown;

const ENTRY_POINT: EntryPoint = EntryPoint::Entry64 {
    entry_point_address: 0x0123_4567_89ab_cdef,
    context_id: 0xfedc_ba98_7654_3210,
};

const CPU1_MPIDR: Mpidr = Mpidr {
    aff0: 1,
    aff1: 0,
    aff2: 0,
    aff3: Some(0),
};

const INVALID_MPIDR: Mpidr = Mpidr {
    aff0: 100,
    aff1: 100,
    aff2: 100,
    aff3: Some(100),
};

fn new_psci() -> Psci<TestPsciPlatformImpl> {
    Psci::new(TestPsciPlatformImpl::new(), 0).unwrap()
}

#[test]
fn psci_cpu_suspend() {
    let mut psci = new_psci();

    assert_eq!(
        Err(ErrorCode::InvalidParameters),
        psci.cpu_suspend(0, PowerState::StandbyOrRetention(100), ENTRY_POINT)
    );

    assert_eq!(
        Ok(()),
        psci.cpu_suspend(0, PowerState::StandbyOrRetention(0), ENTRY_POINT)
    );

    assert_eq!(
        Ok(()),
        psci.cpu_suspend(0, PowerState::StandbyOrRetention(2), ENTRY_POINT)
    );

    // The CPU is powered down: the test platform records the request and returns.
    assert_eq!(Ok(()), psci.cpu_suspend(0, PowerState::PowerDown(0), ENTRY_POINT));
    assert_eq!(
        psci.platform().calls().last(),
        Some(&TestPlatformCall::PowerDomainPowerDownWfi)
    );

    let entry_point = psci.handle_cpu_boot(0);
    assert_eq!(entry_point, ENTRY_POINT);
}

#[test]
fn psci_cpu_on() {
    let mut psci = new_psci();

    assert_eq!(
        Err(ErrorCode::InvalidParameters),
        psci.cpu_on(INVALID_MPIDR, ENTRY_POINT)
    );

    assert_eq!(Ok(()), psci.cpu_on(CPU1_MPIDR, ENTRY_POINT));
    assert_eq!(psci.platform().calls(), &[TestPlatformCall::PowerDomainOn]);
    assert_eq!(
        Err(ErrorCode::OnPending),
        psci.cpu_on(CPU1_MPIDR, ENTRY_POINT)
    );

    let entry_point = psci.handle_cpu_boot(1);
    assert_eq!(entry_point, ENTRY_POINT);
    assert_eq!(
        psci.platform().calls(),
        &[TestPlatformCall::PowerDomainOn, TestPlatformCall::PowerDomainOnFinish]
    );

    assert_eq!(
        Err(ErrorCode::AlreadyOn),
        psci.cpu_on(CPU1_MPIDR, ENTRY_POINT)
    );
}

#[test]
fn psci_cpu_off() {
    let mut psci = new_psci();

    assert_eq!(Ok(()), psci.cpu_on(CPU1_MPIDR, ENTRY_POINT));

    psci.handle_cpu_boot(1);

    // The test platform returns from the power down at once.
    assert_eq!(Ok(()), psci.cpu_off(1));
    assert_eq!(
        &psci.platform().calls()[psci.platform().calls().len() - 3..],
        &[
            TestPlatformCall::PowerDomainOffEarly,
            TestPlatformCall::PowerDomainOff,
            TestPlatformCall::PowerDomainPowerDownWfi,
        ]
    );
    assert_eq!(
        Ok(AffinityInfo::Off),
        psci.affinity_info(CPU1_MPIDR, CPU_POWER_LEVEL as u32)
    );
}

#[test]
fn psci_affinity_info() {
    let mut psci = new_psci();

    assert_eq!(
        Err(ErrorCode::InvalidParameters),
        psci.affinity_info(INVALID_MPIDR, CPU_POWER_LEVEL as u32)
    );

    assert_eq!(
        Err(ErrorCode::InvalidParameters),
        psci.affinity_info(CPU1_MPIDR, TestPsciPlatformImpl::MAX_POWER_LEVEL as u32)
    );

    assert_eq!(
        Ok(AffinityInfo::Off),
        psci.affinity_info(CPU1_MPIDR, CPU_POWER_LEVEL as u32)
    );

    assert_eq!(Ok(()), psci.cpu_on(CPU1_MPIDR, ENTRY_POINT));

    assert_eq!(
        Ok(AffinityInfo::OnPending),
        psci.affinity_info(CPU1_MPIDR, CPU_POWER_LEVEL as u32)
    );

    let _entry_point = psci.handle_cpu_boot(1);
    assert_eq!(
        Ok(AffinityInfo::On),
        psci.affinity_info(CPU1_MPIDR, CPU_POWER_LEVEL as u32)
    );
}

fn check_ancestor_state(
    psci: &Psci<TestPsciPlatformImpl>,
    cpu_index: usize,
    expected_states: &[TestPowerState],
) {
    let states = psci.local_states(cpu_index);
    assert_eq!(expected_states[0], states[0]);
    for (state, expected_state) in states[1..].iter().zip(&expected_states[1..]) {
        assert_eq!(expected_state, state);
    }
}

#[test]
fn psci_complex_suspend_scenario() {
    // Check correct state in the power domain tree while executing the following steps.
    // * Turn on all CPUs
    // * Power down CPUs 6-13
    // * Power down CPUs 0-5
    // * Wake up CPU0
    // * Wake up CPU6

    let cpus = [
        (0, 0, 0),
        (0, 0, 1),
        (0, 0, 2),
        (0, 1, 0),
        (0, 1, 1),
        (0, 1, 2),
        (1, 0, 0),
        (1, 0, 1),
        (1, 0, 2),
        (1, 1, 0),
        (1, 1, 1),
        (1, 1, 2),
        (1, 1, 3),
    ];

    let mut psci = new_psci();

    assert_eq!(
        Ok(AffinityInfo::On),
        psci.affinity_info(
            Mpidr {
                aff0: 0,
                aff1: 0,
                aff2: 0,
                aff3: Some(0)
            },
            CPU_POWER_LEVEL as u32
        )
    );

    // Turning on all secondary CPUs
    for cpu in &cpus[1..] {
        let mpidr = Mpidr {
            aff0: cpu.2,
            aff1: cpu.1,
            aff2: cpu.0,
            aff3: Some(0),
        };
        assert_eq!(Ok(()), psci.cpu_on(mpidr, ENTRY_POINT));
        assert_eq!(
            Ok(AffinityInfo::OnPending),
            psci.affinity_info(mpidr, CPU_POWER_LEVEL as u32)
        );
    }

    // Boot secondary CPUs
    for (cpu_index, cpu) in cpus.iter().enumerate().skip(1) {
        let mpidr = Mpidr {
            aff0: cpu.2,
            aff1: cpu.1,
            aff2: cpu.0,
            aff3: Some(0),
        };
        assert_eq!(ENTRY_POINT, psci.handle_cpu_boot(cpu_index));
        assert_eq!(
            Ok(AffinityInfo::On),
            psci.affinity_info(mpidr, CPU_POWER_LEVEL as u32)
        );
    }

    for cpu_index in 6..cpus.len() {
        check_ancestor_state(&psci, cpu_index, &[RUN, RUN, RUN, RUN]);
    }

    // Put second cluster in power down suspend
    for (cpu_index, _cpu) in cpus.iter().enumerate().skip(6) {
        assert_eq!(
            Ok(()),
            psci.cpu_suspend(cpu_index, PowerState::PowerDown(0), ENTRY_POINT)
        );
    }

    for cpu_index in 6..cpus.len() {
        check_ancestor_state(&psci, cpu_index, &[OFF, OFF, OFF, RUN]);
    }

    // Power down off all other CPUs
    for (cpu_index, _cpu) in cpus.iter().enumerate().take(6) {
        assert_eq!(
            Ok(()),
            psci.cpu_suspend(cpu_index, PowerState::PowerDown(0), ENTRY_POINT)
        );
    }

    for cpu_index in 0..cpus.len() {
        check_ancestor_state(&psci, cpu_index, &[OFF, OFF, OFF, OFF]);
    }

    // Wake up CPU 0
    assert_eq!(ENTRY_POINT, psci.handle_cpu_boot(0));

    // First CPU is on
    check_ancestor_state(&psci, 0, &[RUN, RUN, RUN, RUN]);

    // First cluster is on, but the CPUs are off
    for cpu_index in 1..3 {
        check_ancestor_state(&psci, cpu_index, &[OFF, RUN, RUN, RUN]);
    }

    // Second cluster is off
    for cpu_index in 3..6 {
        check_ancestor_state(&psci, cpu_index, &[OFF, OFF, RUN, RUN]);
    }

    // The rest of the nodes are off except the top level node
    for cpu_index in 6..cpus.len() {
        check_ancestor_state(&psci, cpu_index, &[OFF, OFF, OFF, RUN]);
    }

    // Wake up CPU 6
    assert_eq!(ENTRY_POINT, psci.handle_cpu_boot(6));

    // CPU 0 is still on
    check_ancestor_state(&psci, 0, &[RUN, RUN, RUN, RUN]);

    // First cluster is on, but the CPUs are off
    for cpu_index in 1..3 {
        check_ancestor_state(&psci, cpu_index, &[OFF, RUN, RUN, RUN]);
    }

    // Second cluster is off
    for cpu_index in 3..6 {
        check_ancestor_state(&psci, cpu_index, &[OFF, OFF, RUN, RUN]);
    }

    // CPU 6 is now on
    check_ancestor_state(&psci, 6, &[RUN, RUN, RUN, RUN]);

    // Third cluster is on, but the CPUs are off
    for cpu_index in 7..9 {
        check_ancestor_state(&psci, cpu_index, &[OFF, RUN, RUN, RUN]);
    }

    // Fourth cluster is off
    for cpu_index in 9..cpus.len() {
        check_ancestor_state(&psci, cpu_index, &[OFF, OFF, RUN, RUN]);
    }
}

#[test]
fn psci_system_off() {
    let mut psci = new_psci();

    // The system is shut down: the test platform records the request and returns.
    psci.system_off();
    assert_eq!(psci.platform().calls(), &[TestPlatformCall::SystemOff]);
}

#[test]
fn psci_system_off2() {
    let mut psci = new_psci();

    let off_type = SystemOff2Type::HibernateOff;
    let cookie = Cookie::Cookie64(0);

    assert_eq!(Ok(()), psci.system_off2(off_type, cookie));
    assert_eq!(psci.platform().calls(), &[TestPlatformCall::SystemOff2]);
}

#[test]
fn psci_system_reset() {
    let mut psci = new_psci();

    // The system is reset: the test platform records the request and returns.
    psci.system_reset();
    assert_eq!(psci.platform().calls(), &[TestPlatformCall::SystemReset]);
}

#[test]
fn psci_system_reset2() {
    let mut psci = new_psci();

    assert_eq!(
        Ok(()),
        psci.system_reset2(
            ResetType::Architectural(ArchitecturalResetType::SystemWarmReset),
            Cookie::Cookie64(0),
        )
    );
    assert_eq!(psci.platform().calls(), &[TestPlatformCall::SystemReset2]);
}

#[test]
fn missing_features_are_not_supported() {
    let features = PsciPlatformOptionalFeatures::from_bits_truncate(PsciPlatformOptionalFeatures::SYSTEM_OFF2);
    assert_eq!(Ok(()), check_features(features, PsciPlatformOptionalFeatures::SYSTEM_OFF2));
    assert_eq!(
        Err(ErrorCode::NotSupported),
        check_features(features, PsciPlatformOptionalFeatures::SYSTEM_RESET2)
    );
}

#[test]
fn suspend_plans() {
    let standby = TestPsciPlatformImpl::try_parse_power_state(PowerState::StandbyOrRetention(0)).unwrap();
    assert_eq!(Ok(SuspendPlan::CpuStandby), plan_suspend(&standby, false, LEVELS));
    // The same states asked as a power down have no power down level.
    assert_eq!(Err(ErrorCode::InvalidParameters), plan_suspend(&standby, true, LEVELS));
    let cluster = TestPsciPlatformImpl::try_parse_power_state(PowerState::StandbyOrRetention(2)).unwrap();
    assert_eq!(Ok(SuspendPlan::Suspend { highest_level: 2 }), plan_suspend(&cluster, false, LEVELS));
    let down = TestPsciPlatformImpl::try_parse_power_state(PowerState::PowerDown(0)).unwrap();
    assert_eq!(Ok(SuspendPlan::Suspend { highest_level: 3 }), plan_suspend(&down, true, LEVELS));
    // A composite state of the wrong number of levels is invalid.
    assert_eq!(Err(ErrorCode::InvalidParameters), plan_suspend(&down, true, LEVELS + 1));
    // Higher levels may not be in deeper states.
    let mut unsorted = PsciCompositePowerState::<TestPowerState>::run(LEVELS);
    unsorted.states[0] = TestPowerState::Standby0;
    unsorted.states[1] = TestPowerState::Standby1;
    assert_eq!(Err(ErrorCode::InvalidParameters), plan_suspend(&unsorted, false, LEVELS));
}

#[test]
fn cpu_suspend_invalid_entry_and_standby_keep_running() {
    let mut psci = new_psci();
    // Standby at the CPU level alone leaves everything running.
    assert_eq!(Ok(()), psci.cpu_suspend(0, PowerState::StandbyOrRetention(1), ENTRY_POINT));
    check_ancestor_state(&psci, 0, &[RUN, RUN, RUN, RUN]);
    assert_eq!(
        Err(ErrorCode::InvalidParameters),
        psci.cpu_suspend(0, PowerState::PowerDown(7), ENTRY_POINT)
    );
    check_ancestor_state(&psci, 0, &[RUN, RUN, RUN, RUN]);
}

#[test]
fn cpu_off_powers_down_idle_ancestors() {
    let mut psci = new_psci();
    // CPU 3 is alone in its cluster once turned on.
    let cpu3 = Mpidr { aff0: 0, aff1: 1, aff2: 0, aff3: None };
    assert_eq!(Ok(()), psci.cpu_on(cpu3, ENTRY_POINT));
    assert_eq!(ENTRY_POINT, psci.handle_cpu_boot(3));
    check_ancestor_state(&psci, 3, &[RUN, RUN, RUN, RUN]);
    assert_eq!(Ok(()), psci.cpu_off(3));
    // Its cluster powers down; the SoC and the system still run CPU 0.
    check_ancestor_state(&psci, 3, &[OFF, OFF, RUN, RUN]);
    check_ancestor_state(&psci, 0, &[RUN, RUN, RUN, RUN]);
    assert_eq!(Ok(AffinityInfo::Off), psci.affinity_info(cpu3, CPU_POWER_LEVEL as u32));
    // It can be turned on again.
    assert_eq!(Ok(()), psci.cpu_on(cpu3, ENTRY_POINT));
}

#[test]
fn failed_off_housekeeping_keeps_cpu_on() {
    let mut psci = new_psci();
    let cpu3 = Mpidr { aff0: 0, aff1: 1, aff2: 0, aff3: None };
    assert_eq!(Ok(()), psci.cpu_on(cpu3, ENTRY_POINT));
    assert_eq!(ENTRY_POINT, psci.handle_cpu_boot(3));
    assert_eq!(Err(ErrorCode::Denied), psci.finish_cpu_off(3, Err(ErrorCode::Denied)));
    check_ancestor_state(&psci, 3, &[RUN, RUN, RUN, RUN]);
    assert_eq!(Ok(AffinityInfo::On), psci.affinity_info(cpu3, CPU_POWER_LEVEL as u32));
    assert_eq!(Ok(()), psci.finish_cpu_off(3, Ok(())));
    check_ancestor_state(&psci, 3, &[OFF, OFF, RUN, RUN]);
}

#[test]
fn pending_interrupt_stops_suspend() {
    let mut psci = new_psci();
    let down = PsciCompositePowerState::<TestPowerState>::off(LEVELS);
    assert_eq!(
        Ok(()),
        psci.suspend_unless_pending(true, 0, ENTRY_POINT, 1, down, true)
    );
    check_ancestor_state(&psci, 0, &[RUN, RUN, RUN, RUN]);
    let down = PsciCompositePowerState::<TestPowerState>::off(LEVELS);
    assert_eq!(
        Ok(()),
        psci.suspend_unless_pending(false, 0, ENTRY_POINT, 1, down, true)
    );
    check_ancestor_state(&psci, 0, &[OFF, OFF, RUN, RUN]);
    assert_eq!(ENTRY_POINT, psci.handle_cpu_boot(0));
}
