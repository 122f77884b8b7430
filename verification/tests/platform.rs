use core::fmt::Write;

use rf_a::builders::{select_platform, PlatformKind};
use rf_a::pagetable::{bl31_regions, MemoryType};
use rf_a::fvp_bl31::{self, FvpPowerAction, FvpPowerState};
use rf_a::services::psci::PsciCompositePowerState;
use rf_a::gicv3::{GicConfig, Group, IntId, InterruptConfig, SecureIntGroup, Trigger};
use rf_a::logger::{build_time_log_level, LevelFilter};
use rf_a::platform::test::{plat_calc_core_pos, DummyLoggerWriter, TestPlatform};
use rf_a::qemu_bl31::{self, PowerDownAction, QemuPowerState, QemuPsciPlatformImpl};
use rf_a::semihosting::{exit_parameters, AdpStopped};
use rf_a::services::psci::{Mpidr, PowerState};
use rf_a::sysregs::MpidrEl1;

#[test]
fn test_basic_logging() {
    let mut writer = DummyLoggerWriter {};
    writer.write_str("hello\n").unwrap();
}

#[test]
fn log_level_from_build_configuration() {
    assert_eq!(build_time_log_level(Some("off"), true), LevelFilter::Off);
    assert_eq!(build_time_log_level(Some("error"), true), LevelFilter::Error);
    assert_eq!(build_time_log_level(Some("warn"), false), LevelFilter::Warn);
    assert_eq!(build_time_log_level(Some("info"), true), LevelFilter::Info);
    assert_eq!(build_time_log_level(Some("debug"), false), LevelFilter::Debug);
    assert_eq!(build_time_log_level(Some("trace"), false), LevelFilter::Trace);
    assert_eq!(build_time_log_level(Some("TRACE"), false), LevelFilter::Info);
    assert_eq!(build_time_log_level(None, true), LevelFilter::Trace);
    assert_eq!(build_time_log_level(None, false), LevelFilter::Info);
}

#[test]
fn platform_selection() {
    assert_eq!(select_platform("fvp"), Some(PlatformKind::Fvp));
    assert_eq!(select_platform("qemu"), Some(PlatformKind::Qemu));
    assert_eq!(select_platform("juno"), None);
}

#[test]
fn semihosting_exit_parameters() {
    assert_eq!(exit_parameters(AdpStopped::ApplicationExit, 3), [0x20026, 3]);
    assert_eq!(u32::from(AdpStopped::BranchThroughZero), 0x20000);
}

#[test]
fn test_platform_core_positions() {
    assert!(TestPlatform::mpidr_is_valid(Mpidr { aff0: 3, aff1: 1, aff2: 1, aff3: None }));
    assert!(!TestPlatform::mpidr_is_valid(Mpidr { aff0: 3, aff1: 0, aff2: 1, aff3: None }));
    assert!(!TestPlatform::mpidr_is_valid(Mpidr { aff0: 0, aff1: 0, aff2: 0, aff3: Some(1) }));
    assert_eq!(plat_calc_core_pos(0x0001_0103), 12);
    assert_eq!(plat_calc_core_pos(0x0000_0002), 2);
}

#[test]
fn fvp_core_positions() {
    // Without multithreading: aff1 is the cluster, aff0 the CPU.
    assert!(fvp_bl31::mpidr_is_valid(MpidrEl1(0x0000_0103)));
    assert_eq!(fvp_bl31::core_position(MpidrEl1(0x0000_0103)), 7);
    assert!(!fvp_bl31::mpidr_is_valid(MpidrEl1(0x0000_0203)));
    // With multithreading: aff2 the cluster, aff1 the CPU, aff0 the thread.
    assert!(fvp_bl31::mpidr_is_valid(MpidrEl1(0x0101_0200)));
    assert_eq!(fvp_bl31::core_position(MpidrEl1(0x0101_0200)), 6);
}

#[test]
fn qemu_core_positions() {
    assert!(qemu_bl31::mpidr_is_valid(MpidrEl1(0x3)));
    assert_eq!(qemu_bl31::core_position(MpidrEl1(0x3)), 3);
    assert!(!qemu_bl31::mpidr_is_valid(MpidrEl1(0x4)));
    assert!(!qemu_bl31::mpidr_is_valid(MpidrEl1(0x100)));
}

#[test]
fn qemu_power_states() {
    let standby = qemu_bl31::try_parse_power_state(PowerState::StandbyOrRetention(1)).unwrap();
    assert_eq!(
        standby.states,
        vec![QemuPowerState::Retention, QemuPowerState::On, QemuPowerState::On]
    );
    let cluster_down = qemu_bl31::try_parse_power_state(PowerState::PowerDown(0x1022)).unwrap();
    assert_eq!(
        cluster_down.states,
        vec![QemuPowerState::PowerDown, QemuPowerState::PowerDown, QemuPowerState::On]
    );
    assert_eq!(cluster_down.last_power_level, Some(1));
    assert!(qemu_bl31::try_parse_power_state(PowerState::PowerDown(0x3002)).is_none());
    assert!(qemu_bl31::try_parse_power_state(PowerState::StandbyOrRetention(2)).is_none());
}

#[test]
fn qemu_power_down_actions() {
    let mut platform = QemuPsciPlatformImpl::new();
    assert_eq!(platform.power_domain_power_down(1), PowerDownAction::ColdBootHoldingPen);
    platform.power_domain_suspend(1);
    assert_eq!(platform.power_domain_power_down(1), PowerDownAction::WaitThenWarmBoot);
    platform.power_domain_off(1);
    assert_eq!(platform.power_domain_power_down(1), PowerDownAction::ColdBootHoldingPen);
}

const SECURE_SGI_CONFIG: GicConfig = GicConfig {
    interrupts_config: &[
        (IntId(8), InterruptConfig { priority: 0, group: Group::Secure(SecureIntGroup::Group1S), trigger: Trigger::Edge }),
        (IntId(9), InterruptConfig { priority: 0x10, group: Group::Secure(SecureIntGroup::Group0), trigger: Trigger::Edge }),
        (IntId(8), InterruptConfig { priority: 0x20, group: Group::Group1NS, trigger: Trigger::Level }),
    ],
};

#[test]
fn interrupt_configuration_lookup() {
    let config = SECURE_SGI_CONFIG.get_interrupt_config_or_default(IntId(8));
    assert_eq!(config.priority, 0);
    assert_eq!(config.group, Group::Secure(SecureIntGroup::Group1S));
    let config = SECURE_SGI_CONFIG.get_interrupt_config_or_default(IntId(9));
    assert_eq!(config.priority, 0x10);
    let config = SECURE_SGI_CONFIG.get_interrupt_config_or_default(IntId(40));
    assert_eq!(config, InterruptConfig::default());
    assert_eq!(config.priority, 0x80);
    assert_eq!(config.group, Group::Group1NS);
    assert_eq!(config.trigger, Trigger::Level);
    assert!(IntId(16).is_ppi());
    assert!(!IntId(15).is_ppi());
    assert!(!IntId(32).is_ppi());
}

#[test]
fn fvp_secure_sgis() {
    let (id, config) = fvp_bl31::secure_sgi_configuration(12);
    assert_eq!(id, IntId(12));
    assert_eq!(config.priority, 0);
    assert_eq!(config.group, Group::Secure(SecureIntGroup::Group1S));
    assert_eq!(config.trigger, Trigger::Edge);
}

#[test]
fn fvp_device_regions() {
    let regions = [0x1c00_0000..0x1c20_0000, 0x2f00_0000..0x2f20_0000];
    assert!(fvp_bl31::device_regions_include(&regions, 0x1c09_0000, 0x1000));
    assert!(!fvp_bl31::device_regions_include(&regions, 0x1c1f_f800, 0x1000));
    assert!(fvp_bl31::device_regions_include(&regions, 0x2f1f_f000, 0x1000));
    assert!(!fvp_bl31::device_regions_include(&regions, 0x3000_0000, 1));
}

fn fvp_state(states: [FvpPowerState; 3]) -> PsciCompositePowerState<FvpPowerState> {
    PsciCompositePowerState::new(states.to_vec())
}

#[test]
fn fvp_power_down_steps() {
    let retention = fvp_state([FvpPowerState::Retention, FvpPowerState::Run, FvpPowerState::Run]);
    assert_eq!(fvp_bl31::power_domain_suspend(&retention), vec![]);
    assert_eq!(fvp_bl31::power_domain_suspend_finish(&retention), vec![]);

    let cpu_off = fvp_state([FvpPowerState::Off, FvpPowerState::Run, FvpPowerState::Run]);
    assert_eq!(
        fvp_bl31::power_domain_suspend(&cpu_off),
        vec![FvpPowerAction::EnableWakeupRequests, FvpPowerAction::DisableCpuInterface, FvpPowerAction::PowerOffProcessor]
    );
    assert_eq!(
        fvp_bl31::power_domain_off(&cpu_off),
        vec![FvpPowerAction::DisableCpuInterface, FvpPowerAction::RedistributorOff, FvpPowerAction::PowerOffProcessor]
    );
    assert_eq!(
        fvp_bl31::power_domain_on_finish(&cpu_off),
        vec![FvpPowerAction::DisableWakeupRequests, FvpPowerAction::SetCounterFrequency, FvpPowerAction::RedistributorInit, FvpPowerAction::EnableCpuInterface]
    );

    let all_off = fvp_state([FvpPowerState::Off, FvpPowerState::Off, FvpPowerState::Off]);
    assert_eq!(
        fvp_bl31::power_domain_suspend(&all_off),
        vec![
            FvpPowerAction::EnableWakeupRequests,
            FvpPowerAction::DisableCpuInterface,
            FvpPowerAction::PowerOffCluster,
            FvpPowerAction::SaveSystemPowerDomain,
            FvpPowerAction::PowerOffProcessor
        ]
    );
    assert_eq!(
        fvp_bl31::power_domain_off(&all_off),
        vec![FvpPowerAction::DisableCpuInterface, FvpPowerAction::RedistributorOff, FvpPowerAction::PowerOffProcessor, FvpPowerAction::PowerOffCluster]
    );
    assert_eq!(
        fvp_bl31::power_domain_suspend_finish(&all_off),
        vec![
            FvpPowerAction::PowerOnProcessor,
            FvpPowerAction::RestoreSystemPowerDomain,
            FvpPowerAction::DisableWakeupRequests,
            FvpPowerAction::SetCounterFrequency,
            FvpPowerAction::EnableCpuInterface
        ]
    );
}

#[test]
fn mmu_configuration() {
    let params = rf_a::pagetable::setup_mmu_cfg(0x8000_0000);
    assert_eq!(params.mair, 0x0044_04ff);
    assert_eq!(params.tcr, 0x0005_0019);
    assert_eq!(params.ttbr0, 0x8000_0000);
}

#[test]
fn pointer_authentication_key() {
    let key = rf_a::platform::init_apkey(0x1, 0x2, 0x4);
    // Low half: (1 << 13) ^ 2 ^ 4; high half: (2 << 15) ^ 1 ^ 4.
    assert_eq!(key, (0x1_0005u128 << 64) | 0x2006);
    let key = rf_a::platform::init_apkey(u64::MAX, 0, 0);
    assert_eq!(key, (u64::MAX as u128) << 64 | (u64::MAX << 13) as u128);
}

#[test]
fn bl31_maps_image_then_code_and_read_only_data() {
    let regions = bl31_regions(0x400_0000, 0x404_0000, 0x400_0000..0x401_0000, 0x401_0000..0x401_8000);
    assert_eq!(
        regions,
        vec![
            (0x400_0000..0x404_0000, MemoryType::Memory),
            (0x400_0000..0x401_0000, MemoryType::Code),
            (0x401_0000..0x401_8000, MemoryType::RoData),
        ]
    );
}
