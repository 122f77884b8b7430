use rf_a::context::{CpuState, World};
use rf_a::exceptions::{handle_smc, handle_sysreg_trap, TRAP_RET_UNHANDLED};
use rf_a::platform::test::TestPsciPlatformImpl;
use rf_a::services::arch::{
    arch_features, arch_soc_id, version, SMCCC_ARCH_FEATURES, SMCCC_ARCH_SOC_ID_32,
    SMCCC_ARCH_SOC_ID_64, SMCCC_ARCH_SOC_ID_NAME, SMCCC_ARCH_SOC_ID_VERSION, SMCCC_VERSION,
    SMCCC_VERSION_1_5,
};
use rf_a::services::dispatch_smc;
use rf_a::services::ffa::{Ffa, FfaRequest};
use rf_a::services::rmmd::{rmm_boot_complete, RMM_BOOT_COMPLETE};
use rf_a::smccc::{FunctionId, SmcccCallType, INVALID_PARAMETER, NOT_SUPPORTED, SUCCESS};

const FFA_VERSION: u64 = 0x8400_0063;
const FFA_MSG_WAIT_32: u64 = 0x8400_006b;
const FFA_ID_GET: u64 = 0x8400_0069;
const FFA_ERROR_32: u64 = 0x8400_0060;

fn registers(values: &[u64]) -> [u64; 18] {
    let mut regs = [0u64; 18];
    regs[..values.len()].copy_from_slice(values);
    regs
}

fn ffa_error(code: i32) -> Vec<u64> {
    vec![FFA_ERROR_32, 0, code as u32 as u64, 0, 0, 0, 0, 0]
}

/// Tests the SMCCC arch version call as a simple example of SMC dispatch.
#[test]
fn handle_smc_arch_version() {
    let mut cpu_state = CpuState::empty();
    handle_smc::<TestPsciPlatformImpl>(
        &mut cpu_state,
        FunctionId(SMCCC_VERSION),
        0,
        0,
        0,
        0,
        World::NonSecure,
    );

    let mut expected = [0u64; 32];
    expected[0] = SMCCC_VERSION_1_5 as u64;
    assert_eq!(cpu_state.context(World::NonSecure).gpregs.registers, expected);
}

#[test]
fn handle_smc_writes_only_the_calling_world() {
    let mut cpu_state = CpuState::empty();
    cpu_state.context_mut(World::Secure).gpregs.registers[5] = 7;
    cpu_state.context_mut(World::NonSecure).gpregs.registers[31] = 9;
    handle_smc::<TestPsciPlatformImpl>(
        &mut cpu_state,
        FunctionId(SMCCC_VERSION),
        0,
        0,
        0,
        0,
        World::NonSecure,
    );
    assert_eq!(cpu_state.context(World::Secure).gpregs.registers[5], 7);
    assert_eq!(cpu_state.context(World::NonSecure).gpregs.registers[31], 9);
    assert_eq!(
        cpu_state.context(World::NonSecure).gpregs.registers[0],
        SMCCC_VERSION_1_5 as u64
    );
}

#[test]
fn sysreg_traps_are_unhandled() {
    assert_eq!(handle_sysreg_trap(0x1234, World::NonSecure), TRAP_RET_UNHANDLED);
}

#[test]
fn arch_calls() {
    assert_eq!(version(), 0x0001_0005);
    assert_eq!(arch_features(SMCCC_ARCH_FEATURES), SUCCESS);
    assert_eq!(arch_features(SMCCC_ARCH_SOC_ID_64), SUCCESS);
    assert_eq!(arch_features(0x8000_8000), NOT_SUPPORTED);
    assert_eq!(
        arch_soc_id(SMCCC_ARCH_SOC_ID_VERSION, SmcccCallType::Fast32).values(),
        &[0]
    );
    assert_eq!(
        arch_soc_id(42, SmcccCallType::Fast32).values(),
        &[INVALID_PARAMETER as u64]
    );
    let name = arch_soc_id(SMCCC_ARCH_SOC_ID_NAME, SmcccCallType::Fast64);
    let mut bytes = Vec::new();
    for value in &name.values()[1..] {
        bytes.extend_from_slice(&value.to_le_bytes());
    }
    assert_eq!(&bytes[..22], b"mI :ODOT tnemelporp si");
}

#[test]
fn dispatch_arch_soc_id_name_needs_smc64() {
    let ret = dispatch_smc::<TestPsciPlatformImpl>(
        FunctionId(SMCCC_ARCH_SOC_ID_32),
        SMCCC_ARCH_SOC_ID_NAME as u64,
        0,
        0,
        0,
        World::NonSecure,
    );
    assert_eq!(ret.values(), &[INVALID_PARAMETER as u64]);
}

#[test]
fn dispatch_unknown_and_invalid_calls() {
    // No service owns the SIP range.
    let ret = dispatch_smc::<TestPsciPlatformImpl>(
        FunctionId(0x8200_0000),
        0,
        0,
        0,
        0,
        World::NonSecure,
    );
    assert_eq!(ret.values(), &[NOT_SUPPORTED as u64]);
    // A fast call with its must-be-zero bits set is invalid.
    let ret = dispatch_smc::<TestPsciPlatformImpl>(
        FunctionId(0x8002_0000),
        0,
        0,
        0,
        0,
        World::NonSecure,
    );
    assert_eq!(ret.values(), &[NOT_SUPPORTED as u64]);
}

#[test]
fn dispatch_ignores_the_sve_hint() {
    let ret = dispatch_smc::<TestPsciPlatformImpl>(
        FunctionId(SMCCC_VERSION | 0x1_0000),
        0,
        0,
        0,
        0,
        World::NonSecure,
    );
    assert_eq!(ret.values(), &[SMCCC_VERSION_1_5 as u64]);
}

#[test]
fn dispatch_psci_version() {
    let ret = dispatch_smc::<TestPsciPlatformImpl>(
        FunctionId(0x8400_0000),
        0,
        0,
        0,
        0,
        World::NonSecure,
    );
    assert_eq!(ret.values(), &[0x0001_0003]);
    let ret = dispatch_smc::<TestPsciPlatformImpl>(
        FunctionId(0x8400_0000),
        0,
        0,
        0,
        0,
        World::Secure,
    );
    assert_eq!(ret.values(), &[0xffff_ffff]);
    let ret = dispatch_smc::<TestPsciPlatformImpl>(
        FunctionId(0x8400_0001),
        0,
        0,
        0,
        0,
        World::NonSecure,
    );
    assert_eq!(ret.values(), &[0xffff_ffff]);
}

#[test]
fn rmm_boot_complete_returns_status() {
    assert_eq!(rmm_boot_complete(-3).values(), &[(-3i64) as u64]);
    let ret = dispatch_smc::<TestPsciPlatformImpl>(
        FunctionId(RMM_BOOT_COMPLETE),
        (-2i64) as u64,
        0,
        0,
        0,
        World::Realm,
    );
    assert_eq!(ret.values(), &[(-2i64) as u64]);
    let ret = dispatch_smc::<TestPsciPlatformImpl>(
        FunctionId(RMM_BOOT_COMPLETE),
        0,
        0,
        0,
        0,
        World::NonSecure,
    );
    assert_eq!(ret.values(), &[NOT_SUPPORTED as u64]);
}

#[test]
fn ffa_version_depends_on_world() {
    let ffa = Ffa::new();
    let regs = registers(&[FFA_VERSION, 0x1_0001]);
    let (ret, world) = ffa.handle_non_secure_smc(&regs);
    assert_eq!(ret.values(), &[0x1_0000, 0, 0, 0, 0, 0, 0, 0]);
    assert_eq!(world, World::NonSecure);
    let (ret, world) = ffa.handle_secure_smc(&regs);
    assert_eq!(ret.values(), &[0x1_0001, 0, 0, 0, 0, 0, 0, 0]);
    assert_eq!(world, World::Secure);
}

#[test]
fn ffa_msg_wait_switches_to_normal_world() {
    let ffa = Ffa::new();
    let regs = registers(&[FFA_MSG_WAIT_32]);
    let (ret, world) = ffa.handle_secure_smc(&regs);
    assert_eq!(ret.values(), ffa_error(-6).as_slice());
    assert_eq!(world, World::NonSecure);
    let (ret, world) = ffa.handle_non_secure_smc(&regs);
    assert_eq!(ret.values(), ffa_error(-1).as_slice());
    assert_eq!(world, World::NonSecure);
}

#[test]
fn ffa_other_and_invalid_requests() {
    let ffa = Ffa::new();
    // A well-formed request that the firmware does not answer itself.
    let (ret, world) = ffa.handle_secure_smc(&registers(&[FFA_ID_GET]));
    assert_eq!(ret.values(), ffa_error(-1).as_slice());
    assert_eq!(world, World::Secure);
    // An unknown function ID.
    let (ret, _) = ffa.handle_secure_smc(&registers(&[0x8400_00ff]));
    assert_eq!(ret.values(), ffa_error(-1).as_slice());
    // A version with bit 31 set is an invalid parameter.
    let (ret, _) = ffa.handle_non_secure_smc(&registers(&[FFA_VERSION, 0x8000_0000]));
    assert_eq!(ret.values(), ffa_error(-2).as_slice());
}

#[test]
fn ffa_respond_to_parsed_requests() {
    let (ret, world) = Ffa::respond(FfaRequest::Version { major: 1, minor: 2 }, World::Secure);
    assert_eq!(ret.values(), &[0x1_0001, 0, 0, 0, 0, 0, 0, 0]);
    assert_eq!(world, World::Secure);
    let (ret, world) = Ffa::respond(FfaRequest::Invalid { error_code: -7 }, World::NonSecure);
    assert_eq!(ret.values(), ffa_error(-7).as_slice());
    assert_eq!(world, World::NonSecure);
    let (ret, world) = Ffa::respond(FfaRequest::MsgWait, World::Secure);
    assert_eq!(ret.values(), ffa_error(-6).as_slice());
    assert_eq!(world, World::NonSecure);
}

#[test]
fn dispatch_ffa() {
    let ret = dispatch_smc::<TestPsciPlatformImpl>(
        FunctionId(FFA_VERSION as u32),
        0x1_0001,
        0,
        0,
        0,
        World::Secure,
    );
    assert_eq!(ret.values(), &[0x1_0001, 0, 0, 0, 0, 0, 0, 0]);
    let ret = dispatch_smc::<TestPsciPlatformImpl>(
        FunctionId(FFA_VERSION as u32),
        0x1_0001,
        0,
        0,
        0,
        World::Realm,
    );
    assert_eq!(ret.values(), &[NOT_SUPPORTED as u64]);
}

#[test]
fn ffa_memory_management_error_is_invalid_parameters() {
    let ffa = Ffa::new();
    // FFA_MEM_PERM_GET_32 with a non-zero page count is refused at version 1.1.
    let (ret, world) = ffa.handle_non_secure_smc(&registers(&[0x8400_0088, 0x1000, 5]));
    assert_eq!(ret.values(), ffa_error(-2).as_slice());
    assert_eq!(world, World::NonSecure);
}
