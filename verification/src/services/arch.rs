//! The Arm architecture service calls: SMCCC version, feature discovery and SoC identification.

use vstd::prelude::*;

use super::{owns_entity, spec_owns_entity, Service};
use crate::context::World;
use crate::smccc::{
    FunctionId, OwningEntityNumber, SmcReturn, SmcccCallType, INVALID_PARAMETER, NOT_SUPPORTED,
    SUCCESS,
};

verus! {

/// Function ID of `SMCCC_VERSION`.
pub const SMCCC_VERSION: u32 = 0x8000_0000;
/// Function ID of `SMCCC_ARCH_FEATURES`.
pub const SMCCC_ARCH_FEATURES: u32 = 0x8000_0001;
/// Function ID of `SMCCC_ARCH_SOC_ID` with the 32-bit calling convention.
pub const SMCCC_ARCH_SOC_ID_32: u32 = 0x8000_0002;
/// Function ID of `SMCCC_ARCH_SOC_ID` with the 64-bit calling convention.
pub const SMCCC_ARCH_SOC_ID_64: u32 = 0xc000_0002;
/// `SMCCC_ARCH_SOC_ID` argument asking for the SoC version.
pub const SMCCC_ARCH_SOC_ID_VERSION: u32 = 0x0;
/// `SMCCC_ARCH_SOC_ID` argument asking for the SoC revision.
pub const SMCCC_ARCH_SOC_ID_REVISION: u32 = 0x1;
/// `SMCCC_ARCH_SOC_ID` argument asking for the SoC name.
pub const SMCCC_ARCH_SOC_ID_NAME: u32 = 0x2;
/// Function ID of `SMCCC_ARCH_WORKAROUND_1`.
pub const SMCCC_ARCH_WORKAROUND_1: u32 = 0x8000_8000;
/// Function ID of `SMCCC_ARCH_WORKAROUND_2`.
pub const SMCCC_ARCH_WORKAROUND_2: u32 = 0x8000_7FFF;
/// Function ID of `SMCCC_ARCH_WORKAROUND_3`.
pub const SMCCC_ARCH_WORKAROUND_3: u32 = 0x8000_3FFF;

/// The implemented SMCCC version, 1.5.
pub const SMCCC_VERSION_1_5: i32 = 0x0001_0005;

/// The little-endian value of eight bytes: `bytes[0]` is the least significant.
pub open spec fn spec_u64_from_le_bytes(bytes: Seq<u8>) -> u64 {
    (bytes[0] as nat + 0x100 * bytes[1] as nat + 0x1_0000 * bytes[2] as nat + 0x100_0000
        * bytes[3] as nat + 0x1_0000_0000 * bytes[4] as nat + 0x100_0000_0000 * bytes[5] as nat
        + 0x1_0000_0000_0000 * bytes[6] as nat + 0x100_0000_0000_0000 * bytes[7] as nat) as u64
}

/// Returns the little-endian value of eight bytes.
pub fn u64_from_le_bytes(bytes: [u8; 8]) -> (value: u64)
    ensures
        value == spec_u64_from_le_bytes(bytes@),
{
    let b0 = bytes[0] as u64;
    let b1 = bytes[1] as u64;
    let b2 = bytes[2] as u64;
    let b3 = bytes[3] as u64;
    let b4 = bytes[4] as u64;
    let b5 = bytes[5] as u64;
    let b6 = bytes[6] as u64;
    let b7 = bytes[7] as u64;
    assert(b0 < 256 && b1 < 256 && b2 < 256 && b3 < 256 && b4 < 256 && b5 < 256 && b6 < 256 && b7
        < 256 ==> (b0 | b1 << 8 | b2 << 16 | b3 << 24 | b4 << 32 | b5 << 40 | b6 << 48 | b7 << 56)
        == b0 + 0x100 * b1 + 0x1_0000 * b2 + 0x100_0000 * b3 + 0x1_0000_0000 * b4 + 0x100_0000_0000
        * b5 + 0x1_0000_0000_0000 * b6 + 0x100_0000_0000_0000 * b7) by (bit_vector);
    b0 | b1 << 8 | b2 << 16 | b3 << 24 | b4 << 32 | b5 << 40 | b6 << 48 | b7 << 56
}

/// The SoC name that `SMCCC_ARCH_SOC_ID` returns: the string "TODO: Implement this properly.",
/// packed eight bytes per register from `x1`.
pub open spec fn spec_soc_name() -> Seq<u64> {
    seq![
        0u64,
        spec_u64_from_le_bytes(seq![0x6du8, 0x49, 0x20, 0x3a, 0x4f, 0x44, 0x4f, 0x54]),
        spec_u64_from_le_bytes(seq![0x20u8, 0x74, 0x6e, 0x65, 0x6d, 0x65, 0x6c, 0x70]),
        spec_u64_from_le_bytes(seq![0x6fu8, 0x72, 0x70, 0x20, 0x73, 0x69, 0x68, 0x74]),
        spec_u64_from_le_bytes(seq![0x00u8, 0x00, 0x2e, 0x79, 0x6c, 0x72, 0x65, 0x70]),
    ]
}

/// The result of `SMCCC_ARCH_FEATURES` for the function ID `arch_func_id`: success for the
/// calls this service implements, otherwise `NOT_SUPPORTED`.
pub open spec fn spec_arch_features(arch_func_id: u32) -> i32 {
    if arch_func_id == SMCCC_VERSION || arch_func_id == SMCCC_ARCH_FEATURES || arch_func_id
        == SMCCC_ARCH_SOC_ID_32 || arch_func_id == SMCCC_ARCH_SOC_ID_64 {
        SUCCESS
    } else {
        NOT_SUPPORTED
    }
}

/// The values that `SMCCC_ARCH_SOC_ID` returns for the given request and calling convention.
pub open spec fn spec_arch_soc_id(soc_id_type: u32, call_type: SmcccCallType) -> Seq<u64> {
    if soc_id_type == SMCCC_ARCH_SOC_ID_VERSION || soc_id_type == SMCCC_ARCH_SOC_ID_REVISION {
        seq![0u64]
    } else if soc_id_type == SMCCC_ARCH_SOC_ID_NAME && call_type == SmcccCallType::Fast64 {
        spec_soc_name()
    } else {
        seq![INVALID_PARAMETER as u64]
    }
}

/// The values that the architecture service returns for `function` with first argument `x1`.
pub open spec fn spec_arch_handle_smc(function: FunctionId, x1: u64) -> Seq<u64> {
    if function.0 == SMCCC_VERSION {
        seq![SMCCC_VERSION_1_5 as u64]
    } else if function.0 == SMCCC_ARCH_FEATURES {
        seq![spec_arch_features(x1 as u32) as u64]
    } else if function.0 == SMCCC_ARCH_SOC_ID_32 || function.0 == SMCCC_ARCH_SOC_ID_64 {
        spec_arch_soc_id(x1 as u32, function.spec_call_type())
    } else {
        seq![NOT_SUPPORTED as u64]
    }
}

/// `SMCCC_ARCH_FEATURES` answers `SUCCESS` or `NOT_SUPPORTED`, and it answers `SUCCESS` for a
/// function ID exactly when this service implements the function: when some call of it is
/// answered with something other than `NOT_SUPPORTED`.
pub proof fn lemma_features_match_implemented_calls(arch_func_id: u32)
    ensures
        spec_arch_features(arch_func_id) == SUCCESS || spec_arch_features(arch_func_id)
            == NOT_SUPPORTED,
        spec_arch_features(arch_func_id) == SUCCESS <==> exists|x1: u64|
            #[trigger] spec_arch_handle_smc(FunctionId(arch_func_id), x1) != seq![NOT_SUPPORTED as u64],
{
    let f = FunctionId(arch_func_id);
    let x1: u64 = if arch_func_id == SMCCC_ARCH_FEATURES {
        SMCCC_VERSION as u64
    } else {
        0
    };
    assert((-1i32) as u64 == 0xffff_ffff_ffff_ffffu64) by (bit_vector);
    if spec_arch_features(arch_func_id) == SUCCESS {
        assert(spec_arch_handle_smc(f, x1)[0] != seq![NOT_SUPPORTED as u64][0]);
    } else {
        assert forall|y: u64| #[trigger] spec_arch_handle_smc(f, y) == seq![NOT_SUPPORTED as u64] by {
        }
    }
}

/// Handles an Arm architecture SMC.
pub fn handle_smc(
    function: FunctionId,
    x1: u64,
    _x2: u64,
    _x3: u64,
    _x4: u64,
    _world: World,
) -> (ret: SmcReturn)
    ensures
        ret@ == spec_arch_handle_smc(function, x1),
{
    match function.0 {
        SMCCC_VERSION => version().into(),
        SMCCC_ARCH_FEATURES => arch_features(x1 as u32).into(),
        SMCCC_ARCH_SOC_ID_32 | SMCCC_ARCH_SOC_ID_64 => arch_soc_id(x1 as u32, function.call_type()),
        _ => NOT_SUPPORTED.into(),
    }
}

/// Returns the implemented SMCCC version.
pub fn version() -> (version: i32)
    ensures
        version == SMCCC_VERSION_1_5,
{
    SMCCC_VERSION_1_5
}

/// Returns whether the given architecture function is implemented.
pub fn arch_features(arch_func_id: u32) -> (ret: i32)
    ensures
        ret == spec_arch_features(arch_func_id),
{
    match arch_func_id {
        SMCCC_VERSION | SMCCC_ARCH_FEATURES | SMCCC_ARCH_SOC_ID_32 | SMCCC_ARCH_SOC_ID_64 => {
            SUCCESS
        },
        _ => NOT_SUPPORTED,
    }
}

/// Handles `SMCCC_ARCH_SOC_ID`, as specified in section 7.4 of the Arm SMC Calling Convention.
pub fn arch_soc_id(soc_id_type: u32, call_type: SmcccCallType) -> (ret: SmcReturn)
    ensures
        ret@ == spec_arch_soc_id(soc_id_type, call_type),
{
    match soc_id_type {
        SMCCC_ARCH_SOC_ID_VERSION => 0u64.into(),
        SMCCC_ARCH_SOC_ID_REVISION => 0u64.into(),
        SMCCC_ARCH_SOC_ID_NAME if call_type == SmcccCallType::Fast64 => {
            let name = [
                0u64,
                // "mI :ODOT"
                u64_from_le_bytes([0x6d, 0x49, 0x20, 0x3a, 0x4f, 0x44, 0x4f, 0x54]),
                // " tnemelp"
                u64_from_le_bytes([0x20, 0x74, 0x6e, 0x65, 0x6d, 0x65, 0x6c, 0x70]),
                // "orp siht"
                u64_from_le_bytes([0x6f, 0x72, 0x70, 0x20, 0x73, 0x69, 0x68, 0x74]),
                // "\0\0.ylrep"
                u64_from_le_bytes([0x00, 0x00, 0x2e, 0x79, 0x6c, 0x72, 0x65, 0x70]),
            ];
            assert(name@ =~= spec_soc_name());
            name.into()
        },
        _ => INVALID_PARAMETER.into(),
    }
}

/// The Arm architecture service.
pub struct Arch;

impl Service for Arch {
    open spec fn spec_owns(function: FunctionId) -> bool {
        spec_owns_entity(function, OwningEntityNumber::ARM_ARCHITECTURE)
    }

    open spec fn spec_handle_smc(
        function: FunctionId,
        x1: u64,
        x2: u64,
        x3: u64,
        x4: u64,
        world: World,
    ) -> Seq<u64> {
        spec_arch_handle_smc(function, x1)
    }

    fn owns(function: FunctionId) -> (owns: bool) {
        owns_entity(function, OwningEntityNumber::ARM_ARCHITECTURE)
    }

    fn handle_smc(function: FunctionId, x1: u64, x2: u64, x3: u64, x4: u64, world: World) -> (ret:
        SmcReturn) {
        handle_smc(function, x1, x2, x3, x4, world)
    }
}

} // verus!
