//! Arm CCA SMCs, for communication between the firmware and the Realm Management Monitor.

use vstd::prelude::*;

use super::{owns_range, spec_owns_range, Service};
use crate::context::World;
use crate::smccc::{FunctionId, OwningEntityNumber, SmcReturn, NOT_SUPPORTED};

verus! {

/// Function ID of `RMM_BOOT_COMPLETE`.
pub const RMM_BOOT_COMPLETE: u32 = 0xC400_01CF;

/// The lowest function number of the RMM-EL3 interface.
pub const FUNCTION_NUMBER_MIN: u16 = 0x0150;

/// The highest function number of the RMM-EL3 interface.
pub const FUNCTION_NUMBER_MAX: u16 = 0x01CF;

/// The status that the RMM reports when its boot completes.
#[derive(Copy, Clone, Debug, Eq, PartialEq, Structural)]
pub enum RmmBootReturn {
    Success,
    Unknown,
    VersionMismatch,
    CpusOutOfRange,
    CpuIdOutOfRange,
    InvalidSharedBuffer,
    ManifestVersionNotSupported,
    ManifestDataError,
}

impl RmmBootReturn {
    /// The status code of this status.
    pub open spec fn spec_code(self) -> i32 {
        match self {
            RmmBootReturn::Success => 0,
            RmmBootReturn::Unknown => -1i32,
            RmmBootReturn::VersionMismatch => -2i32,
            RmmBootReturn::CpusOutOfRange => -3i32,
            RmmBootReturn::CpuIdOutOfRange => -4i32,
            RmmBootReturn::InvalidSharedBuffer => -5i32,
            RmmBootReturn::ManifestVersionNotSupported => -6i32,
            RmmBootReturn::ManifestDataError => -7i32,
        }
    }

    /// The status that the code `value` stands for; unknown codes stand for `Unknown`.
    pub open spec fn spec_from_code(value: i32) -> RmmBootReturn {
        if value == 0 {
            RmmBootReturn::Success
        } else if value == -2i32 {
            RmmBootReturn::VersionMismatch
        } else if value == -3i32 {
            RmmBootReturn::CpusOutOfRange
        } else if value == -4i32 {
            RmmBootReturn::CpuIdOutOfRange
        } else if value == -5i32 {
            RmmBootReturn::InvalidSharedBuffer
        } else if value == -6i32 {
            RmmBootReturn::ManifestVersionNotSupported
        } else if value == -7i32 {
            RmmBootReturn::ManifestDataError
        } else {
            RmmBootReturn::Unknown
        }
    }

    /// Returns the status code of this status.
    pub fn code(self) -> (code: i32)
        ensures
            code == self.spec_code(),
    {
        match self {
            RmmBootReturn::Success => 0,
            RmmBootReturn::Unknown => -1,
            RmmBootReturn::VersionMismatch => -2,
            RmmBootReturn::CpusOutOfRange => -3,
            RmmBootReturn::CpuIdOutOfRange => -4,
            RmmBootReturn::InvalidSharedBuffer => -5,
            RmmBootReturn::ManifestVersionNotSupported => -6,
            RmmBootReturn::ManifestDataError => -7,
        }
    }
}

impl From<i32> for RmmBootReturn {
    fn from(value: i32) -> (ret: Self)
        ensures
            ret == Self::spec_from_code(value),
    {
        match value {
            0 => RmmBootReturn::Success,
            -1 => RmmBootReturn::Unknown,
            -2 => RmmBootReturn::VersionMismatch,
            -3 => RmmBootReturn::CpusOutOfRange,
            -4 => RmmBootReturn::CpuIdOutOfRange,
            -5 => RmmBootReturn::InvalidSharedBuffer,
            -6 => RmmBootReturn::ManifestVersionNotSupported,
            -7 => RmmBootReturn::ManifestDataError,
            _ => RmmBootReturn::Unknown,
        }
    }
}

impl vstd::std_specs::convert::FromSpecImpl<i32> for RmmBootReturn {
    open spec fn obeys_from_spec() -> bool {
        true
    }

    open spec fn from_spec(v: i32) -> Self {
        Self::spec_from_code(v)
    }
}

/// Every status survives the round trip through its code.
pub proof fn lemma_rmm_boot_return_round_trip(status: RmmBootReturn)
    ensures
        RmmBootReturn::spec_from_code(status.spec_code()) == status,
{
}

/// Arm CCA SMCs, for communication between the firmware and TF-RMM.
pub struct Rmmd;

impl Service for Rmmd {
    open spec fn spec_owns(function: FunctionId) -> bool {
        spec_owns_range(
            function,
            OwningEntityNumber::STANDARD_SECURE,
            FUNCTION_NUMBER_MIN,
            FUNCTION_NUMBER_MAX,
        )
    }

    /// Only calls from the realm world are handled; `RMM_BOOT_COMPLETE` returns its status
    /// argument (`x1` as a 32-bit code, sign-extended), every other call `NOT_SUPPORTED`.
    open spec fn spec_handle_smc(
        function: FunctionId,
        x1: u64,
        x2: u64,
        x3: u64,
        x4: u64,
        world: World,
    ) -> Seq<u64> {
        if world == World::Realm && function.0 == RMM_BOOT_COMPLETE {
            seq![(x1 as i32) as u64]
        } else {
            seq![NOT_SUPPORTED as u64]
        }
    }

    fn owns(function: FunctionId) -> (owns: bool) {
        owns_range(
            function,
            OwningEntityNumber::STANDARD_SECURE,
            FUNCTION_NUMBER_MIN,
            FUNCTION_NUMBER_MAX,
        )
    }

    fn handle_smc(
        function: FunctionId,
        x1: u64,
        _x2: u64,
        _x3: u64,
        _x4: u64,
        world: World,
    ) -> (ret: SmcReturn) {
        // Only handle SMCs originating from Realm world.
        if world != World::Realm {
            return NOT_SUPPORTED.into();
        }
        match function.0 {
            RMM_BOOT_COMPLETE => rmm_boot_complete(x1 as i32),
            _ => NOT_SUPPORTED.into(),
        }
    }
}

/// Handles `RMM_BOOT_COMPLETE`: the status the RMM reports is returned to it.
pub fn rmm_boot_complete(ret: i32) -> (smc_return: SmcReturn)
    ensures
        smc_return@ == seq![ret as u64],
{
    ret.into()
}

} // verus!
