//! Runtime services reached through SMC calls, and the dispatch of calls to them.

use vstd::prelude::*;

use crate::context::World;
use crate::smccc::{FunctionId, SmcReturn, SmcccCallType, NOT_SUPPORTED};

pub mod arch;
pub mod ffa;
pub mod psci;
pub mod rmmd;
pub mod spmd_stub;

use self::arch::Arch;
use self::ffa::Ffa;
use self::psci::{Psci, PsciPlatformInterface};
use self::rmmd::Rmmd;

verus! {

/// A service which handles some range of SMC calls.
pub trait Service {
    /// Whether the service handles `function`.
    spec fn spec_owns(function: FunctionId) -> bool;

    /// The values the service returns for the given call.
    spec fn spec_handle_smc(
        function: FunctionId,
        x1: u64,
        x2: u64,
        x3: u64,
        x4: u64,
        world: World,
    ) -> Seq<u64>;

    /// Returns whether this service is intended to handle the given function ID.
    fn owns(function: FunctionId) -> (owns: bool)
        ensures
            owns == Self::spec_owns(function),
    ;

    /// Handles the given SMC call.
    fn handle_smc(function: FunctionId, x1: u64, x2: u64, x3: u64, x4: u64, world: World) -> (ret:
        SmcReturn)
        ensures
            ret@ == Self::spec_handle_smc(function, x1, x2, x3, x4, world),
    ;
}

/// Whether `function` is a fast call of owning entity `oen`.
pub open spec fn spec_owns_entity(function: FunctionId, oen: u8) -> bool {
    function.spec_oen() == oen && function.spec_call_type() != SmcccCallType::Yielding
}

/// Whether `function` is a fast call of owning entity `oen` whose function number lies in
/// `min..=max`.
pub open spec fn spec_owns_range(function: FunctionId, oen: u8, min: u16, max: u16) -> bool {
    spec_owns_entity(function, oen) && min <= function.spec_number() <= max
}

/// Returns whether `function` is a fast call of owning entity `oen`: the calls of a service that
/// handles the entire owning entity.
pub fn owns_entity(function: FunctionId, oen: u8) -> (owns: bool)
    ensures
        owns == spec_owns_entity(function, oen),
{
    function.oen() == oen && match function.call_type() {
        SmcccCallType::Fast32 | SmcccCallType::Fast64 => true,
        SmcccCallType::Yielding => false,
    }
}

/// Returns whether `function` is a fast call of owning entity `oen` whose function number lies
/// in `min..=max`: the calls of a service that handles a sub-range of the owning entity.
pub fn owns_range(function: FunctionId, oen: u8, min: u16, max: u16) -> (owns: bool)
    ensures
        owns == spec_owns_range(function, oen, min, max),
{
    let number = function.number();
    owns_entity(function, oen) && min <= number && number <= max
}

/// `function` with its SVE live state hint cleared.
pub open spec fn spec_without_sve_hint(function: FunctionId) -> FunctionId {
    FunctionId(
        if (function.0 as nat / 0x1_0000) % 2 == 1 {
            (function.0 - 0x1_0000) as u32
        } else {
            function.0
        },
    )
}

/// The values that the SMC call `function` with arguments `x1` to `x4` from `world` returns:
/// `NOT_SUPPORTED` for a malformed function ID or one that no service owns, and otherwise the
/// result of the first service that owns it, in the order Arm architecture, PSCI, FF-A, RMM.
/// PSCI is that of the platform `T`.
/// The SVE live state hint is ignored.
pub open spec fn spec_dispatch_smc<T: PsciPlatformInterface>(
    function: FunctionId,
    x1: u64,
    x2: u64,
    x3: u64,
    x4: u64,
    world: World,
) -> Seq<u64> {
    let f = spec_without_sve_hint(function);
    if !f.spec_valid() {
        seq![NOT_SUPPORTED as u64]
    } else if Arch::spec_owns(f) {
        Arch::spec_handle_smc(f, x1, x2, x3, x4, world)
    } else if Psci::<T>::spec_owns(f) {
        Psci::<T>::spec_handle_smc(f, x1, x2, x3, x4, world)
    } else if Ffa::spec_owns(f) {
        Ffa::spec_handle_smc(f, x1, x2, x3, x4, world)
    } else if Rmmd::spec_owns(f) {
        Rmmd::spec_handle_smc(f, x1, x2, x3, x4, world)
    } else {
        seq![NOT_SUPPORTED as u64]
    }
}

/// Calls the appropriate SMC handler based on the function ID, or returns `NOT_SUPPORTED` if
/// there is no suitable handler.
pub fn dispatch_smc<T: PsciPlatformInterface>(
    function: FunctionId,
    x1: u64,
    x2: u64,
    x3: u64,
    x4: u64,
    world: World,
) -> (ret: SmcReturn)
    ensures
        ret@ == spec_dispatch_smc::<T>(function, x1, x2, x3, x4, world),
{
    let mut function = function;
    function.clear_sve_hint();
    if !function.valid() {
        NOT_SUPPORTED.into()
    } else if Arch::owns(function) {
        Arch::handle_smc(function, x1, x2, x3, x4, world)
    } else if Psci::<T>::owns(function) {
        Psci::<T>::handle_smc(function, x1, x2, x3, x4, world)
    } else if Ffa::owns(function) {
        Ffa::handle_smc(function, x1, x2, x3, x4, world)
    } else if Rmmd::owns(function) {
        Rmmd::handle_smc(function, x1, x2, x3, x4, world)
    } else {
        NOT_SUPPORTED.into()
    }
}

} // verus!
