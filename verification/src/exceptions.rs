//! The handling of exceptions taken to EL3 from the lower exception levels.

use vstd::prelude::*;

use crate::context::{CpuState, World};
use crate::services::psci::PsciPlatformInterface;
use crate::services::{dispatch_smc, spec_dispatch_smc};
use crate::smccc::FunctionId;

verus! {

/// The result of a system register trap that EL3 does not handle.
pub const TRAP_RET_UNHANDLED: i64 = -1;

/// Handles a trapped system register access from the given world: none is handled.
pub fn handle_sysreg_trap(_esr_el3: u64, _world: World) -> (ret: i64)
    ensures
        ret == TRAP_RET_UNHANDLED,
{
    TRAP_RET_UNHANDLED
}

/// Handles an SMC from `world` on the platform `T`: dispatches it and writes the values it returns to the
/// registers of that world's context, from `x0` upwards. Every other register and every other
/// world's context keeps its value.
pub fn handle_smc<T: PsciPlatformInterface>(
    cpu_state: &mut CpuState,
    function: FunctionId,
    x1: u64,
    x2: u64,
    x3: u64,
    x4: u64,
    world: World,
)
    ensures
        ({
            let ret = spec_dispatch_smc::<T>(function, x1, x2, x3, x4, world);
            let w = world.spec_index() as int;
            &&& forall|i: int|
                0 <= i < 32 ==> #[trigger] final(cpu_state).cpu_contexts@[w].gpregs.registers@[i]
                    == if i < ret.len() {
                    ret[i]
                } else {
                    old(cpu_state).cpu_contexts@[w].gpregs.registers@[i]
                }
            &&& final(cpu_state).cpu_contexts@[w].el3_state == old(cpu_state).cpu_contexts@[w].el3_state
            &&& final(cpu_state).cpu_contexts@[w].el1_sysregs == old(
                cpu_state,
            ).cpu_contexts@[w].el1_sysregs
            &&& forall|v: int|
                0 <= v < 3 && v != w ==> #[trigger] final(cpu_state).cpu_contexts@[v] == old(
                    cpu_state,
                ).cpu_contexts@[v]
        }),
{
    let ret = dispatch_smc::<T>(function, x1, x2, x3, x4, world);
    // Write the return value back to the registers of the world that made the SMC call.
    cpu_state.context_mut(world).gpregs.write_return_value(&ret);
}

} // verus!
