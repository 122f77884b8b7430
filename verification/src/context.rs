//! The saved state of each lower exception level, per CPU and per security state.

use vstd::prelude::*;

use crate::smccc::SmcReturn;

verus! {

/// The number of contexts to store for each CPU core, one per security state.
pub const CPU_DATA_CONTEXT_NUM: usize = 3;

/// RES1 bits in the `scr_el3` register.
pub const SCR_RES1: u64 = 0x30;
/// `scr_el3.NS`: the lower exception levels are non-secure.
pub const SCR_NS: u64 = 0x1;
/// `scr_el3.SIF`: secure instruction fetches from non-secure memory are not permitted.
pub const SCR_SIF: u64 = 0x200;
/// `scr_el3.RW`: the next lower exception level is AArch64.
pub const SCR_RW: u64 = 0x400;
/// `scr_el3.EEL2`: secure EL2 is enabled.
pub const SCR_EEL2: u64 = 0x4_0000;

/// RES1 bits in the `sctlr_el1` register: bits 29, 28, 23, 22, 20 and 11.
pub const SCTLR_EL1_RES1: u64 = 0x30d0_0800;

/// A security state of the lower exception levels.
#[derive(Copy, Clone, Debug, Eq, PartialEq, Structural)]
pub enum World {
    /// The secure world.
    Secure,
    /// The non-secure world.
    NonSecure,
    /// The realm world.
    Realm,
}

impl World {
    /// The number the context switching code uses for this world, and the index of its context.
    pub open spec fn spec_index(self) -> nat {
        match self {
            World::Secure => 0,
            World::NonSecure => 1,
            World::Realm => 2,
        }
    }

    /// Returns the index of this world's context.
    pub fn index(self) -> (index: usize)
        ensures
            index == self.spec_index(),
            index < CPU_DATA_CONTEXT_NUM,
    {
        match self {
            World::Secure => 0,
            World::NonSecure => 1,
            World::Realm => 2,
        }
    }
}

/// AArch64 general purpose register context structure. Usually x0-x18 and lr are saved as the
/// compiler is expected to preserve the remaining callee saved registers if needed and the
/// assembly code does not touch the remaining. But in case of world switch during exception
/// handling, we need to save the callee registers too.
#[derive(Clone, Debug)]
pub struct GpRegs {
    /// The saved registers, `x0` first.
    pub registers: [u64; 32],
}

impl GpRegs {
    /// The number of (64-bit) registers included in `GpRegs`.
    pub const COUNT: usize = 32;

    /// All registers zero.
    pub fn empty() -> (regs: Self)
        ensures
            forall|i: int| 0 <= i < 32 ==> regs.registers@[i] == 0,
    {
        GpRegs { registers: [0u64; 32] }
    }

    /// Writes the given return value to the general-purpose registers: its values go to `x0`
    /// upwards and the other registers keep their values.
    pub fn write_return_value(&mut self, value: &SmcReturn)
        ensures
            forall|i: int|
                0 <= i < 32 ==> #[trigger] final(self).registers@[i] == if i < value@.len() {
                    value@[i]
                } else {
                    old(self).registers@[i]
                },
    {
        let values = value.values();
        let mut i: usize = 0;
        while i < values.len()
            invariant
                values@ == value@,
                values@.len() <= 18,
                0 <= i <= values@.len(),
                forall|j: int|
                    0 <= j < 32 ==> #[trigger] self.registers@[j] == if j < i {
                        value@[j]
                    } else {
                        old(self).registers@[j]
                    },
            decreases values@.len() - i,
        {
            self.registers[i] = values[i];
            i = i + 1;
        }
    }
}

/// Miscellaneous registers used by EL3 firmware to maintain its state across exception entries
/// and exits.
#[derive(Clone, Debug)]
pub struct El3State {
    pub scr_el3: u64,
    pub esr_el3: u64,
    pub runtime_sp: u64,
    pub spsr_el3: u64,
    pub elr_el3: u64,
    pub pmcr_el0: u64,
    pub is_in_el3: u64,
    pub saved_elr_el3: u64,
    pub nested_ea_flag: u64,
    pub padding: u64,
}

impl El3State {
    /// All registers zero.
    pub fn empty() -> (state: Self)
        ensures
            state.scr_el3 == 0 && state.esr_el3 == 0 && state.runtime_sp == 0
                && state.spsr_el3 == 0 && state.elr_el3 == 0 && state.pmcr_el0 == 0
                && state.is_in_el3 == 0 && state.saved_elr_el3 == 0 && state.nested_ea_flag == 0
                && state.padding == 0,
    {
        El3State {
            scr_el3: 0,
            esr_el3: 0,
            runtime_sp: 0,
            spsr_el3: 0,
            elr_el3: 0,
            pmcr_el0: 0,
            is_in_el3: 0,
            saved_elr_el3: 0,
            nested_ea_flag: 0,
            padding: 0,
        }
    }
}

/// AArch64 EL1 system register context structure for preserving the architectural state during
/// world switches.
#[derive(Clone, Debug)]
pub struct El1Sysregs {
    pub spsr_el1: u64,
    pub elr_el1: u64,
    pub sctlr_el1: u64,
    pub tcr_el1: u64,
    pub cpacr_el1: u64,
    pub csselr_el1: u64,
    pub sp_el1: u64,
    pub esr_el1: u64,
    pub ttbr0_el1: u64,
    pub ttbr1_el1: u64,
    pub mair_el1: u64,
    pub amair_el1: u64,
    pub actlr_el1: u64,
    pub tpidr_el1: u64,
    pub tpidr_el0: u64,
    pub tpidrro_el0: u64,
    pub par_el1: u64,
    pub far_el1: u64,
    pub afsr0_el1: u64,
    pub afsr1_el1: u64,
    pub contextidr_el1: u64,
    pub vbar_el1: u64,
    pub mdccint_el1: u64,
    pub mdscr_el1: u64,
}

impl El1Sysregs {
    /// All registers zero.
    pub fn empty() -> (regs: Self)
        ensures
            regs.spsr_el1 == 0 && regs.elr_el1 == 0 && regs.sctlr_el1 == 0 && regs.tcr_el1 == 0,
            regs.cpacr_el1 == 0 && regs.csselr_el1 == 0 && regs.sp_el1 == 0 && regs.esr_el1 == 0,
            regs.ttbr0_el1 == 0 && regs.ttbr1_el1 == 0 && regs.mair_el1 == 0 && regs.amair_el1
                == 0,
            regs.actlr_el1 == 0 && regs.tpidr_el1 == 0 && regs.tpidr_el0 == 0 && regs.tpidrro_el0
                == 0,
            regs.par_el1 == 0 && regs.far_el1 == 0 && regs.afsr0_el1 == 0 && regs.afsr1_el1 == 0,
            regs.contextidr_el1 == 0 && regs.vbar_el1 == 0 && regs.mdccint_el1 == 0
                && regs.mdscr_el1 == 0,
    {
        El1Sysregs {
            spsr_el1: 0,
            elr_el1: 0,
            sctlr_el1: 0,
            tcr_el1: 0,
            cpacr_el1: 0,
            csselr_el1: 0,
            sp_el1: 0,
            esr_el1: 0,
            ttbr0_el1: 0,
            ttbr1_el1: 0,
            mair_el1: 0,
            amair_el1: 0,
            actlr_el1: 0,
            tpidr_el1: 0,
            tpidr_el0: 0,
            tpidrro_el0: 0,
            par_el1: 0,
            far_el1: 0,
            afsr0_el1: 0,
            afsr1_el1: 0,
            contextidr_el1: 0,
            vbar_el1: 0,
            mdccint_el1: 0,
            mdscr_el1: 0,
        }
    }
}

/// The state of a core at the next lower EL in a given security state.
#[derive(Clone, Debug)]
pub struct CpuContext {
    /// The general purpose registers.
    pub gpregs: GpRegs,
    /// The EL3 registers that describe how to enter the lower EL.
    pub el3_state: El3State,
    /// The lower EL's system registers.
    pub el1_sysregs: El1Sysregs,
}

impl CpuContext {
    /// A context with every register zero.
    pub fn empty() -> (context: Self)
        ensures
            forall|i: int| 0 <= i < 32 ==> context.gpregs.registers@[i] == 0,
            context.el3_state.scr_el3 == 0,
            context.el3_state.elr_el3 == 0,
            context.el3_state.spsr_el3 == 0,
            context.el1_sysregs.sctlr_el1 == 0,
    {
        CpuContext {
            gpregs: GpRegs::empty(),
            el3_state: El3State::empty(),
            el1_sysregs: El1Sysregs::empty(),
        }
    }
}

/// The saved lower-EL contexts of one CPU, one per world.
#[derive(Debug)]
pub struct CpuState {
    /// The contexts, indexed by [`World::index`].
    pub cpu_contexts: [CpuContext; CPU_DATA_CONTEXT_NUM],
}

impl CpuState {
    /// The state with all contexts zero.
    pub fn empty() -> (state: Self)
        ensures
            forall|w: int, i: int|
                0 <= w < CPU_DATA_CONTEXT_NUM && 0 <= i < 32 ==> state.cpu_contexts@[w].gpregs.registers@[i]
                    == 0,
    {
        CpuState { cpu_contexts: [CpuContext::empty(), CpuContext::empty(), CpuContext::empty()] }
    }

    /// Returns the context of the given world.
    pub fn context(&self, world: World) -> (context: &CpuContext)
        ensures
            *context == self.cpu_contexts@[world.spec_index() as int],
    {
        &self.cpu_contexts[world.index()]
    }

    /// Returns the context of the given world, for modification.
    pub fn context_mut(&mut self, world: World) -> (context: &mut CpuContext)
        ensures
            *context == old(self).cpu_contexts@[world.spec_index() as int],
            final(self).cpu_contexts@ == old(self).cpu_contexts@.update(
                world.spec_index() as int,
                *final(context),
            ),
    {
        &mut self.cpu_contexts[world.index()]
    }
}

/// Information about the entry point for a next stage (e.g. BL32 or BL33).
#[derive(Clone, Debug, Eq, PartialEq)]
pub struct EntryPointInfo {
    /// The entry point address.
    pub pc: u64,
    /// The `spsr_el3` value to set before `eret`, to set the appropriate PSTATE.
    pub spsr: u64,
    /// Boot arguments to pass in `x0`-`x7`.
    pub args: [u64; 8],
}

/// The `scr_el3` value of a freshly initialised secure context.
pub open spec fn spec_secure_scr() -> u64 {
    SCR_RES1 | SCR_SIF | SCR_RW | SCR_EEL2
}

/// The `scr_el3` value of a freshly initialised non-secure context.
pub open spec fn spec_nonsecure_scr() -> u64 {
    spec_secure_scr() | SCR_NS
}

/// Whether `new` is `old` initialised for `entry_point` with `scr_el3` value `scr`: the return
/// address and state come from the entry point, its boot arguments are in `x0` to `x7`,
/// `sctlr_el1` holds its RES1 bits and nothing else changes.
pub open spec fn initialised_as(
    old: CpuContext,
    new: CpuContext,
    entry_point: EntryPointInfo,
    scr: u64,
) -> bool {
    &&& new.el3_state == El3State {
        elr_el3: entry_point.pc,
        spsr_el3: entry_point.spsr,
        scr_el3: scr,
        ..old.el3_state
    }
    &&& new.el1_sysregs == El1Sysregs { sctlr_el1: SCTLR_EL1_RES1, ..old.el1_sysregs }
    &&& forall|i: int|
        0 <= i < 32 ==> #[trigger] new.gpregs.registers@[i] == if i < 8 {
            entry_point.args@[i]
        } else {
            old.gpregs.registers@[i]
        }
}

/// Initialises parts of the given CPU context that are the same for all worlds.
fn initialise_common(context: &mut CpuContext, entry_point: &EntryPointInfo)
    ensures
        initialised_as(*old(context), *final(context), *entry_point, spec_secure_scr()),
{
    let mut i: usize = 0;
    while i < 8
        invariant
            0 <= i <= 8,
            context.el3_state == old(context).el3_state,
            context.el1_sysregs == old(context).el1_sysregs,
            forall|j: int|
                0 <= j < 32 ==> #[trigger] context.gpregs.registers@[j] == if j < i {
                    entry_point.args@[j]
                } else {
                    old(context).gpregs.registers@[j]
                },
        decreases 8 - i,
    {
        context.gpregs.registers[i] = entry_point.args[i];
        i = i + 1;
    }
    context.el3_state.elr_el3 = entry_point.pc;
    context.el3_state.spsr_el3 = entry_point.spsr;
    context.el3_state.scr_el3 = SCR_RES1 | SCR_SIF | SCR_RW | SCR_EEL2;
    context.el1_sysregs.sctlr_el1 = SCTLR_EL1_RES1;
}

/// Initialises the given CPU context ready for booting NS-EL2 or NS-EL1.
fn initialise_nonsecure(context: &mut CpuContext, entry_point: &EntryPointInfo)
    ensures
        initialised_as(*old(context), *final(context), *entry_point, spec_nonsecure_scr()),
{
    initialise_common(context, entry_point);
    context.el3_state.scr_el3 = context.el3_state.scr_el3 | SCR_NS;
}

/// Initialises the given CPU context ready for booting S-EL2 or S-EL1.
fn initialise_secure(context: &mut CpuContext, entry_point: &EntryPointInfo)
    ensures
        initialised_as(*old(context), *final(context), *entry_point, spec_secure_scr()),
{
    initialise_common(context, entry_point);
}

/// Initialises the non-secure and secure contexts of a CPU, ready for first boot. The realm
/// context is left as it was.
pub fn initialise_contexts(
    cpu_state: &mut CpuState,
    non_secure_entry_point: &EntryPointInfo,
    secure_entry_point: &EntryPointInfo,
)
    ensures
        initialised_as(
            old(cpu_state).cpu_contexts@[1],
            final(cpu_state).cpu_contexts@[1],
            *non_secure_entry_point,
            spec_nonsecure_scr(),
        ),
        initialised_as(
            old(cpu_state).cpu_contexts@[0],
            final(cpu_state).cpu_contexts@[0],
            *secure_entry_point,
            spec_secure_scr(),
        ),
        final(cpu_state).cpu_contexts@[2] == old(cpu_state).cpu_contexts@[2],
{
    initialise_nonsecure(cpu_state.context_mut(World::NonSecure), non_secure_entry_point);
    initialise_secure(cpu_state.context_mut(World::Secure), secure_entry_point);
}

} // verus!
