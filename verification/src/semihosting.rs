//! The reason codes of the Arm semihosting `SYS_EXIT` call.

use vstd::prelude::*;

verus! {

/// The operation code of `SYS_EXIT`.
pub const SYS_EXIT: u32 = 0x18;

/// Reason codes for a `SYS_EXIT` call.
#[derive(Copy, Clone, Debug, Eq, PartialEq, Structural)]
pub enum AdpStopped {
    BranchThroughZero,
    UndefinedInstr,
    SoftwareInterrupt,
    PrefetchAbort,
    DataAbort,
    AddressException,
    Irq,
    Fiq,
    BreakPoint,
    WatchPoint,
    StepComplete,
    RunTimeErrorUnknown,
    InternalError,
    UserInterruption,
    ApplicationExit,
    StackOverflow,
    DivisionByZero,
    OSSpecific,
}

impl AdpStopped {
    /// The reason code.
    pub open spec fn spec_code(self) -> u32 {
        match self {
            AdpStopped::BranchThroughZero => 0x20000,
            AdpStopped::UndefinedInstr => 0x20001,
            AdpStopped::SoftwareInterrupt => 0x20002,
            AdpStopped::PrefetchAbort => 0x20003,
            AdpStopped::DataAbort => 0x20004,
            AdpStopped::AddressException => 0x20005,
            AdpStopped::Irq => 0x20006,
            AdpStopped::Fiq => 0x20007,
            AdpStopped::BreakPoint => 0x20020,
            AdpStopped::WatchPoint => 0x20021,
            AdpStopped::StepComplete => 0x20022,
            AdpStopped::RunTimeErrorUnknown => 0x20023,
            AdpStopped::InternalError => 0x20024,
            AdpStopped::UserInterruption => 0x20025,
            AdpStopped::ApplicationExit => 0x20026,
            AdpStopped::StackOverflow => 0x20027,
            AdpStopped::DivisionByZero => 0x20028,
            AdpStopped::OSSpecific => 0x20029,
        }
    }

    /// Returns the reason code.
    pub fn code(self) -> (code: u32)
        ensures
            code == self.spec_code(),
    {
        match self {
            AdpStopped::BranchThroughZero => 0x20000,
            AdpStopped::UndefinedInstr => 0x20001,
            AdpStopped::SoftwareInterrupt => 0x20002,
            AdpStopped::PrefetchAbort => 0x20003,
            AdpStopped::DataAbort => 0x20004,
            AdpStopped::AddressException => 0x20005,
            AdpStopped::Irq => 0x20006,
            AdpStopped::Fiq => 0x20007,
            AdpStopped::BreakPoint => 0x20020,
            AdpStopped::WatchPoint => 0x20021,
            AdpStopped::StepComplete => 0x20022,
            AdpStopped::RunTimeErrorUnknown => 0x20023,
            AdpStopped::InternalError => 0x20024,
            AdpStopped::UserInterruption => 0x20025,
            AdpStopped::ApplicationExit => 0x20026,
            AdpStopped::StackOverflow => 0x20027,
            AdpStopped::DivisionByZero => 0x20028,
            AdpStopped::OSSpecific => 0x20029,
        }
    }
}

impl From<AdpStopped> for u32 {
    fn from(value: AdpStopped) -> (code: u32)
        ensures
            code == value.spec_code(),
    {
        value.code()
    }
}

impl vstd::std_specs::convert::FromSpecImpl<AdpStopped> for u32 {
    open spec fn obeys_from_spec() -> bool {
        true
    }

    open spec fn from_spec(v: AdpStopped) -> u32 {
        v.spec_code()
    }
}

impl From<AdpStopped> for u64 {
    fn from(value: AdpStopped) -> (code: u64)
        ensures
            code == value.spec_code(),
    {
        value.code() as u64
    }
}

impl vstd::std_specs::convert::FromSpecImpl<AdpStopped> for u64 {
    open spec fn obeys_from_spec() -> bool {
        true
    }

    open spec fn from_spec(v: AdpStopped) -> u64 {
        v.spec_code() as u64
    }
}

/// Returns the parameter block of a `SYS_EXIT` call: the reason code and the subcode.
pub fn exit_parameters(reason: AdpStopped, subcode: u64) -> (parameters: [u64; 2])
    ensures
        parameters@ == seq![reason.spec_code() as u64, subcode],
{
    let parameters: [u64; 2] = [reason.into(), subcode];
    assert(parameters@ =~= seq![reason.spec_code() as u64, subcode]);
    parameters
}

} // verus!
