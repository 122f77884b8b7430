//! Arm Firmware Framework for A-Profile (FF-A): the calls that the firmware answers itself.
//!
//! Requests are parsed, and responses encoded, by the `arm-ffa` crate; which response is given,
//! and to which world the firmware returns, is decided here.

use vstd::prelude::*;

use arm_ffa::{Error, FfaError, Interface, Version, VersionOut};

use super::{owns_range, spec_owns_range, Service};
use crate::context::World;
use crate::smccc::{FunctionId, OwningEntityNumber, SmcReturn, NOT_SUPPORTED};

verus! {

/// The lowest function number of the FF-A calls.
pub const FUNCTION_NUMBER_MIN: u16 = 0x0060;

/// The highest function number of the FF-A calls.
pub const FUNCTION_NUMBER_MAX: u16 = 0x00FF;

/// Function ID of the 32-bit `FFA_ERROR` interface.
pub const FFA_ERROR_32: u64 = 0x8400_0060;

/// The FF-A error code `NOT_SUPPORTED`.
pub const FFA_NOT_SUPPORTED: i32 = -1;

/// The FF-A error code `DENIED`.
pub const FFA_DENIED: i32 = -6;

/// An FF-A request, as far as this service tells requests apart.
#[derive(Copy, Clone, Debug, Eq, PartialEq, Structural)]
pub enum FfaRequest {
    /// `FFA_VERSION`, with the caller's version.
    Version { major: u16, minor: u16 },
    /// `FFA_MSG_WAIT`.
    MsgWait,
    /// Any other well-formed FF-A request.
    Other,
    /// A request that could not be parsed, with the FF-A error code that answers it.
    Invalid { error_code: i32 },
    /// A request that could not be parsed for a memory management, notification or partition
    /// information reason: the `arm-ffa` crate has no FF-A error code that it maps these to.
    InvalidArguments,
}

/// The FF-A error code `INVALID_PARAMETERS`.
pub const FFA_INVALID_PARAMETERS: i32 = -2;

/// The request that `Interface::from_regs` of the `arm-ffa` crate parses from the eight
/// registers `regs`, at FF-A version 1.1, with a parse error mapped to its FF-A error code by the
/// crate's own conversion; a memory management, notification or partition information error,
/// for which that conversion does not return, is `InvalidArguments`.
pub uninterp spec fn ffa_request_of(regs: Seq<u64>) -> FfaRequest;

/// Parses an FF-A request from the registers `x0` to `x7` of a call.
///
/// Calls `arm_ffa::Interface::from_regs` at version 1.1. What it parses is not stated beyond
/// its name, `ffa_request_of`; the claim is that a parse error maps to an `FfaError`, whose
/// codes lie in `-9..=-1` in the crate's source. The crate's `From<Error> for FfaError` calls
/// itself for memory management, notification and partition information errors and never
/// returns, so those errors are not handed to it: they are told apart by their variants.
#[verifier::external_body]
fn parse_request(regs: &[u64; 8]) -> (request: FfaRequest)
    ensures
        request == ffa_request_of(regs@),
        request matches FfaRequest::Invalid { error_code } ==> -9 <= error_code <= -1,
{
    match Interface::from_regs(Version(1, 1), regs.as_slice()) {
        Ok(Interface::Version { input_version, .. }) => FfaRequest::Version {
            major: input_version.0,
            minor: input_version.1,
        },
        Ok(Interface::MsgWait { .. }) => FfaRequest::MsgWait,
        Ok(_) => FfaRequest::Other,
        Err(Error::MemoryManagementError(_))
        | Err(Error::NotificationError(_))
        | Err(Error::PartitionInfoError(_)) => FfaRequest::InvalidArguments,
        Err(e) => FfaRequest::Invalid { error_code: i32::from(FfaError::from(e)) },
    }
}

/// The registers of a 32-bit `FFA_ERROR` response with error code `code`.
pub open spec fn error_registers(code: i32) -> Seq<u64> {
    seq![FFA_ERROR_32, 0, code as u32 as u64, 0, 0, 0, 0, 0]
}

/// The registers of an `FFA_VERSION` response that reports version `major.minor`.
pub open spec fn version_registers(major: u16, minor: u16) -> Seq<u64> {
    seq![(major * 0x1_0000 + minor) as u64, 0, 0, 0, 0, 0, 0, 0]
}

/// Encodes a 32-bit `FFA_ERROR` response with the error code `code`.
///
/// Calls `Interface::error(.., true).to_regs` of the `arm-ffa` crate at version 1.1; the claim,
/// read from its source, is that it writes the 32-bit error function ID, a zero target, the code
/// as a 32-bit value and zeros.
#[verifier::external_body]
fn encode_error(code: i32) -> (regs: [u64; 8])
    requires
        -9 <= code <= -1,
    ensures
        regs@ == error_registers(code),
{
    let mut regs = [0u64; 8];
    let error = FfaError::try_from(code).unwrap();
    Interface::error(error, true).to_regs(Version(1, 1), regs.as_mut_slice());
    regs
}

/// Encodes an `FFA_VERSION` response that reports version `major.minor`.
///
/// Calls `to_regs` of the `arm-ffa` crate on `Interface::VersionOut` at version 1.1; the claim,
/// read from its source, is that it writes the version as `major << 16 | minor` in `x0` and zeros
/// in the other registers. Bit 31 of a version must be zero, hence the bound on `major`.
#[verifier::external_body]
fn encode_version(major: u16, minor: u16) -> (regs: [u64; 8])
    requires
        major < 0x8000,
    ensures
        regs@ == version_registers(major, minor),
{
    let mut regs = [0u64; 8];
    let output_version = VersionOut::Version(Version(major, minor));
    Interface::VersionOut { output_version }.to_regs(Version(1, 1), regs.as_mut_slice());
    regs
}

/// The response registers and the next world for `request` made from `world`.
///
/// `FFA_VERSION` reports version 1.0 to the normal world and 1.1 to the secure world.
/// `FFA_MSG_WAIT` from the secure world is answered with `DENIED` in the normal world, where the
/// firmware then returns; elsewhere it is not supported, as is any other request. A request that
/// could not be parsed is answered with its error code, or with `INVALID_PARAMETERS` where the
/// `arm-ffa` crate has none for it.
pub open spec fn spec_response(request: FfaRequest, world: World) -> (Seq<u64>, World) {
    match request {
        FfaRequest::Version { .. } => if world == World::Secure {
            (version_registers(1, 1), world)
        } else {
            (version_registers(1, 0), world)
        },
        FfaRequest::MsgWait => if world == World::Secure {
            (error_registers(FFA_DENIED), World::NonSecure)
        } else {
            (error_registers(FFA_NOT_SUPPORTED), world)
        },
        FfaRequest::Other => (error_registers(FFA_NOT_SUPPORTED), world),
        FfaRequest::Invalid { error_code } => (error_registers(error_code), world),
        FfaRequest::InvalidArguments => (error_registers(FFA_INVALID_PARAMETERS), world),
    }
}

/// The first eight of the registers `regs`.
pub open spec fn call_registers(regs: Seq<u64>) -> Seq<u64> {
    regs.subrange(0, 8)
}

/// The registers `x0` to `x7` of a call `function` with arguments `x1` to `x4`.
pub open spec fn registers_of_call(function: FunctionId, x1: u64, x2: u64, x3: u64, x4: u64) -> Seq<
    u64,
> {
    seq![function.0 as u64, x1, x2, x3, x4, 0, 0, 0]
}

/// Arm Firmware Framework for A-Profile.
pub struct Ffa;

impl Ffa {
    /// Creates the FF-A service.
    pub fn new() -> (ffa: Self) {
        Ffa
    }

    /// Returns the version of the Firmware Framework implementation supported by the firmware
    /// for callers in `world`: 1.0 for the normal world and 1.1 for the secure world.
    fn version(world: World) -> (ret: (SmcReturn, World))
        requires
            world != World::Realm,
        ensures
            ret.0@ == spec_response(FfaRequest::Version { major: 0, minor: 0 }, world).0,
            ret.1 == world,
    {
        let regs = match world {
            World::NonSecure => encode_version(1, 0),
            _ => encode_version(1, 1),
        };
        (SmcReturn::from(regs), world)
    }

    /// Handles `FFA_MSG_WAIT` from `world`: the secure world is switched to the normal world
    /// and told `DENIED`; the normal world may not make this call over SMC.
    fn msg_wait(world: World) -> (ret: (SmcReturn, World))
        ensures
            ret.0@ == spec_response(FfaRequest::MsgWait, world).0,
            ret.1 == spec_response(FfaRequest::MsgWait, world).1,
    {
        match world {
            World::Secure => (SmcReturn::from(encode_error(FFA_DENIED)), World::NonSecure),
            _ => (SmcReturn::from(encode_error(FFA_NOT_SUPPORTED)), world),
        }
    }

    /// Answers the parsed `request` made from the normal or the secure world: returns the
    /// response and the world to return to.
    pub fn respond(request: FfaRequest, world: World) -> (ret: (SmcReturn, World))
        requires
            world != World::Realm,
            request matches FfaRequest::Invalid { error_code } ==> -9 <= error_code <= -1,
        ensures
            ret.0@ == spec_response(request, world).0,
            ret.1 == spec_response(request, world).1,
    {
        match request {
            FfaRequest::Version { .. } => Ffa::version(world),
            FfaRequest::MsgWait => Ffa::msg_wait(world),
            FfaRequest::Other => (SmcReturn::from(encode_error(FFA_NOT_SUPPORTED)), world),
            FfaRequest::Invalid { error_code } => (SmcReturn::from(encode_error(error_code)), world),
            FfaRequest::InvalidArguments => (
                SmcReturn::from(encode_error(FFA_INVALID_PARAMETERS)),
                world,
            ),
        }
    }

    /// Parses the registers of a call from `world` and answers it.
    fn handle_call(regs: &[u64; 8], world: World) -> (ret: (SmcReturn, World))
        requires
            world != World::Realm,
        ensures
            ret.0@ == spec_response(ffa_request_of(regs@), world).0,
            ret.1 == spec_response(ffa_request_of(regs@), world).1,
    {
        let request = parse_request(regs);
        Ffa::respond(request, world)
    }

    /// The first eight registers of `regs`.
    fn first_eight(regs: &[u64; 18]) -> (first: [u64; 8])
        ensures
            first@ == call_registers(regs@),
    {
        let first = [regs[0], regs[1], regs[2], regs[3], regs[4], regs[5], regs[6], regs[7]];
        assert(first@ =~= call_registers(regs@));
        first
    }

    /// Handles an FF-A call from the normal world, whose registers `x0` to `x17` are `regs`:
    /// returns the response and the world to return to.
    pub fn handle_non_secure_smc(&self, regs: &[u64; 18]) -> (ret: (SmcReturn, World))
        ensures
            ret.0@ == spec_response(ffa_request_of(call_registers(regs@)), World::NonSecure).0,
            ret.1 == spec_response(ffa_request_of(call_registers(regs@)), World::NonSecure).1,
    {
        let first = Ffa::first_eight(regs);
        Ffa::handle_call(&first, World::NonSecure)
    }

    /// Handles an FF-A call from the secure world, whose registers `x0` to `x17` are `regs`:
    /// returns the response and the world to return to.
    pub fn handle_secure_smc(&self, regs: &[u64; 18]) -> (ret: (SmcReturn, World))
        ensures
            ret.0@ == spec_response(ffa_request_of(call_registers(regs@)), World::Secure).0,
            ret.1 == spec_response(ffa_request_of(call_registers(regs@)), World::Secure).1,
    {
        let first = Ffa::first_eight(regs);
        Ffa::handle_call(&first, World::Secure)
    }
}

impl Service for Ffa {
    open spec fn spec_owns(function: FunctionId) -> bool {
        spec_owns_range(
            function,
            OwningEntityNumber::STANDARD_SECURE,
            FUNCTION_NUMBER_MIN,
            FUNCTION_NUMBER_MAX,
        )
    }

    /// FF-A answers calls from the normal and the secure world; a call from the Realm world is
    /// not supported.
    open spec fn spec_handle_smc(
        function: FunctionId,
        x1: u64,
        x2: u64,
        x3: u64,
        x4: u64,
        world: World,
    ) -> Seq<u64> {
        if world == World::Realm {
            seq![NOT_SUPPORTED as u64]
        } else {
            spec_response(ffa_request_of(registers_of_call(function, x1, x2, x3, x4)), world).0
        }
    }

    fn owns(function: FunctionId) -> (owns: bool) {
        owns_range(
            function,
            OwningEntityNumber::STANDARD_SECURE,
            FUNCTION_NUMBER_MIN,
            FUNCTION_NUMBER_MAX,
        )
    }

    fn handle_smc(function: FunctionId, x1: u64, x2: u64, x3: u64, x4: u64, world: World) -> (ret:
        SmcReturn) {
        match world {
            World::Realm => NOT_SUPPORTED.into(),
            _ => {
                let regs = [function.0 as u64, x1, x2, x3, x4, 0, 0, 0];
                assert(regs@ =~= registers_of_call(function, x1, x2, x3, x4));
                Ffa::handle_call(&regs, world).0
            },
        }
    }
}

} // verus!
