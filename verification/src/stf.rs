//! The decisions of the secure test framework's two payloads: the fake SPMC in the secure world,
//! which answers each direct request of the normal world with a test result and each version
//! request of the SPMD with a version, and the normal-world driver, which runs the normal world
//! tests, then the secure world tests, and then switches the system off.

use vstd::prelude::*;

verus! {

/// The partition ID of the normal world component.
pub const NORMAL_WORLD_ID: u16 = 0;

/// The partition ID of the secure world component.
pub const SECURE_WORLD_ID: u16 = 1;

/// Value returned in a direct message response for a test success.
pub const TEST_SUCCESS: u64 = 0;

/// Value returned in a direct message response for a test failure.
pub const TEST_FAILURE: u64 = 1;

/// Value returned in a direct message response for a test panic. No further tests should be run
/// after this.
pub const TEST_PANIC: u64 = 2;

/// The major FF-A version that the fake SPMC supports.
pub const SPMC_FFA_MAJOR: u16 = 1;

/// The minor FF-A version that the fake SPMC supports.
pub const SPMC_FFA_MINOR: u16 = 1;

/// The FF-A version that the normal-world driver supports, 1.0.
pub const NORMAL_WORLD_FFA_VERSION: (u16, u16) = (1, 0);

/// The FF-A version that the fake SPMC supports, 1.1.
pub const SPMC_FFA_VERSION: (u16, u16) = (1, 1);

/// An unreasonably high FF-A version, 1.0xffff, which a payload asks for first to see what the
/// firmware answers.
pub const HIGH_FFA_VERSION: (u16, u16) = (1, 0xffff);

/// Whether FF-A version `a` is no later than `b`, major version first.
pub open spec fn spec_version_le(a: (u16, u16), b: (u16, u16)) -> bool {
    a.0 < b.0 || (a.0 == b.0 && a.1 <= b.1)
}

/// Returns whether FF-A version `a` is no later than `b`.
pub fn version_le(a: (u16, u16), b: (u16, u16)) -> (le: bool)
    ensures
        le == spec_version_le(a, b),
{
    a.0 < b.0 || (a.0 == b.0 && a.1 <= b.1)
}

/// Whether a payload that supports FF-A version `supported` may go on after it asked for the
/// version 1.0xffff, answered `high_reply`, and then for its own version, answered `own_reply`
/// (`None` for an error): the first answer must be a version from its own up to, but not
/// including, 1.0xffff, and the second its own version.
pub open spec fn spec_version_negotiated(
    supported: (u16, u16),
    high_reply: Option<(u16, u16)>,
    own_reply: Option<(u16, u16)>,
) -> bool {
    &&& high_reply matches Some(v) && spec_version_le(supported, v) && !spec_version_le(
        HIGH_FFA_VERSION,
        v,
    )
    &&& own_reply == Some(supported)
}

/// The number that FF-A encodes version `v` as: the major version in the upper 16 bits and the
/// minor version in the lower 16 bits.
pub open spec fn spec_version_number(v: (u16, u16)) -> int {
    v.0 * 0x1_0000 + v.1
}

/// A payload goes on exactly when the answer to its request for 1.0xffff is a version whose
/// number lies from its own version's up to, but not including, that of 1.0xffff, and the answer
/// to its request for its own version is that version.
pub proof fn lemma_version_negotiation(
    supported: (u16, u16),
    high_reply: Option<(u16, u16)>,
    own_reply: Option<(u16, u16)>,
)
    ensures
        spec_version_negotiated(supported, high_reply, own_reply) <==> {
            &&& high_reply is Some
            &&& spec_version_number(supported) <= spec_version_number(high_reply->0)
            &&& spec_version_number(high_reply->0) < spec_version_number(HIGH_FFA_VERSION)
            &&& own_reply == Some(supported)
        },
{
}

/// Returns whether a payload that supports FF-A version `supported` may go on after the answers
/// `high_reply` and `own_reply` to its version requests.
pub fn version_negotiated(
    supported: (u16, u16),
    high_reply: Option<(u16, u16)>,
    own_reply: Option<(u16, u16)>,
) -> (negotiated: bool)
    ensures
        negotiated == spec_version_negotiated(supported, high_reply, own_reply),
{
    let high_ok = match high_reply {
        Some(v) => version_le(supported, v) && !version_le(HIGH_FFA_VERSION, v),
        None => false,
    };
    let own_ok = match own_reply {
        Some(v) => v.0 == supported.0 && v.1 == supported.1,
        None => false,
    };
    high_ok && own_ok
}

/// The answer to an `FFA_ID_GET` or `FFA_SPM_ID_GET` request.
#[derive(Clone, Copy, Debug, PartialEq, Eq, Structural)]
pub enum StfIdReply {
    /// The request succeeded with the partition ID `id`.
    Success { id: u16 },
    /// The request is not supported.
    NotSupported,
    /// Any other answer.
    Other,
}

/// The partition ID that the answer `reply` gives, with `default` where the request is not
/// supported; `None` for any other answer, on which the fake SPMC gives up.
pub open spec fn spec_partition_id(reply: StfIdReply, default: u16) -> Option<u16> {
    match reply {
        StfIdReply::Success { id } => Some(id),
        StfIdReply::NotSupported => Some(default),
        StfIdReply::Other => None,
    }
}

/// Returns the partition ID that the answer `reply` gives.
pub fn partition_id(reply: StfIdReply, default: u16) -> (id: Option<u16>)
    ensures
        id == spec_partition_id(reply, default),
{
    match reply {
        StfIdReply::Success { id } => Some(id),
        StfIdReply::NotSupported => Some(default),
        StfIdReply::Other => None,
    }
}

/// The set-up of the fake SPMC before it waits for requests: after it asked for FF-A version
/// 1.0xffff, answered `high_reply`, and for its own version 1.1, answered `own_reply`, and then
/// for its own and the SPMD's partition IDs, answered `id_reply` and `spm_id_reply`, returns the
/// SPMC's and the SPMD's partition IDs, the defaults `spmc_default` and `spmd_default` standing
/// in where a request is not supported. `None` where it gives up: the versions were not
/// negotiated or an ID request got any other answer.
pub fn stf_secure_setup(
    high_reply: Option<(u16, u16)>,
    own_reply: Option<(u16, u16)>,
    id_reply: StfIdReply,
    spm_id_reply: StfIdReply,
    spmc_default: u16,
    spmd_default: u16,
) -> (ids: Option<(u16, u16)>)
    ensures
        ids == if spec_version_negotiated(SPMC_FFA_VERSION, high_reply, own_reply) {
            match (spec_partition_id(id_reply, spmc_default), spec_partition_id(spm_id_reply, spmd_default)) {
                (Some(spmc_id), Some(spmd_id)) => Some((spmc_id, spmd_id)),
                _ => None,
            }
        } else {
            None
        },
{
    if !version_negotiated(SPMC_FFA_VERSION, high_reply, own_reply) {
        return None;
    }
    let spmc_id = match partition_id(id_reply, spmc_default) {
        Some(id) => id,
        None => return None,
    };
    let spmd_id = match partition_id(spm_id_reply, spmd_default) {
        Some(id) => id,
        None => return None,
    };
    Some((spmc_id, spmd_id))
}

/// A direct request that the fake SPMC receives.
#[derive(Clone, Copy, Debug, PartialEq, Eq, Structural)]
pub enum StfMessage {
    /// A direct request with 64-bit arguments, whose first argument is a test index.
    Args64 { src_id: u16, dst_id: u16, test_index: u64 },
    /// An FF-A version request of the framework, with the caller's version.
    VersionReq { src_id: u16, dst_id: u16, major: u16, minor: u16 },
}

/// A direct response of the fake SPMC.
#[derive(Clone, Copy, Debug, PartialEq, Eq, Structural)]
pub enum StfResponse {
    /// A response with 64-bit arguments, whose first argument is the test result.
    TestResult { src_id: u16, dst_id: u16, result: u64 },
    /// An FF-A version response of the framework.
    VersionResp { src_id: u16, dst_id: u16, major: u16, minor: u16 },
}

/// Whether FF-A version `major.minor` of a caller is compatible with version
/// `callee_major.callee_minor` of its callee: the same major version, and a minor version that
/// is not newer.
pub open spec fn spec_is_compatible_to(major: u16, minor: u16, callee_major: u16, callee_minor: u16) -> bool {
    major == callee_major && minor <= callee_minor
}

/// Returns whether FF-A version `major.minor` of a caller is compatible with version
/// `callee_major.callee_minor` of its callee.
pub fn is_compatible_to(major: u16, minor: u16, callee_major: u16, callee_minor: u16) -> (compatible:
    bool)
    ensures
        compatible == spec_is_compatible_to(major, minor, callee_major, callee_minor),
{
    major == callee_major && minor <= callee_minor
}

/// The answer of the fake SPMC, whose partition ID is `spmc_id` and whose SPMD has the partition
/// ID `spmd_id`, to the direct request `message`, where the test that the request names passed
/// or not (`test_ok`). `None` where the fake SPMC gives up: a request of the wrong kind or
/// between other partitions.
///
/// A test request from the normal world to the secure world is answered with the test's result;
/// a version request from the SPMD to the SPMC with the caller's version if it is compatible
/// with the supported one, and with the supported one otherwise. The response goes back from
/// the request's destination to its source.
pub open spec fn spec_stf_secure_response(message: StfMessage, spmc_id: u16, spmd_id: u16, test_ok: bool) -> Option<
    StfResponse,
> {
    match message {
        StfMessage::Args64 { src_id, dst_id, test_index } => if src_id == NORMAL_WORLD_ID && dst_id
            == SECURE_WORLD_ID {
            Some(
                StfResponse::TestResult {
                    src_id: dst_id,
                    dst_id: src_id,
                    result: if test_ok {
                        TEST_SUCCESS
                    } else {
                        TEST_FAILURE
                    },
                },
            )
        } else {
            None
        },
        StfMessage::VersionReq { src_id, dst_id, major, minor } => if src_id == NORMAL_WORLD_ID
            && dst_id == SECURE_WORLD_ID {
            None
        } else if src_id == spmd_id && dst_id == spmc_id {
            if spec_is_compatible_to(major, minor, SPMC_FFA_MAJOR, SPMC_FFA_MINOR) {
                Some(StfResponse::VersionResp { src_id: dst_id, dst_id: src_id, major, minor })
            } else {
                Some(
                    StfResponse::VersionResp {
                        src_id: dst_id,
                        dst_id: src_id,
                        major: SPMC_FFA_MAJOR,
                        minor: SPMC_FFA_MINOR,
                    },
                )
            }
        } else {
            None
        },
    }
}

/// The fake SPMC answers every request it answers back to its sender, from its destination; it
/// answers only test requests from the normal world to the secure world, reporting success
/// exactly when the test passed, and version requests from its SPMD to itself, with a version
/// that it supports: the caller's own when that is compatible with its version, and its own
/// otherwise.
pub proof fn lemma_secure_responses(message: StfMessage, spmc_id: u16, spmd_id: u16, test_ok: bool)
    ensures
        spec_stf_secure_response(message, spmc_id, spmd_id, test_ok) matches Some(response) ==> match (
        message,
        response,
    ) {
            (
                StfMessage::Args64 { src_id, dst_id, test_index },
                StfResponse::TestResult { src_id: from, dst_id: to, result },
            ) => {
                &&& src_id == NORMAL_WORLD_ID && dst_id == SECURE_WORLD_ID
                &&& from == dst_id && to == src_id
                &&& (result == TEST_SUCCESS <==> test_ok)
                &&& (result == TEST_FAILURE <==> !test_ok)
            },
            (
                StfMessage::VersionReq { src_id, dst_id, major, minor },
                StfResponse::VersionResp { src_id: from, dst_id: to, major: out_major, minor: out_minor },
            ) => {
                &&& src_id == spmd_id && dst_id == spmc_id
                &&& from == dst_id && to == src_id
                &&& out_major == SPMC_FFA_MAJOR && out_minor <= SPMC_FFA_MINOR
                &&& (major == SPMC_FFA_MAJOR && minor <= SPMC_FFA_MINOR ==> out_major == major
                    && out_minor == minor)
                &&& (!(major == SPMC_FFA_MAJOR && minor <= SPMC_FFA_MINOR) ==> out_major
                    == SPMC_FFA_MAJOR && out_minor == SPMC_FFA_MINOR)
            },
            _ => false,
        },
        message matches StfMessage::Args64 { src_id, dst_id, test_index } && src_id == NORMAL_WORLD_ID
            && dst_id == SECURE_WORLD_ID ==> spec_stf_secure_response(message, spmc_id, spmd_id, test_ok)
            is Some,
{
}

/// Returns the answer of the fake SPMC to the direct request `message`.
pub fn stf_secure_response(message: StfMessage, spmc_id: u16, spmd_id: u16, test_ok: bool) -> (response:
    Option<StfResponse>)
    ensures
        response == spec_stf_secure_response(message, spmc_id, spmd_id, test_ok),
{
    match message {
        StfMessage::Args64 { src_id, dst_id, test_index: _ } => {
            if src_id == NORMAL_WORLD_ID && dst_id == SECURE_WORLD_ID {
                let result = if test_ok {
                    TEST_SUCCESS
                } else {
                    TEST_FAILURE
                };
                Some(StfResponse::TestResult { src_id: dst_id, dst_id: src_id, result })
            } else {
                None
            }
        },
        StfMessage::VersionReq { src_id, dst_id, major, minor } => {
            if src_id == NORMAL_WORLD_ID && dst_id == SECURE_WORLD_ID {
                None
            } else if src_id == spmd_id && dst_id == spmc_id {
                if is_compatible_to(major, minor, SPMC_FFA_MAJOR, SPMC_FFA_MINOR) {
                    Some(StfResponse::VersionResp { src_id: dst_id, dst_id: src_id, major, minor })
                } else {
                    Some(
                        StfResponse::VersionResp {
                            src_id: dst_id,
                            dst_id: src_id,
                            major: SPMC_FFA_MAJOR,
                            minor: SPMC_FFA_MINOR,
                        },
                    )
                }
            } else {
                None
            }
        },
    }
}

/// The response of the fake SPMC once it has panicked: a test panic, from the secure world to
/// the normal world.
pub fn stf_panic_response() -> (response: StfResponse)
    ensures
        response == (StfResponse::TestResult {
            src_id: SECURE_WORLD_ID,
            dst_id: NORMAL_WORLD_ID,
            result: TEST_PANIC,
        }),
{
    StfResponse::TestResult { src_id: SECURE_WORLD_ID, dst_id: NORMAL_WORLD_ID, result: TEST_PANIC }
}

/// What the normal-world driver has asked last, and the tests passed so far in each world.
#[derive(Clone, Copy, Debug, PartialEq, Eq, Structural)]
pub enum StfRunState {
    /// The secure world was asked to start the secure handler of normal world test `index`.
    StartingTest { index: usize, normal_passed: usize },
    /// Normal world test `index` was run.
    RunningTest { index: usize, normal_passed: usize },
    /// The secure world was asked to stop the secure handler of normal world test `index`.
    StoppingTest { index: usize, normal_passed: usize },
    /// The secure world was asked to run secure world test `index`.
    RunningSecureTest { index: usize, normal_passed: usize, secure_passed: usize },
    /// The system was asked to switch off.
    Off { normal_passed: usize, secure_passed: usize },
    /// The driver gave up after a panic of the secure world.
    Panicked,
}

/// The answer to what the normal-world driver asked last.
#[derive(Clone, Copy, Debug, PartialEq, Eq, Structural)]
pub enum StfReply {
    /// The request or the test succeeded.
    Success,
    /// The request or the test failed.
    Failure,
    /// The secure world panicked.
    Panic,
    /// The secure world's answer could not be understood.
    Unparsed,
}

/// What the normal-world driver does next.
#[derive(Clone, Copy, Debug, PartialEq, Eq, Structural)]
pub enum StfAction {
    /// Ask the secure world to start the secure handler of normal world test `index`.
    StartTest { index: usize },
    /// Run normal world test `index`.
    RunNormalTest { index: usize },
    /// Ask the secure world to stop the secure handler of normal world test `index`.
    StopTest { index: usize },
    /// Ask the secure world to run secure world test `index`.
    RunSecureTest { index: usize },
    /// Switch the system off with `PSCI_SYSTEM_OFF`.
    SystemOff,
    /// Panic: the secure world panicked while handling a normal world test, which cannot go on.
    Panic,
}

/// Whether `state` is one the driver can be in for `normal_count` normal world tests and
/// `secure_count` secure world tests.
pub open spec fn stf_state_valid(state: StfRunState, normal_count: int, secure_count: int) -> bool {
    match state {
        StfRunState::StartingTest { index, normal_passed } => index < normal_count && normal_passed <= index,
        StfRunState::RunningTest { index, normal_passed } => index < normal_count && normal_passed <= index,
        StfRunState::StoppingTest { index, normal_passed } => index < normal_count && normal_passed <= index + 1,
        StfRunState::RunningSecureTest { index, normal_passed, secure_passed } => index < secure_count
            && normal_passed <= normal_count && secure_passed <= index,
        StfRunState::Off { normal_passed, secure_passed } => normal_passed <= normal_count && secure_passed
            <= secure_count,
        StfRunState::Panicked => true,
    }
}

/// The first step at secure world test `index`, with the counts of tests passed: run it, or
/// switch the system off after the last one.
pub open spec fn spec_secure_step(index: int, secure_count: int, normal_passed: usize, secure_passed: usize) -> (
    StfRunState,
    StfAction,
) {
    if index < secure_count {
        (
            StfRunState::RunningSecureTest { index: index as usize, normal_passed, secure_passed },
            StfAction::RunSecureTest { index: index as usize },
        )
    } else {
        (StfRunState::Off { normal_passed, secure_passed }, StfAction::SystemOff)
    }
}

/// The first step at normal world test `index`, with `normal_passed` tests passed: start its
/// secure handler if it has one, or run it; after the last one, go on with the secure world
/// tests.
pub open spec fn spec_normal_step(index: int, handlers: Seq<bool>, secure_count: int, normal_passed: usize) -> (
    StfRunState,
    StfAction,
) {
    if index < handlers.len() {
        if handlers[index] {
            (
                StfRunState::StartingTest { index: index as usize, normal_passed },
                StfAction::StartTest { index: index as usize },
            )
        } else {
            (
                StfRunState::RunningTest { index: index as usize, normal_passed },
                StfAction::RunNormalTest { index: index as usize },
            )
        }
    } else {
        spec_secure_step(0, secure_count, normal_passed, 0)
    }
}

/// The next step of the driver from `state` once `reply` answers what it asked, for the normal
/// world tests whose secure handlers `handlers` flags and `secure_count` secure world tests.
///
/// A failed or unintelligible start or stop of a secure handler skips to the next test; a panic
/// of the secure world then is a panic of the driver. A passed normal world test counts. A
/// passed secure world test counts; after a secure world panic no further test runs, and the
/// system is switched off, as it is after the last test.
pub open spec fn spec_stf_next(state: StfRunState, reply: StfReply, handlers: Seq<bool>, secure_count: int) -> (
    StfRunState,
    StfAction,
) {
    match state {
        StfRunState::StartingTest { index, normal_passed } => match reply {
            StfReply::Success => (
                StfRunState::RunningTest { index, normal_passed },
                StfAction::RunNormalTest { index },
            ),
            StfReply::Panic => (StfRunState::Panicked, StfAction::Panic),
            _ => spec_normal_step(index + 1, handlers, secure_count, normal_passed),
        },
        StfRunState::RunningTest { index, normal_passed } => {
            let passed = if reply == StfReply::Success {
                (normal_passed + 1) as usize
            } else {
                normal_passed
            };
            if handlers[index as int] {
                (StfRunState::StoppingTest { index, normal_passed: passed }, StfAction::StopTest { index })
            } else {
                spec_normal_step(index + 1, handlers, secure_count, passed)
            }
        },
        StfRunState::StoppingTest { index, normal_passed } => match reply {
            StfReply::Panic => (StfRunState::Panicked, StfAction::Panic),
            _ => spec_normal_step(index + 1, handlers, secure_count, normal_passed),
        },
        StfRunState::RunningSecureTest { index, normal_passed, secure_passed } => match reply {
            StfReply::Success => spec_secure_step(
                index + 1,
                secure_count,
                normal_passed,
                (secure_passed + 1) as usize,
            ),
            StfReply::Panic => (StfRunState::Off { normal_passed, secure_passed }, StfAction::SystemOff),
            _ => spec_secure_step(index + 1, secure_count, normal_passed, secure_passed),
        },
        StfRunState::Off { normal_passed, secure_passed } => (state, StfAction::SystemOff),
        StfRunState::Panicked => (state, StfAction::Panic),
    }
}

/// The first step of the driver at secure world test `index`.
fn secure_step(index: usize, secure_count: usize, normal_passed: usize, secure_passed: usize) -> (step: (
    StfRunState,
    StfAction,
))
    ensures
        step == spec_secure_step(index as int, secure_count as int, normal_passed, secure_passed),
{
    if index < secure_count {
        (
            StfRunState::RunningSecureTest { index, normal_passed, secure_passed },
            StfAction::RunSecureTest { index },
        )
    } else {
        (StfRunState::Off { normal_passed, secure_passed }, StfAction::SystemOff)
    }
}

/// The first step of the driver at normal world test `index`.
fn normal_step(index: usize, handlers: &[bool], secure_count: usize, normal_passed: usize) -> (step: (
    StfRunState,
    StfAction,
))
    ensures
        step == spec_normal_step(index as int, handlers@, secure_count as int, normal_passed),
{
    if index < handlers.len() {
        if handlers[index] {
            (StfRunState::StartingTest { index, normal_passed }, StfAction::StartTest { index })
        } else {
            (StfRunState::RunningTest { index, normal_passed }, StfAction::RunNormalTest { index })
        }
    } else {
        secure_step(0, secure_count, normal_passed, 0)
    }
}

/// The first step of the driver, once it has asked for FF-A version 1.0xffff, answered
/// `high_reply`, and then for its own version 1.0, answered `own_reply` (`None` for an error):
/// unless the versions were negotiated, a panic before any test; otherwise the first normal world
/// test, or the secure world tests if there is none.
pub fn stf_start(
    high_reply: Option<(u16, u16)>,
    own_reply: Option<(u16, u16)>,
    handlers: &[bool],
    secure_count: usize,
) -> (step: (StfRunState, StfAction))
    ensures
        step == if spec_version_negotiated(NORMAL_WORLD_FFA_VERSION, high_reply, own_reply) {
            spec_normal_step(0, handlers@, secure_count as int, 0)
        } else {
            (StfRunState::Panicked, StfAction::Panic)
        },
        stf_state_valid(step.0, handlers@.len() as int, secure_count as int),
{
    if !version_negotiated(NORMAL_WORLD_FFA_VERSION, high_reply, own_reply) {
        return (StfRunState::Panicked, StfAction::Panic);
    }
    normal_step(0, handlers, secure_count, 0)
}

/// The next step of the driver from `state` once `reply` answers what it asked.
pub fn stf_next(state: StfRunState, reply: StfReply, handlers: &[bool], secure_count: usize) -> (next: (
    StfRunState,
    StfAction,
))
    requires
        stf_state_valid(state, handlers@.len() as int, secure_count as int),
    ensures
        next == spec_stf_next(state, reply, handlers@, secure_count as int),
        stf_state_valid(next.0, handlers@.len() as int, secure_count as int),
{
    let _count = handlers.len();
    match state {
        StfRunState::StartingTest { index, normal_passed } => match reply {
            StfReply::Success => (
                StfRunState::RunningTest { index, normal_passed },
                StfAction::RunNormalTest { index },
            ),
            StfReply::Panic => (StfRunState::Panicked, StfAction::Panic),
            _ => normal_step(index + 1, handlers, secure_count, normal_passed),
        },
        StfRunState::RunningTest { index, normal_passed } => {
            let passed = if reply == StfReply::Success {
                normal_passed + 1
            } else {
                normal_passed
            };
            if handlers[index] {
                (StfRunState::StoppingTest { index, normal_passed: passed }, StfAction::StopTest { index })
            } else {
                normal_step(index + 1, handlers, secure_count, passed)
            }
        },
        StfRunState::StoppingTest { index, normal_passed } => match reply {
            StfReply::Panic => (StfRunState::Panicked, StfAction::Panic),
            _ => normal_step(index + 1, handlers, secure_count, normal_passed),
        },
        StfRunState::RunningSecureTest { index, normal_passed, secure_passed } => match reply {
            StfReply::Success => secure_step(index + 1, secure_count, normal_passed, secure_passed + 1),
            StfReply::Panic => (StfRunState::Off { normal_passed, secure_passed }, StfAction::SystemOff),
            _ => secure_step(index + 1, secure_count, normal_passed, secure_passed),
        },
        StfRunState::Off { .. } => (state, StfAction::SystemOff),
        StfRunState::Panicked => (state, StfAction::Panic),
    }
}

/// The driver runs the secure world tests one after the other in increasing order: after
/// secure world test `j` the next one it runs is `j + 1`, and only if `j` did not panic; it
/// switches the system off after the last one or after a panic; and a passed test counts once.
pub proof fn lemma_secure_tests_in_order(
    state: StfRunState,
    reply: StfReply,
    handlers: Seq<bool>,
    secure_count: int,
)
    requires
        state is RunningSecureTest,
        stf_state_valid(state, handlers.len() as int, secure_count),
        secure_count <= usize::MAX,
    ensures
        ({
            let (next, action) = spec_stf_next(state, reply, handlers, secure_count);
            let j = state->RunningSecureTest_index;
            &&& action matches StfAction::RunSecureTest { index } ==> index == j + 1 && reply
                != StfReply::Panic
            &&& action == StfAction::SystemOff <==> (reply == StfReply::Panic || j + 1
                == secure_count)
            &&& action is RunSecureTest || action == StfAction::SystemOff
            &&& next matches StfRunState::RunningSecureTest { secure_passed, .. }
                ==> secure_passed == state->RunningSecureTest_secure_passed + if reply
                == StfReply::Success {
                1int
            } else {
                0int
            }
        }),
{
}

/// Once the secure world panics while running a secure world test, the driver runs no further
/// test: it switches the system off, and stays switched off whatever comes after.
pub proof fn lemma_secure_panic_switches_off(
    state: StfRunState,
    handlers: Seq<bool>,
    secure_count: int,
    reply: StfReply,
)
    requires
        state is RunningSecureTest,
    ensures
        spec_stf_next(state, StfReply::Panic, handlers, secure_count).1 == StfAction::SystemOff,
        spec_stf_next(spec_stf_next(state, StfReply::Panic, handlers, secure_count).0, reply, handlers, secure_count).1
            == StfAction::SystemOff,
{
}

} // verus!
