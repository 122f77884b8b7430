use rf_a::stf::{
    stf_next, stf_panic_response, stf_secure_response, stf_secure_setup, stf_start, StfAction,
    StfIdReply, StfMessage, StfReply, StfResponse, StfRunState, NORMAL_WORLD_ID, SECURE_WORLD_ID, TEST_FAILURE, TEST_PANIC,
    TEST_SUCCESS,
};

const SPMC_ID: u16 = 0x8000;
const SPMD_ID: u16 = 0xffff;

#[test]
fn spmc_answers_test_requests_with_results() {
    let request = StfMessage::Args64 { src_id: NORMAL_WORLD_ID, dst_id: SECURE_WORLD_ID, test_index: 3 };
    assert_eq!(
        stf_secure_response(request, SPMC_ID, SPMD_ID, true),
        Some(StfResponse::TestResult { src_id: SECURE_WORLD_ID, dst_id: NORMAL_WORLD_ID, result: TEST_SUCCESS })
    );
    assert_eq!(
        stf_secure_response(request, SPMC_ID, SPMD_ID, false),
        Some(StfResponse::TestResult { src_id: SECURE_WORLD_ID, dst_id: NORMAL_WORLD_ID, result: TEST_FAILURE })
    );
    let stray = StfMessage::Args64 { src_id: 5, dst_id: SECURE_WORLD_ID, test_index: 3 };
    assert_eq!(stf_secure_response(stray, SPMC_ID, SPMD_ID, true), None);
}

#[test]
fn spmc_negotiates_version() {
    let older = StfMessage::VersionReq { src_id: SPMD_ID, dst_id: SPMC_ID, major: 1, minor: 0 };
    assert_eq!(
        stf_secure_response(older, SPMC_ID, SPMD_ID, true),
        Some(StfResponse::VersionResp { src_id: SPMC_ID, dst_id: SPMD_ID, major: 1, minor: 0 })
    );
    let newer = StfMessage::VersionReq { src_id: SPMD_ID, dst_id: SPMC_ID, major: 1, minor: 2 };
    assert_eq!(
        stf_secure_response(newer, SPMC_ID, SPMD_ID, true),
        Some(StfResponse::VersionResp { src_id: SPMC_ID, dst_id: SPMD_ID, major: 1, minor: 1 })
    );
    let from_normal_world = StfMessage::VersionReq { src_id: NORMAL_WORLD_ID, dst_id: SECURE_WORLD_ID, major: 1, minor: 1 };
    assert_eq!(stf_secure_response(from_normal_world, SPMC_ID, SPMD_ID, true), None);
    assert_eq!(
        stf_panic_response(),
        StfResponse::TestResult { src_id: SECURE_WORLD_ID, dst_id: NORMAL_WORLD_ID, result: TEST_PANIC }
    );
}

#[test]
fn driver_runs_tests_in_order_and_switches_off() {
    // Normal world test 1 has a secure handler; there are two secure world tests.
    let handlers = [false, true];
    let (state, action) = stf_start(Some((1, 1)), Some((1, 0)), &handlers, 2);
    assert_eq!(action, StfAction::RunNormalTest { index: 0 });
    let (state, action) = stf_next(state, StfReply::Success, &handlers, 2);
    assert_eq!(action, StfAction::StartTest { index: 1 });
    let (state, action) = stf_next(state, StfReply::Success, &handlers, 2);
    assert_eq!(action, StfAction::RunNormalTest { index: 1 });
    let (state, action) = stf_next(state, StfReply::Failure, &handlers, 2);
    assert_eq!(action, StfAction::StopTest { index: 1 });
    let (state, action) = stf_next(state, StfReply::Success, &handlers, 2);
    assert_eq!(action, StfAction::RunSecureTest { index: 0 });
    let (state, action) = stf_next(state, StfReply::Success, &handlers, 2);
    assert_eq!(action, StfAction::RunSecureTest { index: 1 });
    let (state, action) = stf_next(state, StfReply::Failure, &handlers, 2);
    assert_eq!(action, StfAction::SystemOff);
    assert_eq!(state, StfRunState::Off { normal_passed: 1, secure_passed: 1 });
}

#[test]
fn driver_stops_after_secure_panic() {
    let handlers = [true];
    let (state, action) = stf_start(Some((1, 1)), Some((1, 0)), &handlers, 3);
    assert_eq!(action, StfAction::StartTest { index: 0 });
    // A failed start skips the test.
    let (state, action) = stf_next(state, StfReply::Failure, &handlers, 3);
    assert_eq!(action, StfAction::RunSecureTest { index: 0 });
    let (state, action) = stf_next(state, StfReply::Panic, &handlers, 3);
    assert_eq!(action, StfAction::SystemOff);
    assert_eq!(state, StfRunState::Off { normal_passed: 0, secure_passed: 0 });
    // A panic while starting a handler is a panic of the driver.
    let (state, _) = stf_start(Some((1, 1)), Some((1, 0)), &handlers, 3);
    let (state, action) = stf_next(state, StfReply::Panic, &handlers, 3);
    assert_eq!(action, StfAction::Panic);
    assert_eq!(state, StfRunState::Panicked);
}

#[test]
fn driver_panics_before_any_test_unless_versions_negotiated() {
    let handlers = [false];
    // The highest version request must be answered with a version from 1.0 below 1.0xffff.
    assert_eq!(stf_start(None, Some((1, 0)), &handlers, 1), (StfRunState::Panicked, StfAction::Panic));
    assert_eq!(stf_start(Some((1, 0xffff)), Some((1, 0)), &handlers, 1).1, StfAction::Panic);
    assert_eq!(stf_start(Some((0, 9)), Some((1, 0)), &handlers, 1).1, StfAction::Panic);
    // The request for 1.0 must be answered with 1.0.
    assert_eq!(stf_start(Some((1, 2)), Some((1, 1)), &handlers, 1).1, StfAction::Panic);
    assert_eq!(stf_start(Some((1, 2)), Some((1, 0)), &handlers, 1).1, StfAction::RunNormalTest { index: 0 });
}

#[test]
fn spmc_setup_negotiates_version_and_ids() {
    let ok = stf_secure_setup(
        Some((1, 2)),
        Some((1, 1)),
        StfIdReply::Success { id: 0x8001 },
        StfIdReply::NotSupported,
        0x8000,
        0xffff,
    );
    assert_eq!(ok, Some((0x8001, 0xffff)));
    // An EL3 that supports only 1.0 is refused.
    assert_eq!(
        stf_secure_setup(Some((1, 0)), Some((1, 1)), StfIdReply::NotSupported, StfIdReply::NotSupported, 0x8000, 0xffff),
        None
    );
    // Any other answer to an ID request is refused.
    assert_eq!(
        stf_secure_setup(Some((1, 1)), Some((1, 1)), StfIdReply::Other, StfIdReply::NotSupported, 0x8000, 0xffff),
        None
    );
}
