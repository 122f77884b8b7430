//! The log level that the build configuration selects.

use vstd::prelude::*;

use crate::text::bytes_equal;
use vstd::string::StringSliceAdditionalSpecFns;

verus! {

/// A maximum level of the messages to log.
#[derive(Copy, Clone, Debug, Eq, PartialEq, Structural)]
pub enum LevelFilter {
    Off,
    Error,
    Warn,
    Info,
    Debug,
    Trace,
}

/// The level that the value `level` of the build-time variable `LOG_LEVEL` selects: one of the
/// lower-case names "off", "error", "warn", "info", "debug" and "trace"; otherwise `Trace` for a
/// debug build and `Info` for a release build.
pub open spec fn spec_build_time_log_level(level: Option<Seq<u8>>, debug: bool) -> LevelFilter {
    let bytes = match level {
        Some(l) => l,
        None => Seq::empty(),
    };
    if bytes == seq![0x6fu8, 0x66, 0x66] {
        LevelFilter::Off
    } else if bytes == seq![0x65u8, 0x72, 0x72, 0x6f, 0x72] {
        LevelFilter::Error
    } else if bytes == seq![0x77u8, 0x61, 0x72, 0x6e] {
        LevelFilter::Warn
    } else if bytes == seq![0x69u8, 0x6e, 0x66, 0x6f] {
        LevelFilter::Info
    } else if bytes == seq![0x64u8, 0x65, 0x62, 0x75, 0x67] {
        LevelFilter::Debug
    } else if bytes == seq![0x74u8, 0x72, 0x61, 0x63, 0x65] {
        LevelFilter::Trace
    } else if debug {
        LevelFilter::Trace
    } else {
        LevelFilter::Info
    }
}

/// Returns the logging level selected by the build-time environment variable `LOG_LEVEL`, whose
/// value (if it was set) is `level`, for a debug build when `debug` holds.
pub fn build_time_log_level(level: Option<&str>, debug: bool) -> (filter: LevelFilter)
    ensures
        filter == spec_build_time_log_level(
            match level {
                Some(l) => Some(l.spec_bytes()),
                None => None,
            },
            debug,
        ),
{
    let empty: [u8; 0] = [];
    let bytes: &[u8] = match level {
        Some(level) => level.as_bytes(),
        None => empty.as_slice(),
    };
    let off: [u8; 3] = [0x6f, 0x66, 0x66];
    let error: [u8; 5] = [0x65, 0x72, 0x72, 0x6f, 0x72];
    let warn: [u8; 4] = [0x77, 0x61, 0x72, 0x6e];
    let info: [u8; 4] = [0x69, 0x6e, 0x66, 0x6f];
    let debug_name: [u8; 5] = [0x64, 0x65, 0x62, 0x75, 0x67];
    let trace: [u8; 5] = [0x74, 0x72, 0x61, 0x63, 0x65];
    assert(off@ =~= seq![0x6fu8, 0x66, 0x66]);
    assert(error@ =~= seq![0x65u8, 0x72, 0x72, 0x6f, 0x72]);
    assert(warn@ =~= seq![0x77u8, 0x61, 0x72, 0x6e]);
    assert(info@ =~= seq![0x69u8, 0x6e, 0x66, 0x6f]);
    assert(debug_name@ =~= seq![0x64u8, 0x65, 0x62, 0x75, 0x67]);
    assert(trace@ =~= seq![0x74u8, 0x72, 0x61, 0x63, 0x65]);
    assert(empty@ =~= Seq::<u8>::empty());
    if bytes_equal(bytes, off.as_slice()) {
        LevelFilter::Off
    } else if bytes_equal(bytes, error.as_slice()) {
        LevelFilter::Error
    } else if bytes_equal(bytes, warn.as_slice()) {
        LevelFilter::Warn
    } else if bytes_equal(bytes, info.as_slice()) {
        LevelFilter::Info
    } else if bytes_equal(bytes, debug_name.as_slice()) {
        LevelFilter::Debug
    } else if bytes_equal(bytes, trace.as_slice()) {
        LevelFilter::Trace
    } else if debug {
        LevelFilter::Trace
    } else {
        LevelFilter::Info
    }
}

} // verus!
