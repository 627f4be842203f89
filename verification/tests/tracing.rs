#![allow(non_snake_case)]

use chillffi::ffi::session::{resolveReadErrno, resolveTrace};
use chillffi::tracePolicy::{
    envTrace, globalTrace, parseTraceEnv, setGlobalTrace, TraceEnvVar, TracePolicy,
};

#[test]
fn envParsingRecognizesTruthy() {
    for value in ["1", "true", "TRUE", "True", "yes", "Yes", "on", "ON"] {
        assert!(parseTraceEnv(Some(value)), "expected `{value}` to be parsed as truthy");
        assert!(envTrace(Some(value)));
    }
}

#[test]
fn envParsingRecognizesFalsy() {
    for value in ["0", "false", "no", "off", "", "garbage", "2", "yep"] {
        assert!(!parseTraceEnv(Some(value)), "expected `{value}` to be parsed as falsy");
    }
    assert!(!parseTraceEnv(None), "absent env var should mean off");
}

#[test]
fn envParsingFoldsOnlyAscii() {
    assert!(!parseTraceEnv(Some("ＯＮ")));
    assert!(!parseTraceEnv(Some(" 1")));
    assert!(!parseTraceEnv(Some("1\n")));
    assert_eq!(TraceEnvVar, "ChillffiTrace");
}

#[test]
fn globalRoundtrip() {
    let mut policy = TracePolicy::new();
    setGlobalTrace(&mut policy, None, true);
    assert!(globalTrace(&mut policy, None));
    setGlobalTrace(&mut policy, None, false);
    assert!(!globalTrace(&mut policy, None));
}

#[test]
fn theEnvironmentSeedsOnce() {
    let mut policy = TracePolicy::new();
    assert!(globalTrace(&mut policy, Some("yes")));
    assert!(globalTrace(&mut policy, Some("no")), "the environment is read once");

    let mut policy = TracePolicy::new();
    setGlobalTrace(&mut policy, Some("1"), false);
    assert!(!globalTrace(&mut policy, Some("1")), "off means off");
}

#[test]
fn theMostSpecificSettingWins() {
    for global in [false, true] {
        for scope in [None, Some(false), Some(true)] {
            for call in [None, Some(false), Some(true)] {
                let expected = call.unwrap_or(scope.unwrap_or(global));
                assert_eq!(resolveReadErrno(call, scope, global), expected);
                let mut policy = TracePolicy { globalTrace: global, envSeeded: true };
                assert_eq!(resolveTrace(call, scope, &mut policy, Some("1")), expected);
            }
        }
    }
}
