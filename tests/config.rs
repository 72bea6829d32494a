use labwired::config::{
    check_assertions, check_max_steps, exit_code, run_status, ConfigError, RunStatus, StopReason,
    StopReasonAssertion, TestAssertion, TestInputs, TestLimits, TestScript, UartContainsAssertion,
    UartRegexAssertion,
};
use labwired::regex::simple_regex_is_match;

fn script(version: &str, firmware: &str, system: Option<&str>, max_steps: u64, wall: Option<u64>, assertions: Vec<TestAssertion>) -> TestScript {
    TestScript {
        schema_version: version.to_string(),
        inputs: TestInputs { firmware: firmware.to_string(), system: system.map(|s| s.to_string()) },
        limits: TestLimits { max_steps, wall_time_ms: wall },
        assertions,
    }
}

#[test]
fn test_valid_script() {
    let script = script(
        "1.0",
        "path/to/fw.elf",
        Some("path/to/sys.yaml"),
        1000,
        Some(5000),
        vec![
            TestAssertion::UartContains(UartContainsAssertion { uart_contains: "Hello".to_string() }),
            TestAssertion::ExpectedStopReason(StopReasonAssertion { expected_stop_reason: StopReason::Halt }),
        ],
    );
    assert!(script.validate().is_ok());
    assert_eq!(script.inputs.firmware, "path/to/fw.elf");
    assert_eq!(script.limits.max_steps, 1000);
    assert_eq!(script.assertions.len(), 2);
}

#[test]
fn test_invalid_version() {
    let script = script("2.0", "fw.elf", None, 100, None, vec![]);
    let err = script.validate().unwrap_err();
    assert!(err.message().contains("Unsupported schema_version"));
}

#[test]
fn test_invalid_max_steps() {
    let script = script("1.0", "fw.elf", None, 0, None, vec![]);
    let err = script.validate().unwrap_err();
    assert!(err.message().contains("max_steps"));
}

#[test]
fn test_empty_firmware() {
    let script = script("1.0", "", None, 100, None, vec![]);
    let err = script.validate().unwrap_err();
    assert!(err.message().contains("firmware"));
}

#[test]
fn blank_firmware_and_step_guard() {
    let s = script("1.0", " \t\n", None, 100, None, vec![]);
    assert!(matches!(s.validate(), Err(ConfigError::EmptyFirmware)));
    let s = script("1.0", "fw.elf", None, 60_000_000, None, vec![]);
    assert!(matches!(s.validate(), Err(ConfigError::MaxStepsTooLarge(60_000_000))));
    assert!(check_max_steps(50_000_000).is_ok());
    assert!(matches!(check_max_steps(50_000_001), Err(ConfigError::MaxStepsTooLarge(50_000_001))));
    match script("2.0", "fw.elf", None, 1, None, vec![]).validate() {
        Err(ConfigError::UnsupportedSchemaVersion(v)) => assert_eq!(v, "2.0"),
        _ => panic!("expected a schema error"),
    }
}

#[test]
fn minimal_regex() {
    assert!(simple_regex_is_match("OK", "xxOKxx"));
    assert!(simple_regex_is_match("^OK", "OK\n"));
    assert!(!simple_regex_is_match("^OK", "xOK"));
    assert!(simple_regex_is_match("OK$", "all OK"));
    assert!(!simple_regex_is_match("OK$", "OK\n"));
    assert!(simple_regex_is_match("a.c", "abc"));
    assert!(simple_regex_is_match("^ab*c$", "ac"));
    assert!(simple_regex_is_match("^ab*c$", "abbbc"));
    assert!(!simple_regex_is_match("^ab*c$", "abbbd"));
    assert!(simple_regex_is_match("", ""));
    assert!(simple_regex_is_match("^.*$", "anything"));
}

#[test]
fn assertion_verdicts_and_status() {
    let assertions = vec![
        TestAssertion::UartContains(UartContainsAssertion { uart_contains: "OK".to_string() }),
        TestAssertion::UartRegex(UartRegexAssertion { uart_regex: "^O.\n$".to_string() }),
        TestAssertion::ExpectedStopReason(StopReasonAssertion { expected_stop_reason: StopReason::MaxSteps }),
    ];
    let passed = check_assertions(&assertions, "OK\n", StopReason::MaxSteps);
    assert_eq!(passed, vec![true, true, true]);
    assert_eq!(run_status(&assertions, &passed, StopReason::MaxSteps, false), RunStatus::Pass);
    assert_eq!(exit_code(RunStatus::Pass), 0);

    let passed = check_assertions(&assertions, "NO\n", StopReason::MaxSteps);
    assert_eq!(passed, vec![false, false, true]);
    assert_eq!(run_status(&assertions, &passed, StopReason::MaxSteps, false), RunStatus::Fail);
    assert_eq!(exit_code(RunStatus::Fail), 1);

    let none: Vec<TestAssertion> = vec![];
    assert_eq!(run_status(&none, &vec![], StopReason::WallTime, false), RunStatus::Fail);
    assert_eq!(run_status(&none, &vec![], StopReason::MemoryViolation, true), RunStatus::Error);
    assert_eq!(exit_code(RunStatus::Error), 3);
    let expect_violation = vec![TestAssertion::ExpectedStopReason(StopReasonAssertion {
        expected_stop_reason: StopReason::MemoryViolation,
    })];
    let passed = check_assertions(&expect_violation, "", StopReason::MemoryViolation);
    assert_eq!(run_status(&expect_violation, &passed, StopReason::MemoryViolation, true), RunStatus::Pass);
}
