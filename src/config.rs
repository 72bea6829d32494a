use vstd::prelude::*;
use vstd::string::StringExecFns;
use crate::regex::{regex_match, simple_regex_is_match};
use crate::text::{blank, contains_seq, contains_text, is_blank};
use crate::SimulationError;

verus! {

/// The largest step budget a test script may ask for.
pub const MAX_ALLOWED_STEPS: u64 = 50_000_000;

/// A memory region of a chip description: a base address and a size such as "128KB".
#[derive(Debug, Clone)]
pub struct MemoryRange {
    pub base: u64,
    pub size: String,
}

#[derive(Debug, Clone)]
pub struct TestInputs {
    pub firmware: String,
    pub system: Option<String>,
}

#[derive(Debug, Clone)]
pub struct TestLimits {
    pub max_steps: u64,
    pub wall_time_ms: Option<u64>,
}

/// Why a scripted run ended.
#[derive(Debug, Clone, Copy, PartialEq, Eq, Structural)]
pub enum StopReason {
    MaxSteps,
    WallTime,
    MemoryViolation,
    DecodeError,
    Halt,
}

#[derive(Debug, Clone)]
pub struct UartContainsAssertion {
    pub uart_contains: String,
}

#[derive(Debug, Clone)]
pub struct UartRegexAssertion {
    pub uart_regex: String,
}

#[derive(Debug, Clone, Copy)]
pub struct StopReasonAssertion {
    pub expected_stop_reason: StopReason,
}

#[derive(Debug, Clone)]
pub enum TestAssertion {
    UartContains(UartContainsAssertion),
    UartRegex(UartRegexAssertion),
    ExpectedStopReason(StopReasonAssertion),
}

/// A CI test script: the inputs, the limits of the run and what must hold after it.
#[derive(Debug, Clone)]
pub struct TestScript {
    pub schema_version: String,
    pub inputs: TestInputs,
    pub limits: TestLimits,
    pub assertions: Vec<TestAssertion>,
}

/// Why a test script or its limits were refused.
#[derive(Debug, Clone)]
pub enum ConfigError {
    UnsupportedSchemaVersion(String),
    EmptyFirmware,
    ZeroMaxSteps,
    MaxStepsTooLarge(u64),
}

impl ConfigError {
    /// A sentence for the user.
    pub fn message(&self) -> String {
        match self {
            ConfigError::UnsupportedSchemaVersion(v) => {
                let mut m = String::from_str("Unsupported schema_version '");
                m.append(v.as_str());
                m.append("'. Supported versions: '1.0'");
                m
            },
            ConfigError::EmptyFirmware => String::from_str("Input 'firmware' path cannot be empty"),
            ConfigError::ZeroMaxSteps => String::from_str("Limit 'max_steps' must be greater than zero"),
            ConfigError::MaxStepsTooLarge(_) => String::from_str(
                "Limit 'max_steps' exceeds the allowed maximum of 50000000",
            ),
        }
    }
}

/// Accepts a step budget of at least one and at most `MAX_ALLOWED_STEPS`.
pub fn check_max_steps(max_steps: u64) -> (r: Result<(), ConfigError>)
    ensures
        max_steps == 0 ==> r matches Err(ConfigError::ZeroMaxSteps),
        max_steps > MAX_ALLOWED_STEPS ==> (r matches Err(ConfigError::MaxStepsTooLarge(n)) && n == max_steps),
        1 <= max_steps <= MAX_ALLOWED_STEPS ==> r is Ok,
{
    if max_steps == 0 {
        Err(ConfigError::ZeroMaxSteps)
    } else if max_steps > MAX_ALLOWED_STEPS {
        Err(ConfigError::MaxStepsTooLarge(max_steps))
    } else {
        Ok(())
    }
}

impl TestScript {
    /// Checks, in order: the schema version is "1.0", the firmware path is not blank,
    /// and the step budget is between 1 and `MAX_ALLOWED_STEPS`.
    pub fn validate(&self) -> (r: Result<(), ConfigError>)
        ensures
            self.schema_version@ != "1.0"@ ==> (r matches Err(ConfigError::UnsupportedSchemaVersion(v)) && v@
                == self.schema_version@),
            self.schema_version@ == "1.0"@ && blank(self.inputs.firmware@) ==> r matches Err(
                ConfigError::EmptyFirmware,
            ),
            self.schema_version@ == "1.0"@ && !blank(self.inputs.firmware@) && self.limits.max_steps == 0
                ==> r matches Err(ConfigError::ZeroMaxSteps),
            self.schema_version@ == "1.0"@ && !blank(self.inputs.firmware@) && self.limits.max_steps
                > MAX_ALLOWED_STEPS ==> (r matches Err(ConfigError::MaxStepsTooLarge(n)) && n
                == self.limits.max_steps),
            r is Ok <==> (self.schema_version@ == "1.0"@ && !blank(self.inputs.firmware@) && 1
                <= self.limits.max_steps <= MAX_ALLOWED_STEPS),
    {
        let supported = String::from_str("1.0");
        if self.schema_version != supported {
            return Err(ConfigError::UnsupportedSchemaVersion(self.schema_version.clone()));
        }
        if is_blank(self.inputs.firmware.as_str()) {
            return Err(ConfigError::EmptyFirmware);
        }
        check_max_steps(self.limits.max_steps)
    }
}

/// Whether an assertion holds of the captured UART text and the way the run stopped.
pub open spec fn assertion_holds(a: TestAssertion, text: Seq<char>, stop: StopReason) -> bool {
    match a {
        TestAssertion::UartContains(x) => contains_seq(text, x.uart_contains@),
        TestAssertion::UartRegex(x) => regex_match(x.uart_regex@, text),
        TestAssertion::ExpectedStopReason(x) => x.expected_stop_reason == stop,
    }
}

pub fn check_assertion(a: &TestAssertion, text: &str, stop: StopReason) -> (r: bool)
    ensures
        r == assertion_holds(*a, text@, stop),
{
    match a {
        TestAssertion::UartContains(x) => contains_text(text, x.uart_contains.as_str()),
        TestAssertion::UartRegex(x) => simple_regex_is_match(x.uart_regex.as_str(), text),
        TestAssertion::ExpectedStopReason(x) => x.expected_stop_reason == stop,
    }
}

/// The verdict on each assertion, in order.
pub fn check_assertions(assertions: &Vec<TestAssertion>, text: &str, stop: StopReason) -> (r: Vec<bool>)
    ensures
        r@.len() == assertions@.len(),
        forall|i: int| 0 <= i < r@.len() ==> r@[i] == assertion_holds(#[trigger] assertions@[i], text@, stop),
{
    let mut out: Vec<bool> = Vec::new();
    let mut i: usize = 0;
    while i < assertions.len()
        invariant
            i <= assertions@.len(),
            out@.len() == i,
            forall|k: int| 0 <= k < i ==> out@[k] == assertion_holds(#[trigger] assertions@[k], text@, stop),
        decreases assertions@.len() - i,
    {
        out.push(check_assertion(&assertions[i], text, stop));
        i = i + 1;
    }
    out
}

/// The outcome of a scripted run.
#[derive(Debug, Clone, Copy, PartialEq, Eq, Structural)]
pub enum RunStatus {
    Pass,
    Fail,
    Error,
}

pub open spec fn all_passed(passed: Seq<bool>) -> bool {
    forall|i: int| 0 <= i < passed.len() ==> #[trigger] passed[i]
}

/// Some stop-reason assertion passed.
pub open spec fn expected_stop_matched(assertions: Seq<TestAssertion>, passed: Seq<bool>) -> bool {
    exists|i: int| 0 <= i < assertions.len() && i < passed.len() && #[trigger] assertions[i] is ExpectedStopReason && passed[i]
}

/// Fail when an assertion failed, or the wall-clock budget ran out without being
/// expected; Error when the simulation failed without being expected; else Pass.
pub open spec fn status_spec(assertions: Seq<TestAssertion>, passed: Seq<bool>, stop: StopReason, sim_error: bool) -> RunStatus {
    let expected = expected_stop_matched(assertions, passed);
    if !all_passed(passed) {
        RunStatus::Fail
    } else if stop == StopReason::WallTime && !expected {
        RunStatus::Fail
    } else if sim_error && !expected {
        RunStatus::Error
    } else {
        RunStatus::Pass
    }
}

pub fn run_status(assertions: &Vec<TestAssertion>, passed: &Vec<bool>, stop: StopReason, sim_error: bool) -> (r: RunStatus)
    ensures
        r == status_spec(assertions@, passed@, stop, sim_error),
{
    let mut all = true;
    let mut expected = false;
    let mut i: usize = 0;
    while i < passed.len()
        invariant
            i <= passed@.len(),
            all == (forall|k: int| 0 <= k < i ==> #[trigger] passed@[k]),
            expected == (exists|k: int| 0 <= k < i && k < assertions@.len() && #[trigger] assertions@[k] is ExpectedStopReason && passed@[k]),
        decreases passed@.len() - i,
    {
        if !passed[i] {
            all = false;
        }
        if i < assertions.len() && passed[i] {
            if let TestAssertion::ExpectedStopReason(_) = &assertions[i] {
                expected = true;
            }
        }
        i = i + 1;
    }
    if !all {
        RunStatus::Fail
    } else if stop == StopReason::WallTime && !expected {
        RunStatus::Fail
    } else if sim_error && !expected {
        RunStatus::Error
    } else {
        RunStatus::Pass
    }
}

/// The process exit code for a status: 0 pass, 1 assertion failure, 3 runtime error.
pub fn exit_code(status: RunStatus) -> (r: u8)
    ensures
        r == match status {
            RunStatus::Pass => 0u8,
            RunStatus::Fail => 1u8,
            RunStatus::Error => 3u8,
        },
{
    match status {
        RunStatus::Pass => 0,
        RunStatus::Fail => 1,
        RunStatus::Error => 3,
    }
}

/// The stop reason a simulation error stands for.
pub fn stop_reason_of(e: SimulationError) -> (r: StopReason)
    ensures
        r == match e {
            SimulationError::MemoryViolation(_) => StopReason::MemoryViolation,
            SimulationError::DecodeError(_) => StopReason::DecodeError,
        },
{
    match e {
        SimulationError::MemoryViolation(_) => StopReason::MemoryViolation,
        SimulationError::DecodeError(_) => StopReason::DecodeError,
    }
}

} // verus!
