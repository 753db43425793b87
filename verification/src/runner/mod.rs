//! The test configuration read from the config file, and the runner that
//! turns one test file into a `flutter` invocation and classifies its outcome.
use vstd::prelude::*;
use crate::pattern::{plain_literal, regex_is_match};
use crate::platform::{Platform, PlatformView};
use crate::result::{Result as TestResult, ResultView, Timestamp};
use crate::shell::{ShellOutput, ShellOutputView, run_view};
use crate::text::{contains, join, join_with, str_equal};

verus! {

/// The test type that drives tests through `flutter drive`.
pub const TYPE_TEST_DRIVER: &'static str = "test_driver";

/// The test type that runs tests through `flutter test`.
pub const TYPE_INTEGRATION_TEST: &'static str = "integration_test";

/// The version manager whose `flutter` is used when configured.
pub const FVM: &'static str = "fvm";

/// The text whose presence in `flutter`'s output marks a failed run.
pub const FAILURE_MARKER: &'static str = "Some tests failed";

/// The status of a test that passed.
pub const PASSED: &'static str = "PASSED";

/// The status of a test that failed.
pub const FAILED: &'static str = "FAILED";

/// The contents of the config file.
#[derive(Debug)]
pub struct TestRunner {
    pub vm: Option<String>,
    pub device: Device,
    pub report: Report,
    pub tests: Vec<String>,
}

/// The per-platform device settings of the config file.
#[derive(Debug)]
pub struct Device {
    pub android: Platform,
    pub ios: Platform,
}

/// The report settings of the config file.
#[derive(Debug)]
pub struct Report {
    pub name: String,
}

/// Plain-value view of a `TestRunner`.
pub struct TestRunnerView {
    pub vm: Option<Seq<char>>,
    pub android: PlatformView,
    pub ios: PlatformView,
    pub report_name: Seq<char>,
    pub tests: Seq<Seq<char>>,
}

impl View for TestRunner {
    type V = TestRunnerView;

    open spec fn view(&self) -> TestRunnerView {
        TestRunnerView {
            vm: self.vm.deep_view(),
            android: self.device.android@,
            ios: self.device.ios@,
            report_name: self.report.name@,
            tests: self.tests.deep_view(),
        }
    }
}

/// The settings under which tests are run.
#[derive(Debug)]
pub struct Runner {
    pub vm: String,
    pub flavor: String,
    pub device_id: Option<String>,
    pub device_name: String,
    /// `test_driver` or `integration_test`.
    pub test_type: String,
}

/// Plain-value view of a `Runner`.
pub struct RunnerView {
    pub vm: Seq<char>,
    pub flavor: Seq<char>,
    pub device_id: Option<Seq<char>>,
    pub device_name: Seq<char>,
    pub test_type: Seq<char>,
}

impl View for Runner {
    type V = RunnerView;

    open spec fn view(&self) -> RunnerView {
        RunnerView {
            vm: self.vm@,
            flavor: self.flavor@,
            device_id: self.device_id.deep_view(),
            device_name: self.device_name@,
            test_type: self.test_type@,
        }
    }
}

/// The device that `flutter` is pointed at: the id when there is one, else the name.
pub open spec fn target_device(r: RunnerView) -> Seq<char> {
    match r.device_id {
        Some(id) => id,
        None => r.device_name,
    }
}

/// The `flutter` arguments that run `test` under the runner's test type;
/// none for a test type that is neither known one.
pub open spec fn test_args(r: RunnerView, test: Seq<char>) -> Seq<Seq<char>> {
    if r.test_type == TYPE_TEST_DRIVER@ {
        seq![
            "drive"@,
            "--driver=test_driver/integration_test.dart"@,
            "--target=integration_test/"@ + test,
            "--flavor"@,
            r.flavor,
            "-d"@,
            target_device(r),
        ]
    } else if r.test_type == TYPE_INTEGRATION_TEST@ {
        seq!["test"@, "integration_test/"@ + test, "--flavor"@, r.flavor, "-d"@, target_device(r)]
    } else {
        Seq::empty()
    }
}

/// Whether `flutter` is run through the version manager.
pub open spec fn uses_fvm(r: RunnerView) -> bool {
    r.vm == FVM@
}

/// The program that is started.
pub open spec fn program_of(r: RunnerView) -> Seq<char> {
    if uses_fvm(r) {
        FVM@
    } else {
        "flutter"@
    }
}

/// The arguments the program is started with.
pub open spec fn process_args(r: RunnerView, test: Seq<char>) -> Seq<Seq<char>> {
    if uses_fvm(r) {
        seq!["flutter"@] + test_args(r, test)
    } else {
        test_args(r, test)
    }
}

/// The command line shown to the user.
pub open spec fn command_line(r: RunnerView, test: Seq<char>) -> Seq<char> {
    (if uses_fvm(r) {
        "fvm flutter "@
    } else {
        "flutter "@
    }) + join(test_args(r, test), " "@)
}

/// Whether a finished run passed: it exited successfully and its output does
/// not report failed tests.
pub open spec fn run_passed(run: Result<ShellOutputView, Seq<char>>) -> bool {
    match run {
        Ok(out) => out.success && !contains(out.stdout, FAILURE_MARKER@),
        Err(_) => false,
    }
}

/// The error text recorded for a run: empty when it passed, both output
/// streams when it failed, the system's error when it could not start.
pub open spec fn run_error(run: Result<ShellOutputView, Seq<char>>) -> Seq<char> {
    match run {
        Ok(out) => if run_passed(run) {
            Seq::empty()
        } else {
            out.stdout + "\n"@ + out.stderr
        },
        Err(e) => e,
    }
}

/// The status recorded for a run.
pub open spec fn run_status(run: Result<ShellOutputView, Seq<char>>) -> Seq<char> {
    if run_passed(run) {
        PASSED@
    } else {
        FAILED@
    }
}

/// The outcome recorded for `test`, run from `start` to `end`.
pub open spec fn test_outcome(
    test: Seq<char>,
    start: int,
    end: int,
    run: Result<ShellOutputView, Seq<char>>,
) -> ResultView {
    ResultView {
        test,
        start_time: start,
        end_time: end,
        status: run_status(run),
        error: run_error(run),
    }
}

/// How one test is started: the program, its arguments, and the command
/// line shown to the user.
#[derive(Debug)]
pub struct Invocation {
    pub program: String,
    pub args: Vec<String>,
    pub display: String,
}

/// Plain-value view of an `Invocation`.
pub struct InvocationView {
    pub program: Seq<char>,
    pub args: Seq<Seq<char>>,
    pub display: Seq<char>,
}

impl View for Invocation {
    type V = InvocationView;

    open spec fn view(&self) -> InvocationView {
        InvocationView { program: self.program@, args: self.args.deep_view(), display: self.display@ }
    }
}

/// The invocation that runs `test`.
pub open spec fn invocation_of(r: RunnerView, test: Seq<char>) -> InvocationView {
    InvocationView {
        program: program_of(r),
        args: process_args(r, test),
        display: command_line(r, test),
    }
}

impl TestRunner {
    /// A configuration with an empty `vm`, empty platform settings, an empty
    /// report name and no tests.
    pub fn new() -> (t: TestRunner)
        ensures
            t@.vm == Some(Seq::<char>::empty()),
            t@.android == Platform::new_view(),
            t@.ios == Platform::new_view(),
            t@.report_name == Seq::<char>::empty(),
            t@.tests == Seq::<Seq<char>>::empty(),
    {
        let tests: Vec<String> = Vec::new();
        let t = TestRunner {
            vm: Some(String::new()),
            device: Device::new(),
            report: Report::new(),
            tests,
        };
        assert(t@.tests =~= Seq::<Seq<char>>::empty());
        t
    }
}

impl Report {
    /// Report settings with an empty name.
    pub fn new() -> (r: Report)
        ensures
            r.name@ == Seq::<char>::empty(),
    {
        Report { name: String::new() }
    }
}

impl Device {
    /// Empty settings for both platforms.
    pub fn new() -> (d: Device)
        ensures
            d.android@ == Platform::new_view(),
            d.ios@ == Platform::new_view(),
    {
        Device { android: Platform::new(), ios: Platform::new() }
    }
}

impl Runner {
    /// The device that `flutter` is pointed at.
    pub fn target_device(&self) -> (d: String)
        ensures
            d@ == target_device(self@),
    {
        match &self.device_id {
            Some(id) => id.clone(),
            None => self.device_name.clone(),
        }
    }

    /// The `flutter` arguments that run `test`.
    pub fn test_args(&self, test: &str) -> (args: Vec<String>)
        ensures
            args.deep_view() == test_args(self@, test@),
    {
        let device = self.target_device();
        let mut args: Vec<String> = Vec::new();
        if str_equal(self.test_type.as_str(), TYPE_TEST_DRIVER) {
            args.push(String::from_str("drive"));
            args.push(String::from_str("--driver=test_driver/integration_test.dart"));
            args.push(String::from_str("--target=integration_test/").concat(test));
            args.push(String::from_str("--flavor"));
            args.push(self.flavor.clone());
            args.push(String::from_str("-d"));
            args.push(device);
        } else if str_equal(self.test_type.as_str(), TYPE_INTEGRATION_TEST) {
            args.push(String::from_str("test"));
            args.push(String::from_str("integration_test/").concat(test));
            args.push(String::from_str("--flavor"));
            args.push(self.flavor.clone());
            args.push(String::from_str("-d"));
            args.push(device);
        }
        assert(args.deep_view() =~= test_args(self@, test@));
        args
    }

    /// The program, arguments and displayed command line that run `test`.
    pub fn invocation(&self, test: &str) -> (inv: Invocation)
        ensures
            inv@ == invocation_of(self@, test@),
    {
        let args = self.test_args(test);
        let joined = join_with(&args, " ");
        proof {
            assert(args@.map_values(|p: String| p@) =~= args.deep_view());
        }
        if str_equal(self.vm.as_str(), FVM) {
            let mut process_args: Vec<String> = Vec::new();
            process_args.push(String::from_str("flutter"));
            let mut i: usize = 0;
            while i < args.len()
                invariant
                    i <= args@.len(),
                    process_args.deep_view() == seq!["flutter"@] + args.deep_view().take(
                        i as int,
                    ),
                decreases args@.len() - i,
            {
                let ghost before = process_args.deep_view();
                let item = args[i].clone();
                process_args.push(item);
                assert(process_args.deep_view() =~= before.push(args@[i as int]@));
                assert(args.deep_view().take(i + 1) =~= args.deep_view().take(i as int).push(
                    args@[i as int]@,
                ));
                assert(process_args.deep_view() =~= seq!["flutter"@] + args.deep_view().take(
                    i + 1,
                ));
                i = i + 1;
            }
            assert(args.deep_view().take(args@.len() as int) =~= args.deep_view());
            Invocation {
                program: String::from_str(FVM),
                args: process_args,
                display: String::from_str("fvm flutter ").concat(joined.as_str()),
            }
        } else {
            Invocation {
                program: String::from_str("flutter"),
                args,
                display: String::from_str("flutter ").concat(joined.as_str()),
            }
        }
    }

    /// Whether a finished run passed.
    pub fn passed(run: &Result<ShellOutput, String>) -> (p: bool)
        ensures
            p == run_passed(run_view(run)),
    {
        match run {
            Ok(out) => {
                if !out.success {
                    return false;
                }
                proof {
                    reveal_strlit("Some tests failed");
                    assert(plain_literal(FAILURE_MARKER@));
                }
                match regex_is_match(FAILURE_MARKER, out.stdout.as_str()) {
                    Some(found) => !found,
                    None => false,
                }
            },
            Err(_) => false,
        }
    }

    /// The outcome of `test`, run from `start` to `end` with the given result.
    pub fn finish(test: &str, start: Timestamp, end: Timestamp, run: Result<ShellOutput, String>) -> (r:
        TestResult)
        ensures
            r@ == test_outcome(test@, start@, end@, run_view(&run)),
    {
        let passed = Self::passed(&run);
        let status = if passed {
            String::from_str(PASSED)
        } else {
            String::from_str(FAILED)
        };
        let error = match run {
            Ok(out) => if passed {
                String::new()
            } else {
                out.stdout.concat("\n").concat(out.stderr.as_str())
            },
            Err(e) => e,
        };
        TestResult { test: test.to_owned(), start_time: start, end_time: end, status, error }
    }
}

/// Whatever the test type, a test is pointed at the device id when one is
/// set and at the device name otherwise: when there are arguments at all,
/// they end with `-d` and that device.
pub proof fn lemma_test_args_target(r: RunnerView, test: Seq<char>)
    ensures
        test_args(r, test).len() > 0 ==> {
            let args = test_args(r, test);
            &&& args[args.len() - 2] == "-d"@
            &&& args[args.len() - 1] == match r.device_id {
                Some(id) => id,
                None => r.device_name,
            }
        },
        (r.test_type == TYPE_TEST_DRIVER@ || r.test_type == TYPE_INTEGRATION_TEST@) ==> test_args(
            r,
            test,
        ).len() > 0,
{
}

/// A run that exits successfully without reporting failed tests passes,
/// whatever it wrote to stderr: it is recorded as passed, with no error.
pub proof fn lemma_success_passes(
    test: Seq<char>,
    start: int,
    end: int,
    out: ShellOutputView,
)
    requires
        out.success,
        !contains(out.stdout, FAILURE_MARKER@),
    ensures
        run_passed(Ok(out)),
        test_outcome(test, start, end, Ok(out)).status == PASSED@,
        test_outcome(test, start, end, Ok(out)).error == Seq::<char>::empty(),
{
}

/// Whether a run passes does not depend on its stderr: two runs with the
/// same exit status and stdout get the same status.
pub proof fn lemma_passing_ignores_stderr(a: ShellOutputView, b: ShellOutputView)
    requires
        a.success == b.success,
        a.stdout == b.stdout,
    ensures
        run_passed(Ok(a)) == run_passed(Ok(b)),
        run_status(Ok(a)) == run_status(Ok(b)),
{
}

/// A run fails when it exits unsuccessfully, when its stdout reports
/// failed tests, or when it could not be started.
pub proof fn lemma_failures_fail(out: ShellOutputView, e: Seq<char>)
    ensures
        !out.success ==> !run_passed(Ok(out)),
        contains(out.stdout, FAILURE_MARKER@) ==> !run_passed(Ok(out)),
        !run_passed(Err(e)),
{
}

} // verus!
