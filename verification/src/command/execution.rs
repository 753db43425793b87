//! A test session as a state machine. The library decides; the caller
//! performs each requested effect (a shell command, a pause, a test run,
//! writing the report) and answers with the event it produced, until the
//! session finishes.
//!
//! The session first makes sure a device is there: on iOS it boots the
//! named simulator unless it is already booted; on Android it starts the
//! named emulator unless `adb` already lists it; without a device name it
//! asks which emulator or simulator is running. It then picks the flavor,
//! the report file and the tests, runs every test in turn and finally asks
//! for the report.
use vstd::prelude::*;
use crate::command::{
    Command, CommandView, ExecError, ExecErrorView, choose_flavor, copy_optional, flavor_choice,
    report_file_name, report_name, select_tests, selected_tests,
};
use crate::platform::{ANDROID, IOS, PlatformErrorView, platform_error_text};
use crate::platform::android::{
    ADB_DEVICES_COMMAND, Android, boot_emulator_command_text, boot_emulator_result,
    emulator_running_result,
};
use crate::platform::ios::{
    IOS as IosRange, boot_simulator_command_text, boot_simulator_result, booted_listing_result,
    booted_query_text, model_names_of, simulator_running_result,
};
use crate::result::{Result as TestResult, ResultView, Timestamp, time_usage};
use crate::runner::{
    Invocation, InvocationView, Runner, RunnerView, invocation_of, run_passed, test_outcome,
};
use crate::shell::{ShellOutput, ShellOutputView, run_view};
use crate::text::{decimal, join, push_decimal};

verus! {

/// The oldest iPhone generation whose simulator is looked for.
pub const IOS_MIN_GENERATION: u16 = 14;

/// The newest iPhone generation whose simulator is looked for.
pub const IOS_MAX_GENERATION: u16 = 16;

/// The console port of the emulator that is started and looked for.
pub const EMULATOR_PORT: u16 = 5554;

/// How long, in seconds, a booting device is given before tests start.
pub const BOOT_WAIT_SECS: u64 = 15;

/// The line shown when the device is up.
pub const BOOTED_LINE: &'static str = "└── [BOOTED]";

/// The line shown when the emulator did not come up.
pub const FAILED_LINE: &'static str = "└── [FAILED]";

/// The line shown while a device boots.
pub const BOOTING_LINE: &'static str = "├── booting... 15s";

/// The line shown when a test passed.
pub const TEST_PASSED_LINE: &'static str = "└── [PASSED]";

/// The line shown when a test failed.
pub const TEST_FAILED_LINE: &'static str = "└── [FAILED]";

/// Where a session stands: what it waits for.
#[derive(Clone, Copy, Debug)]
pub enum Stage {
    /// The answer to whether the named simulator is booted.
    SimulatorCheck,
    /// The answer to booting the named simulator.
    SimulatorBoot,
    /// The end of the pause after booting the simulator.
    SimulatorWait,
    /// The answer to whether the emulator is running.
    EmulatorCheck,
    /// The answer to starting the named emulator.
    EmulatorBoot,
    /// The end of the pause after starting the emulator.
    EmulatorWait,
    /// The answer to whether the emulator came up.
    EmulatorRecheck,
    /// The answer to which emulator runs, when no device was named.
    EmulatorProbe,
    /// The answer to which simulator runs, when no device was named.
    SimulatorProbe,
    /// The outcome of the next test.
    Testing,
    /// The answer to writing the report.
    Reporting,
    /// Nothing: the session is over.
    Finished,
}

/// A line of progress to show the user.
#[derive(Debug)]
pub enum Line {
    Text(String),
    /// ` after <minutes> m`, the time one test took, given in whole seconds.
    Elapsed(i64),
}

/// Plain-value view of a `Line`.
pub enum LineView {
    Text(Seq<char>),
    Elapsed(i64),
}

impl View for Line {
    type V = LineView;

    open spec fn view(&self) -> LineView {
        match self {
            Line::Text(t) => LineView::Text(t@),
            Line::Elapsed(s) => LineView::Elapsed(*s),
        }
    }
}

impl DeepView for Line {
    type V = LineView;

    open spec fn deep_view(&self) -> LineView {
        self@
    }
}

/// What the session asks its caller to do next.
#[derive(Debug)]
pub enum Effect {
    /// Run the command with `sh -c`, capturing its output.
    Shell(String),
    /// Run the command with `sh -c` in a task of its own, and wait for its
    /// exit status.
    SpawnShell(String),
    /// Pause for the given number of seconds.
    Sleep(u64),
    /// Run one test.
    RunTest(Invocation),
    /// Write the report of the outcomes so far to the named file.
    GenerateReport(String),
    /// The session is over, with this result.
    Finish(Result<(), ExecError>),
}

/// Plain-value view of an `Effect`.
pub enum EffectView {
    Shell(Seq<char>),
    SpawnShell(Seq<char>),
    Sleep(u64),
    RunTest(InvocationView),
    GenerateReport(Seq<char>),
    Finish(Result<(), ExecErrorView>),
}

impl View for Effect {
    type V = EffectView;

    open spec fn view(&self) -> EffectView {
        match self {
            Effect::Shell(c) => EffectView::Shell(c@),
            Effect::SpawnShell(c) => EffectView::SpawnShell(c@),
            Effect::Sleep(s) => EffectView::Sleep(*s),
            Effect::RunTest(inv) => EffectView::RunTest(inv@),
            Effect::GenerateReport(f) => EffectView::GenerateReport(f@),
            Effect::Finish(r) => EffectView::Finish(
                match r {
                    Ok(()) => Ok(()),
                    Err(e) => Err(e@),
                },
            ),
        }
    }
}

/// What the caller reports back after performing an effect.
#[derive(Debug)]
pub enum Event {
    /// The shell command finished, or the error that kept it from running.
    Shell(Result<ShellOutput, String>),
    /// The pause is over.
    Slept,
    /// The test ran from the first reading of the clock to the second, with
    /// this outcome.
    TestFinished(Timestamp, Timestamp, Result<ShellOutput, String>),
    /// The report was written, or the error that kept it from being written.
    Reported(Result<(), String>),
    /// The effect could not be performed; holds the error text.
    Aborted(String),
}

/// Plain-value view of an `Event`.
pub enum EventView {
    Shell(Result<ShellOutputView, Seq<char>>),
    Slept,
    TestFinished(int, int, Result<ShellOutputView, Seq<char>>),
    Reported(Result<(), Seq<char>>),
    Aborted(Seq<char>),
}

impl View for Event {
    type V = EventView;

    open spec fn view(&self) -> EventView {
        match self {
            Event::Shell(run) => EventView::Shell(run_view(run)),
            Event::Slept => EventView::Slept,
            Event::TestFinished(start, end, run) => EventView::TestFinished(
                start@,
                end@,
                run_view(run),
            ),
            Event::Reported(r) => EventView::Reported(
                match r {
                    Ok(()) => Ok(()),
                    Err(e) => Err(e@),
                },
            ),
            Event::Aborted(e) => EventView::Aborted(e@),
        }
    }
}

/// The lines to show and the effect to perform.
#[derive(Debug)]
pub struct Step {
    pub lines: Vec<Line>,
    pub effect: Effect,
}

/// Plain-value view of a `Step`.
pub struct StepView {
    pub lines: Seq<LineView>,
    pub effect: EffectView,
}

impl View for Step {
    type V = StepView;

    open spec fn view(&self) -> StepView {
        StepView { lines: self.lines.deep_view(), effect: self.effect@ }
    }
}

/// A test session in progress.
pub struct Execution {
    cmd: Command,
    runner: Runner,
    stage: Stage,
    tests: Vec<String>,
    results: Vec<TestResult>,
}

/// Plain-value view of an `Execution`: the command (its report name
/// settled once the device is there), the runner, the stage, the tests
/// chosen and the outcomes of those run so far.
pub struct ExecutionView {
    pub cmd: CommandView,
    pub runner: RunnerView,
    pub stage: Stage,
    pub tests: Seq<Seq<char>>,
    pub results: Seq<ResultView>,
}

impl View for Execution {
    type V = ExecutionView;

    closed spec fn view(&self) -> ExecutionView {
        ExecutionView {
            cmd: self.cmd@,
            runner: self.runner@,
            stage: self.stage,
            tests: self.tests.deep_view(),
            results: self.results.deep_view(),
        }
    }
}

/// Whether the stage waits for a device.
pub open spec fn device_stage(stage: Stage) -> bool {
    !(stage is Testing || stage is Reporting || stage is Finished)
}

/// The outcomes so far belong to the first tests, in order.
pub open spec fn outcomes_follow_tests(tests: Seq<Seq<char>>, results: Seq<ResultView>) -> bool {
    &&& results.len() <= tests.len()
    &&& forall|k: int| 0 <= k < results.len() ==> #[trigger] results[k].test == tests[k]
}

/// The runner carries the command's version manager, test type and device
/// id, and the named device when one was given.
pub open spec fn runner_matches(c: CommandView, r: RunnerView) -> bool {
    &&& r.vm == c.vm
    &&& r.test_type == c.test_type
    &&& r.device_id == c.device_id
    &&& c.device_name.len() != 0 ==> r.device_name == c.device_name
}

/// Once tests are under way: they are built with the flavor chosen for the
/// command, and they are the tests the command selects.
pub open spec fn runs_selected_tests(c: CommandView, r: RunnerView, tests: Seq<Seq<char>>) -> bool {
    &&& flavor_choice(c.flavor, c.platform) == Some(r.flavor)
    &&& tests == selected_tests(c.tests, c.path)
}

/// What holds of every session: no test is chosen while the device is
/// awaited, a running device is only looked for when none was named, one
/// outcome per test run so far, every test has an outcome once the report
/// is asked for, and tests run with the command's settings.
pub open spec fn session_wf(s: ExecutionView) -> bool {
    &&& outcomes_follow_tests(s.tests, s.results)
    &&& device_stage(s.stage) ==> s.tests.len() == 0
    &&& (s.stage is EmulatorProbe || s.stage is SimulatorProbe) ==> s.cmd.device_name.len() == 0
    &&& s.stage is Testing ==> s.results.len() < s.tests.len()
    &&& s.stage is Reporting ==> s.results.len() == s.tests.len()
    &&& runner_matches(s.cmd, s.runner)
    &&& (s.stage is Testing || s.stage is Reporting) ==> runs_selected_tests(s.cmd, s.runner, s.tests)
}

/// Whether the session waits for this kind of event in its stage.
pub open spec fn awaits(stage: Stage, e: EventView) -> bool {
    match e {
        EventView::Aborted(_) => !(stage is Finished),
        EventView::Shell(_) => stage is SimulatorCheck || stage is SimulatorBoot
            || stage is EmulatorCheck || stage is EmulatorBoot || stage is EmulatorRecheck
            || stage is EmulatorProbe || stage is SimulatorProbe,
        EventView::Slept => stage is SimulatorWait || stage is EmulatorWait,
        EventView::TestFinished(_, _, _) => stage is Testing,
        EventView::Reported(_) => stage is Reporting,
    }
}

/// Whether an event is the answer to an effect: a shell outcome to a shell
/// command, the end of a pause to a pause, a test outcome to a test run,
/// the report's outcome to the report; an abort answers any effect.
pub open spec fn answers(effect: EffectView, e: EventView) -> bool {
    match effect {
        EffectView::Finish(_) => false,
        _ => match e {
            EventView::Aborted(_) => true,
            EventView::Shell(_) => effect is Shell || effect is SpawnShell,
            EventView::Slept => effect is Sleep,
            EventView::TestFinished(_, _, _) => effect is RunTest,
            EventView::Reported(_) => effect is GenerateReport,
        },
    }
}

/// The shell command that asks which simulator of the known models is booted.
pub open spec fn simulator_query() -> Seq<char> {
    booted_query_text(join(model_names_of(IOS_MIN_GENERATION, IOS_MAX_GENERATION), "|"@))
}

/// The runner a session starts with: the command's version manager, device
/// id and test type; no flavor and no device name yet.
pub open spec fn initial_runner(c: CommandView) -> RunnerView {
    RunnerView {
        vm: c.vm,
        flavor: Seq::empty(),
        device_id: c.device_id,
        device_name: Seq::empty(),
        test_type: c.test_type,
    }
}

/// A session at a stage.
pub open spec fn session(
    c: CommandView,
    r: RunnerView,
    stage: Stage,
    tests: Seq<Seq<char>>,
    results: Seq<ResultView>,
) -> ExecutionView {
    ExecutionView { cmd: c, runner: r, stage, tests, results }
}

/// A session that waits for its device.
pub open spec fn waiting(c: CommandView, r: RunnerView, stage: Stage) -> ExecutionView {
    session(c, r, stage, Seq::empty(), Seq::empty())
}

/// The step that shows `lines` and asks for `effect`.
pub open spec fn step(lines: Seq<LineView>, effect: EffectView) -> StepView {
    StepView { lines, effect }
}

/// Ending the session with `outcome`.
pub open spec fn finish_spec(
    c: CommandView,
    r: RunnerView,
    tests: Seq<Seq<char>>,
    results: Seq<ResultView>,
    lines: Seq<LineView>,
    outcome: Result<(), ExecErrorView>,
) -> (ExecutionView, StepView) {
    (session(c, r, Stage::Finished, tests, results), step(lines, EffectView::Finish(outcome)))
}

/// Going on with the first test without an outcome, or asking for the
/// report when every test has one.
pub open spec fn next_test_spec(
    c: CommandView,
    r: RunnerView,
    tests: Seq<Seq<char>>,
    results: Seq<ResultView>,
    lines: Seq<LineView>,
) -> (ExecutionView, StepView) {
    if results.len() < tests.len() {
        let t = tests[results.len() as int];
        (
            session(c, r, Stage::Testing, tests, results),
            step(
                lines + seq![
                    LineView::Text("Testing "@ + t),
                    LineView::Text("├── "@ + invocation_of(r, t).display),
                    LineView::Text("├── ..."@),
                ],
                EffectView::RunTest(invocation_of(r, t)),
            ),
        )
    } else {
        (
            session(c, r, Stage::Reporting, tests, results),
            step(lines, EffectView::GenerateReport(c.report)),
        )
    }
}

/// Once the device is there: the flavor (or an error when none can be
/// chosen), the report file, the tests, and the first test.
pub open spec fn after_device_spec(c: CommandView, r: RunnerView, lines: Seq<LineView>) -> (
    ExecutionView,
    StepView,
) {
    match flavor_choice(c.flavor, c.platform) {
        None => finish_spec(
            c,
            r,
            Seq::empty(),
            Seq::empty(),
            lines,
            Err(ExecErrorView::FlavorNotFound),
        ),
        Some(f) => {
            let r2 = RunnerView { flavor: f, ..r };
            let c2 = CommandView { report: report_name(c.report, c.platform), ..c };
            let tests = selected_tests(c.tests, c.path);
            next_test_spec(
                c2,
                r2,
                tests,
                Seq::empty(),
                lines.push(
                    LineView::Text(
                        "Run "@ + decimal(tests.len()) + " tests on "@ + r2.device_name,
                    ),
                ),
            )
        },
    }
}

/// How a session for the command begins.
pub open spec fn start_spec(c: CommandView) -> (ExecutionView, StepView) {
    let r = initial_runner(c);
    let d = c.device_name;
    if d.len() != 0 {
        let r = RunnerView { device_name: d, ..r };
        if c.platform == IOS@ {
            (
                waiting(c, r, Stage::SimulatorCheck),
                step(
                    seq![LineView::Text("iOS Simulator"@), LineView::Text("Boot simulator "@ + d)],
                    EffectView::Shell(booted_query_text(d)),
                ),
            )
        } else if c.platform == ANDROID@ {
            (
                waiting(c, r, Stage::EmulatorCheck),
                step(
                    seq![LineView::Text("Android Emulator"@), LineView::Text("Boot emulator "@ + d)],
                    EffectView::Shell(ADB_DEVICES_COMMAND@),
                ),
            )
        } else {
            after_device_spec(c, r, Seq::empty())
        }
    } else if c.platform == ANDROID@ {
        (waiting(c, r, Stage::EmulatorProbe), step(Seq::empty(), EffectView::Shell(ADB_DEVICES_COMMAND@)))
    } else if c.platform == IOS@ {
        (waiting(c, r, Stage::SimulatorProbe), step(Seq::empty(), EffectView::Shell(simulator_query())))
    } else {
        finish_spec(c, r, Seq::empty(), Seq::empty(), Seq::empty(), Err(ExecErrorView::DeviceNotFound))
    }
}

/// A single line of text.
pub open spec fn one_line(t: Seq<char>) -> Seq<LineView> {
    seq![LineView::Text(t)]
}

/// The answer to whether the named simulator is booted: boot it if not.
pub open spec fn on_simulator_check(s: ExecutionView, run: Result<ShellOutputView, Seq<char>>) -> (
    ExecutionView,
    StepView,
) {
    match booted_listing_result(run) {
        Err(_) => (
            waiting(s.cmd, s.runner, Stage::SimulatorBoot),
            step(Seq::empty(), EffectView::Shell(boot_simulator_command_text(s.cmd.device_name))),
        ),
        Ok(()) => after_device_spec(s.cmd, s.runner, one_line(BOOTED_LINE@)),
    }
}

/// The answer to booting the simulator: wait for it, or end with the error.
pub open spec fn on_simulator_boot(s: ExecutionView, run: Result<ShellOutputView, Seq<char>>) -> (
    ExecutionView,
    StepView,
) {
    match boot_simulator_result(s.cmd.device_name, run) {
        Err(e) => finish_spec(
            s.cmd,
            s.runner,
            Seq::empty(),
            Seq::empty(),
            Seq::empty(),
            Err(ExecErrorView::Platform(e)),
        ),
        Ok(()) => (
            waiting(s.cmd, s.runner, Stage::SimulatorWait),
            step(one_line(BOOTING_LINE@), EffectView::Sleep(BOOT_WAIT_SECS)),
        ),
    }
}

/// The answer to whether the emulator runs: start it if not.
pub open spec fn on_emulator_check(s: ExecutionView, run: Result<ShellOutputView, Seq<char>>) -> (
    ExecutionView,
    StepView,
) {
    match emulator_running_result(EMULATOR_PORT, run) {
        Err(_) => (
            waiting(s.cmd, s.runner, Stage::EmulatorBoot),
            step(Seq::empty(), EffectView::SpawnShell(boot_emulator_command_text(s.cmd.device_name))),
        ),
        Ok(_) => after_device_spec(s.cmd, s.runner, one_line(BOOTED_LINE@)),
    }
}

/// The answer to starting the emulator: show a failure, then wait anyway.
pub open spec fn on_emulator_boot(s: ExecutionView, run: Result<ShellOutputView, Seq<char>>) -> (
    ExecutionView,
    StepView,
) {
    let shown = match boot_emulator_result(s.cmd.device_name, run) {
        Err(e) => one_line("└── "@ + platform_error_text(e)),
        Ok(()) => Seq::empty(),
    };
    (
        waiting(s.cmd, s.runner, Stage::EmulatorWait),
        step(shown + one_line(BOOTING_LINE@), EffectView::Sleep(BOOT_WAIT_SECS)),
    )
}

/// The answer to whether the emulator came up: say so, and go on either way.
pub open spec fn on_emulator_recheck(s: ExecutionView, run: Result<ShellOutputView, Seq<char>>) -> (
    ExecutionView,
    StepView,
) {
    match emulator_running_result(EMULATOR_PORT, run) {
        Err(_) => after_device_spec(s.cmd, s.runner, one_line(FAILED_LINE@)),
        Ok(_) => after_device_spec(s.cmd, s.runner, one_line(BOOTED_LINE@)),
    }
}

/// The answer to which emulator runs: test on it, or on no named device.
pub open spec fn on_emulator_probe(s: ExecutionView, run: Result<ShellOutputView, Seq<char>>) -> (
    ExecutionView,
    StepView,
) {
    match emulator_running_result(EMULATOR_PORT, run) {
        Ok(name) => after_device_spec(s.cmd, RunnerView { device_name: name, ..s.runner }, Seq::empty()),
        Err(_) => after_device_spec(s.cmd, s.runner, Seq::empty()),
    }
}

/// The answer to which simulator runs: test on it, or on no named device.
pub open spec fn on_simulator_probe(s: ExecutionView, run: Result<ShellOutputView, Seq<char>>) -> (
    ExecutionView,
    StepView,
) {
    match simulator_running_result(run) {
        Ok(name) => after_device_spec(s.cmd, RunnerView { device_name: name, ..s.runner }, Seq::empty()),
        Err(_) => after_device_spec(s.cmd, s.runner, Seq::empty()),
    }
}

/// The outcome of the test under way: record it and go on.
pub open spec fn on_test_finished(
    s: ExecutionView,
    start: int,
    end: int,
    run: Result<ShellOutputView, Seq<char>>,
) -> (ExecutionView, StepView) {
    let t = s.tests[s.results.len() as int];
    next_test_spec(
        s.cmd,
        s.runner,
        s.tests,
        s.results.push(test_outcome(t, start, end, run)),
        seq![
            LineView::Text(
                if run_passed(run) {
                    TEST_PASSED_LINE@
                } else {
                    TEST_FAILED_LINE@
                },
            ),
            LineView::Elapsed(time_usage(start, end)),
        ],
    )
}

/// How the session answers an event it waits for.
pub open spec fn resume_spec(s: ExecutionView, e: EventView) -> (ExecutionView, StepView) {
    match e {
        EventView::Aborted(t) => finish_spec(
            s.cmd,
            s.runner,
            s.tests,
            s.results,
            Seq::empty(),
            Err(ExecErrorView::Io(t)),
        ),
        EventView::Shell(run) => match s.stage {
            Stage::SimulatorCheck => on_simulator_check(s, run),
            Stage::SimulatorBoot => on_simulator_boot(s, run),
            Stage::EmulatorCheck => on_emulator_check(s, run),
            Stage::EmulatorBoot => on_emulator_boot(s, run),
            Stage::EmulatorRecheck => on_emulator_recheck(s, run),
            Stage::EmulatorProbe => on_emulator_probe(s, run),
            _ => on_simulator_probe(s, run),
        },
        EventView::Slept => match s.stage {
            Stage::SimulatorWait => after_device_spec(s.cmd, s.runner, one_line(BOOTED_LINE@)),
            _ => (
                waiting(s.cmd, s.runner, Stage::EmulatorRecheck),
                step(Seq::empty(), EffectView::Shell(ADB_DEVICES_COMMAND@)),
            ),
        },
        EventView::TestFinished(start, end, run) => on_test_finished(s, start, end, run),
        EventView::Reported(r) => match r {
            Ok(()) => finish_spec(s.cmd, s.runner, s.tests, s.results, Seq::empty(), Ok(())),
            Err(t) => finish_spec(
                s.cmd,
                s.runner,
                s.tests,
                s.results,
                Seq::empty(),
                Err(ExecErrorView::Io(t)),
            ),
        },
    }
}

/// How many more steps the session can take at most: the stages left
/// before the device is there, the tests left, and the report.
pub open spec fn steps_left(s: ExecutionView) -> nat {
    let planned = selected_tests(s.cmd.tests, s.cmd.path).len();
    match s.stage {
        Stage::Finished => 0,
        Stage::Reporting => 1,
        Stage::Testing => (1 + s.tests.len() - s.results.len()) as nat,
        Stage::SimulatorWait | Stage::EmulatorRecheck | Stage::EmulatorProbe
        | Stage::SimulatorProbe => 2 + planned,
        Stage::SimulatorBoot | Stage::EmulatorWait => 3 + planned,
        Stage::SimulatorCheck | Stage::EmulatorBoot => 4 + planned,
        Stage::EmulatorCheck => 5 + planned,
    }
}

/// What every step of a session guarantees: the session stays well formed
/// (see `session_wf`), finishes exactly when it says so, accepts whatever
/// answers the effect it asks for, and asks for the report only once every
/// chosen test has its outcome, in order.
pub open spec fn step_guarantees(s: ExecutionView, st: StepView) -> bool {
    &&& session_wf(s)
    &&& (st.effect is Finish <==> s.stage is Finished)
    &&& forall|e: EventView| answers(st.effect, e) ==> #[trigger] awaits(s.stage, e)
    &&& (st.effect is GenerateReport ==> s.results.len() == s.tests.len())
}

impl Execution {
    #[verifier::type_invariant]
    closed spec fn wf(self) -> bool {
        session_wf(self@)
    }

    /// Builds a session; only for states that are well formed.
    fn make(
        cmd: Command,
        runner: Runner,
        stage: Stage,
        tests: Vec<String>,
        results: Vec<TestResult>,
    ) -> (e: Execution)
        requires
            session_wf(session(cmd@, runner@, stage, tests.deep_view(), results.deep_view())),
        ensures
            e@ == session(cmd@, runner@, stage, tests.deep_view(), results.deep_view()),
    {
        Execution { cmd, runner, stage, tests, results }
    }

    /// A session that waits for its device.
    fn waiting(cmd: Command, runner: Runner, stage: Stage) -> (e: Execution)
        requires
            device_stage(stage),
            runner_matches(cmd@, runner@),
            (stage is EmulatorProbe || stage is SimulatorProbe) ==> cmd@.device_name.len() == 0,
        ensures
            e@ == waiting(cmd@, runner@, stage),
    {
        let tests: Vec<String> = Vec::new();
        let results: Vec<TestResult> = Vec::new();
        assert(tests.deep_view() =~= Seq::<Seq<char>>::empty());
        assert(results.deep_view() =~= Seq::<ResultView>::empty());
        Self::make(cmd, runner, stage, tests, results)
    }

    /// The command, with its report name settled once the device is there.
    pub fn command(&self) -> (c: &Command)
        ensures
            c@ == self@.cmd,
    {
        &self.cmd
    }

    /// The runner tests are run with.
    pub fn runner(&self) -> (r: &Runner)
        ensures
            r@ == self@.runner,
    {
        &self.runner
    }

    /// The outcomes of the tests run so far, in order.
    pub fn results(&self) -> (r: &Vec<TestResult>)
        ensures
            r.deep_view() == self@.results,
    {
        &self.results
    }

    /// The stage the session is at.
    pub fn stage(&self) -> (s: Stage)
        ensures
            s == self@.stage,
    {
        self.stage
    }

    /// Whether the session waits for this kind of event.
    pub fn awaits(&self, e: &Event) -> (b: bool)
        ensures
            b == awaits(self@.stage, e@),
    {
        match e {
            Event::Aborted(_) => !matches!(self.stage, Stage::Finished),
            Event::Shell(_) => matches!(
                self.stage,
                Stage::SimulatorCheck | Stage::SimulatorBoot | Stage::EmulatorCheck
                    | Stage::EmulatorBoot | Stage::EmulatorRecheck | Stage::EmulatorProbe
                    | Stage::SimulatorProbe
            ),
            Event::Slept => matches!(self.stage, Stage::SimulatorWait | Stage::EmulatorWait),
            Event::TestFinished(_, _, _) => matches!(self.stage, Stage::Testing),
            Event::Reported(_) => matches!(self.stage, Stage::Reporting),
        }
    }
}

/// The simulator models looked for.
fn simulator_range() -> (r: IosRange)
    ensures
        r.min == IOS_MIN_GENERATION,
        r.max == IOS_MAX_GENERATION,
{
    IosRange { min: IOS_MIN_GENERATION, max: IOS_MAX_GENERATION }
}

/// The emulator started and looked for, named after the command's device.
fn emulator_for(cmd: &Command) -> (a: Android)
    ensures
        a.port == EMULATOR_PORT,
        a.device@ == cmd.device_name@,
{
    Android { port: EMULATOR_PORT, device: cmd.device_name.clone() }
}

/// A list of one line of text.
fn one_text(t: String) -> (lines: Vec<Line>)
    ensures
        lines.deep_view() == one_line(t@),
{
    let mut lines: Vec<Line> = Vec::new();
    lines.push(Line::Text(t));
    assert(lines.deep_view() =~= one_line(t@));
    lines
}

/// Appends a line of text.
fn push_text(lines: &mut Vec<Line>, t: String)
    ensures
        final(lines).deep_view() == old(lines).deep_view().push(LineView::Text(t@)),
{
    let ghost before = lines.deep_view();
    lines.push(Line::Text(t));
    assert(lines.deep_view() =~= before.push(LineView::Text(t@)));
}

/// Ends the session.
fn finish(
    cmd: Command,
    runner: Runner,
    tests: Vec<String>,
    results: Vec<TestResult>,
    lines: Vec<Line>,
    outcome: Result<(), ExecError>,
) -> (r: (Execution, Step))
    requires
        outcomes_follow_tests(tests.deep_view(), results.deep_view()),
        runner_matches(cmd@, runner@),
    ensures
        (r.0@, r.1@) == finish_spec(
            cmd@,
            runner@,
            tests.deep_view(),
            results.deep_view(),
            lines.deep_view(),
            match outcome {
                Ok(()) => Ok(()),
                Err(e) => Err(e@),
            },
        ),
{
    let ex = Execution::make(cmd, runner, Stage::Finished, tests, results);
    (ex, Step { lines, effect: Effect::Finish(outcome) })
}

/// Goes on with the next test, or asks for the report.
fn next_test(
    cmd: Command,
    runner: Runner,
    tests: Vec<String>,
    results: Vec<TestResult>,
    lines: Vec<Line>,
) -> (r: (Execution, Step))
    requires
        outcomes_follow_tests(tests.deep_view(), results.deep_view()),
        runner_matches(cmd@, runner@),
        runs_selected_tests(cmd@, runner@, tests.deep_view()),
    ensures
        (r.0@, r.1@) == next_test_spec(
            cmd@,
            runner@,
            tests.deep_view(),
            results.deep_view(),
            lines.deep_view(),
        ),
{
    let ghost given = lines.deep_view();
    let mut lines = lines;
    if results.len() < tests.len() {
        let i = results.len();
        let inv = runner.invocation(tests[i].as_str());
        push_text(&mut lines, String::from_str("Testing ").concat(tests[i].as_str()));
        push_text(&mut lines, String::from_str("├── ").concat(inv.display.as_str()));
        push_text(&mut lines, String::from_str("├── ..."));
        let ghost shown = lines.deep_view();
        let ex = Execution::make(cmd, runner, Stage::Testing, tests, results);
        let st = Step { lines, effect: Effect::RunTest(inv) };
        proof {
            let t = tests.deep_view()[i as int];
            assert(shown =~= given + seq![
                LineView::Text("Testing "@ + t),
                LineView::Text("├── "@ + invocation_of(runner@, t).display),
                LineView::Text("├── ..."@),
            ]);
        }
        (ex, st)
    } else {
        let file_name = cmd.report.clone();
        let ex = Execution::make(cmd, runner, Stage::Reporting, tests, results);
        (ex, Step { lines, effect: Effect::GenerateReport(file_name) })
    }
}

/// Once the device is there: picks the flavor, the report file and the
/// tests, and starts the first test.
fn after_device(cmd: Command, runner: Runner, lines: Vec<Line>) -> (r: (Execution, Step))
    requires
        runner_matches(cmd@, runner@),
    ensures
        (r.0@, r.1@) == after_device_spec(cmd@, runner@, lines.deep_view()),
{
    let mut cmd = cmd;
    let mut runner = runner;
    let mut lines = lines;
    match choose_flavor(cmd.flavor.as_str(), cmd.platform.as_str()) {
        None => {
            let tests: Vec<String> = Vec::new();
            let results: Vec<TestResult> = Vec::new();
            assert(tests.deep_view() =~= Seq::<Seq<char>>::empty());
            assert(results.deep_view() =~= Seq::<ResultView>::empty());
            finish(cmd, runner, tests, results, lines, Err(ExecError::FlavorNotFound))
        },
        Some(f) => {
            runner.flavor = f;
            cmd.report = report_file_name(cmd.report.as_str(), cmd.platform.as_str());
            let tests = select_tests(&cmd.tests, cmd.path.as_str());
            let mut message = String::from_str("Run ");
            push_decimal(&mut message, tests.len() as u64);
            let message = message.concat(" tests on ").concat(runner.device_name.as_str());
            push_text(&mut lines, message);
            let results: Vec<TestResult> = Vec::new();
            assert(results.deep_view() =~= Seq::<ResultView>::empty());
            next_test(cmd, runner, tests, results, lines)
        },
    }
}


/// Going on with the next test keeps the guarantees, and leaves at most
/// one step per test without an outcome plus the report.
proof fn lemma_next_test(
    c: CommandView,
    r: RunnerView,
    tests: Seq<Seq<char>>,
    results: Seq<ResultView>,
    lines: Seq<LineView>,
)
    requires
        outcomes_follow_tests(tests, results),
        runner_matches(c, r),
        runs_selected_tests(c, r, tests),
    ensures
        step_guarantees(next_test_spec(c, r, tests, results, lines).0, next_test_spec(c, r, tests, results, lines).1),
        steps_left(next_test_spec(c, r, tests, results, lines).0) <= 1 + tests.len() - results.len(),
        next_test_spec(c, r, tests, results, lines).0.cmd == c,
{
}

/// Once the device is there, the guarantees hold, and at most one step per
/// chosen test plus the report is left.
proof fn lemma_after_device(c: CommandView, r: RunnerView, lines: Seq<LineView>)
    requires
        runner_matches(c, r),
    ensures
        step_guarantees(after_device_spec(c, r, lines).0, after_device_spec(c, r, lines).1),
        steps_left(after_device_spec(c, r, lines).0) <= 1 + selected_tests(c.tests, c.path).len(),
{
    match flavor_choice(c.flavor, c.platform) {
        None => {},
        Some(f) => {
            let r2 = RunnerView { flavor: f, ..r };
            let c2 = CommandView { report: report_name(c.report, c.platform), ..c };
            let tests = selected_tests(c.tests, c.path);
            let lines2 = lines.push(
                LineView::Text("Run "@ + decimal(tests.len()) + " tests on "@ + r2.device_name),
            );
            lemma_next_test(c2, r2, tests, Seq::empty(), lines2);
        },
    }
}

/// A session begins with the guarantees in place.
proof fn lemma_start_guarantees(c: CommandView)
    ensures
        step_guarantees(start_spec(c).0, start_spec(c).1),
        steps_left(start_spec(c).0) <= 5 + selected_tests(c.tests, c.path).len(),
{
    let r = initial_runner(c);
    lemma_after_device(c, RunnerView { device_name: c.device_name, ..r }, Seq::empty());
}

impl Execution {
    /// Begins a session for the command.
    pub fn start(cmd: Command) -> (r: (Execution, Step))
        ensures
            (r.0@, r.1@) == start_spec(cmd@),
            step_guarantees(r.0@, r.1@),
            steps_left(r.0@) <= 5 + selected_tests(cmd@.tests, cmd@.path).len(),
    {
        let mut runner = Runner {
            vm: cmd.vm.clone(),
            flavor: String::new(),
            device_id: copy_optional(&cmd.device_id),
            device_name: String::new(),
            test_type: cmd.test_type.clone(),
        };
        let r = if !cmd.device_name.as_str().is_empty() {
            runner.device_name = cmd.device_name.clone();
            if cmd.is_ios() {
                let mut lines = one_text(String::from_str("iOS Simulator"));
                push_text(
                    &mut lines,
                    String::from_str("Boot simulator ").concat(cmd.device_name.as_str()),
                );
                let query = simulator_range().simulator_running_by_device_command(
                    cmd.device_name.as_str(),
                );
                proof {
                    assert(lines.deep_view() =~= seq![
                        LineView::Text("iOS Simulator"@),
                        LineView::Text("Boot simulator "@ + cmd@.device_name),
                    ]);
                }
                (Self::waiting(cmd, runner, Stage::SimulatorCheck), Step { lines, effect: Effect::Shell(query) })
            } else if cmd.is_android() {
                let mut lines = one_text(String::from_str("Android Emulator"));
                push_text(
                    &mut lines,
                    String::from_str("Boot emulator ").concat(cmd.device_name.as_str()),
                );
                proof {
                    assert(lines.deep_view() =~= seq![
                        LineView::Text("Android Emulator"@),
                        LineView::Text("Boot emulator "@ + cmd@.device_name),
                    ]);
                }
                (
                    Self::waiting(cmd, runner, Stage::EmulatorCheck),
                    Step { lines, effect: Effect::Shell(String::from_str(ADB_DEVICES_COMMAND)) },
                )
            } else {
                let lines: Vec<Line> = Vec::new();
                assert(lines.deep_view() =~= Seq::<LineView>::empty());
                after_device(cmd, runner, lines)
            }
        } else if cmd.is_android() {
            let lines: Vec<Line> = Vec::new();
            assert(lines.deep_view() =~= Seq::<LineView>::empty());
            (
                Self::waiting(cmd, runner, Stage::EmulatorProbe),
                Step { lines, effect: Effect::Shell(String::from_str(ADB_DEVICES_COMMAND)) },
            )
        } else if cmd.is_ios() {
            let lines: Vec<Line> = Vec::new();
            assert(lines.deep_view() =~= Seq::<LineView>::empty());
            let query = simulator_range().simulator_running_command();
            (
                Self::waiting(cmd, runner, Stage::SimulatorProbe),
                Step { lines, effect: Effect::Shell(query) },
            )
        } else {
            let lines: Vec<Line> = Vec::new();
            let tests: Vec<String> = Vec::new();
            let results: Vec<TestResult> = Vec::new();
            assert(lines.deep_view() =~= Seq::<LineView>::empty());
            assert(tests.deep_view() =~= Seq::<Seq<char>>::empty());
            assert(results.deep_view() =~= Seq::<ResultView>::empty());
            finish(cmd, runner, tests, results, lines, Err(ExecError::DeviceNotFound))
        };
        proof {
            lemma_start_guarantees(cmd@);
        }
        r
    }
}

/// No lines.
fn no_lines() -> (lines: Vec<Line>)
    ensures
        lines.deep_view() == Seq::<LineView>::empty(),
{
    let lines: Vec<Line> = Vec::new();
    assert(lines.deep_view() =~= Seq::<LineView>::empty());
    lines
}

/// See `on_simulator_check`.
fn simulator_checked(cmd: Command, runner: Runner, run: Result<ShellOutput, String>) -> (r: (
    Execution,
    Step,
))
    requires
        runner_matches(cmd@, runner@),
    ensures
        (r.0@, r.1@) == on_simulator_check(
            waiting(cmd@, runner@, Stage::SimulatorCheck),
            run_view(&run),
        ),
{
    let ios = simulator_range();
    match ios.simulator_running_by_device_outcome(run) {
        Err(_) => {
            let boot = ios.boot_simulator_command(cmd.device_name.as_str());
            (
                Execution::waiting(cmd, runner, Stage::SimulatorBoot),
                Step { lines: no_lines(), effect: Effect::Shell(boot) },
            )
        },
        Ok(()) => after_device(cmd, runner, one_text(String::from_str(BOOTED_LINE))),
    }
}

/// See `on_simulator_boot`.
fn simulator_booted(cmd: Command, runner: Runner, run: Result<ShellOutput, String>) -> (r: (
    Execution,
    Step,
))
    requires
        runner_matches(cmd@, runner@),
    ensures
        (r.0@, r.1@) == on_simulator_boot(
            waiting(cmd@, runner@, Stage::SimulatorBoot),
            run_view(&run),
        ),
{
    let ios = simulator_range();
    match ios.boot_simulator_outcome(cmd.device_name.as_str(), run) {
        Err(e) => {
            let tests: Vec<String> = Vec::new();
            let results: Vec<TestResult> = Vec::new();
            assert(tests.deep_view() =~= Seq::<Seq<char>>::empty());
            assert(results.deep_view() =~= Seq::<ResultView>::empty());
            finish(cmd, runner, tests, results, no_lines(), Err(ExecError::Platform(e)))
        },
        Ok(()) => (
            Execution::waiting(cmd, runner, Stage::SimulatorWait),
            Step {
                lines: one_text(String::from_str(BOOTING_LINE)),
                effect: Effect::Sleep(BOOT_WAIT_SECS),
            },
        ),
    }
}

/// See `on_emulator_check`.
fn emulator_checked(cmd: Command, runner: Runner, run: Result<ShellOutput, String>) -> (r: (
    Execution,
    Step,
))
    requires
        runner_matches(cmd@, runner@),
    ensures
        (r.0@, r.1@) == on_emulator_check(
            waiting(cmd@, runner@, Stage::EmulatorCheck),
            run_view(&run),
        ),
{
    let android = emulator_for(&cmd);
    match android.emulator_running_outcome(run) {
        Err(_) => {
            let boot = android.boot_emulator_command();
            (
                Execution::waiting(cmd, runner, Stage::EmulatorBoot),
                Step { lines: no_lines(), effect: Effect::SpawnShell(boot) },
            )
        },
        Ok(_) => after_device(cmd, runner, one_text(String::from_str(BOOTED_LINE))),
    }
}

/// See `on_emulator_boot`.
fn emulator_booted(cmd: Command, runner: Runner, run: Result<ShellOutput, String>) -> (r: (
    Execution,
    Step,
))
    requires
        runner_matches(cmd@, runner@),
    ensures
        (r.0@, r.1@) == on_emulator_boot(
            waiting(cmd@, runner@, Stage::EmulatorBoot),
            run_view(&run),
        ),
{
    let android = emulator_for(&cmd);
    let mut lines = match android.boot_emulator_outcome(run) {
        Err(e) => one_text(String::from_str("└── ").concat(e.message().as_str())),
        Ok(()) => no_lines(),
    };
    let ghost shown = lines.deep_view();
    push_text(&mut lines, String::from_str(BOOTING_LINE));
    assert(lines.deep_view() =~= shown + one_line(BOOTING_LINE@));
    (
        Execution::waiting(cmd, runner, Stage::EmulatorWait),
        Step { lines, effect: Effect::Sleep(BOOT_WAIT_SECS) },
    )
}

/// See `on_emulator_recheck`.
fn emulator_rechecked(cmd: Command, runner: Runner, run: Result<ShellOutput, String>) -> (r: (
    Execution,
    Step,
))
    requires
        runner_matches(cmd@, runner@),
    ensures
        (r.0@, r.1@) == on_emulator_recheck(
            waiting(cmd@, runner@, Stage::EmulatorRecheck),
            run_view(&run),
        ),
{
    let android = emulator_for(&cmd);
    match android.emulator_running_outcome(run) {
        Err(_) => after_device(cmd, runner, one_text(String::from_str(FAILED_LINE))),
        Ok(_) => after_device(cmd, runner, one_text(String::from_str(BOOTED_LINE))),
    }
}

/// See `on_emulator_probe`.
fn emulator_probed(cmd: Command, runner: Runner, run: Result<ShellOutput, String>) -> (r: (
    Execution,
    Step,
))
    requires
        runner_matches(cmd@, runner@),
        cmd@.device_name.len() == 0,
    ensures
        (r.0@, r.1@) == on_emulator_probe(
            waiting(cmd@, runner@, Stage::EmulatorProbe),
            run_view(&run),
        ),
{
    let android = emulator_for(&cmd);
    let mut runner = runner;
    match android.emulator_running_outcome(run) {
        Ok(name) => {
            runner.device_name = name;
            after_device(cmd, runner, no_lines())
        },
        Err(_) => after_device(cmd, runner, no_lines()),
    }
}

/// See `on_simulator_probe`.
fn simulator_probed(cmd: Command, runner: Runner, run: Result<ShellOutput, String>) -> (r: (
    Execution,
    Step,
))
    requires
        runner_matches(cmd@, runner@),
        cmd@.device_name.len() == 0,
    ensures
        (r.0@, r.1@) == on_simulator_probe(
            waiting(cmd@, runner@, Stage::SimulatorProbe),
            run_view(&run),
        ),
{
    let ios = simulator_range();
    let mut runner = runner;
    match ios.simulator_running_outcome(run) {
        Ok(name) => {
            runner.device_name = name;
            after_device(cmd, runner, no_lines())
        },
        Err(_) => after_device(cmd, runner, no_lines()),
    }
}

/// See `on_test_finished`.
fn test_finished(
    cmd: Command,
    runner: Runner,
    tests: Vec<String>,
    results: Vec<TestResult>,
    start: Timestamp,
    end: Timestamp,
    run: Result<ShellOutput, String>,
) -> (r: (Execution, Step))
    requires
        session_wf(session(cmd@, runner@, Stage::Testing, tests.deep_view(), results.deep_view())),
    ensures
        (r.0@, r.1@) == on_test_finished(
            session(cmd@, runner@, Stage::Testing, tests.deep_view(), results.deep_view()),
            start@,
            end@,
            run_view(&run),
        ),
{
    let i = results.len();
    let ghost ran = run_view(&run);
    let passed = Runner::passed(&run);
    let outcome = Runner::finish(tests[i].as_str(), start, end, run);
    assert(tests.deep_view()[i as int] == tests@[i as int]@);
    assert(outcome@ == test_outcome(tests.deep_view()[i as int], start@, end@, ran));
    let usage = outcome.get_time_usage();
    let mut lines = one_text(
        if passed {
            String::from_str(TEST_PASSED_LINE)
        } else {
            String::from_str(TEST_FAILED_LINE)
        },
    );
    let ghost shown = lines.deep_view();
    lines.push(Line::Elapsed(usage));
    assert(lines.deep_view() =~= shown.push(LineView::Elapsed(usage)));
    let ghost before = results.deep_view();
    let mut results = results;
    results.push(outcome);
    proof {
        assert(results.deep_view() =~= before.push(outcome@));
        assert forall|k: int| 0 <= k < results.deep_view().len() implies #[trigger] results.deep_view()[k].test
            == tests.deep_view()[k] by {
            if k < i {
                assert(results.deep_view()[k] == before[k]);
            }
        }
    }
    assert(lines.deep_view() =~= seq![
        LineView::Text(
            if run_passed(ran) {
                TEST_PASSED_LINE@
            } else {
                TEST_FAILED_LINE@
            },
        ),
        LineView::Elapsed(time_usage(start@, end@)),
    ]);
    next_test(cmd, runner, tests, results, lines)
}

/// Every step keeps the guarantees and brings the session closer to its end.
proof fn lemma_resume(s: ExecutionView, e: EventView)
    requires
        session_wf(s),
        awaits(s.stage, e),
    ensures
        step_guarantees(resume_spec(s, e).0, resume_spec(s, e).1),
        steps_left(resume_spec(s, e).0) < steps_left(s),
{
    let c = s.cmd;
    let r = s.runner;
    match e {
        EventView::Aborted(_) => {},
        EventView::Shell(run) => {
            lemma_after_device(c, r, one_line(BOOTED_LINE@));
            lemma_after_device(c, r, one_line(FAILED_LINE@));
            lemma_after_device(c, r, Seq::empty());
            if s.stage is EmulatorProbe {
                if let Ok(name) = emulator_running_result(EMULATOR_PORT, run) {
                    lemma_after_device(c, RunnerView { device_name: name, ..r }, Seq::empty());
                }
            }
            if s.stage is SimulatorProbe {
                if let Ok(name) = simulator_running_result(run) {
                    lemma_after_device(c, RunnerView { device_name: name, ..r }, Seq::empty());
                }
            }
        },
        EventView::Slept => {
            lemma_after_device(c, r, one_line(BOOTED_LINE@));
        },
        EventView::TestFinished(start, end, run) => {
            let t = s.tests[s.results.len() as int];
            let results2 = s.results.push(test_outcome(t, start, end, run));
            assert forall|k: int| 0 <= k < results2.len() implies #[trigger] results2[k].test
                == s.tests[k] by {
                if k < s.results.len() {
                    assert(results2[k] == s.results[k]);
                }
            }
            let lines = seq![
                LineView::Text(
                    if run_passed(run) {
                        TEST_PASSED_LINE@
                    } else {
                        TEST_FAILED_LINE@
                    },
                ),
                LineView::Elapsed(time_usage(start, end)),
            ];
            lemma_next_test(c, r, s.tests, results2, lines);
        },
        EventView::Reported(_) => {},
    }
}

/// On Android and iOS a session never lacks a device or a flavor: it does
/// not end at its start for want of a device, and a flavor is always chosen.
pub proof fn lemma_supported_platform_choices(c: CommandView)
    requires
        c.platform == ANDROID@ || c.platform == IOS@,
    ensures
        flavor_choice(c.flavor, c.platform) is Some,
        !(start_spec(c).1.effect matches EffectView::Finish(Err(ExecErrorView::DeviceNotFound))),
{
    crate::command::lemma_platforms_exclusive(c);
}

/// A device that is already up is not booted again: when the named
/// simulator is listed as booted, or the emulator is listed by `adb`, the
/// session goes straight on to the tests (or the report, when there are
/// none).
pub proof fn lemma_running_device_not_booted(s: ExecutionView, run: Result<ShellOutputView, Seq<char>>)
    requires
        s.cmd.platform == ANDROID@ || s.cmd.platform == IOS@,
    ensures
        booted_listing_result(run) is Ok ==> (on_simulator_check(s, run).1.effect is RunTest
            || on_simulator_check(s, run).1.effect is GenerateReport),
        emulator_running_result(EMULATOR_PORT, run) is Ok ==> (on_emulator_check(s, run).1.effect is RunTest
            || on_emulator_check(s, run).1.effect is GenerateReport),
{
    lemma_supported_platform_choices(s.cmd);
}

impl Execution {
    /// Answers the event the session waits for, and says what comes next.
    /// Every answer brings the session closer to its end (`steps_left`
    /// falls), so every session finishes.
    pub fn resume(self, e: Event) -> (r: (Execution, Step))
        requires
            awaits(self@.stage, e@),
        ensures
            (r.0@, r.1@) == resume_spec(self@, e@),
            step_guarantees(r.0@, r.1@),
            steps_left(r.0@) < steps_left(self@),
    {
        proof {
            use_type_invariant(&self);
            lemma_resume(self@, e@);
        }
        let ghost s = self@;
        let Execution { cmd, runner, stage, tests, results } = self;
        match e {
            Event::Aborted(t) => finish(cmd, runner, tests, results, no_lines(), Err(ExecError::Io(t))),
            Event::Shell(run) => match stage {
                Stage::SimulatorCheck => simulator_checked(cmd, runner, run),
                Stage::SimulatorBoot => simulator_booted(cmd, runner, run),
                Stage::EmulatorCheck => emulator_checked(cmd, runner, run),
                Stage::EmulatorBoot => emulator_booted(cmd, runner, run),
                Stage::EmulatorRecheck => emulator_rechecked(cmd, runner, run),
                Stage::EmulatorProbe => emulator_probed(cmd, runner, run),
                _ => simulator_probed(cmd, runner, run),
            },
            Event::Slept => match stage {
                Stage::SimulatorWait => after_device(cmd, runner, one_text(String::from_str(BOOTED_LINE))),
                _ => (
                    Execution::waiting(cmd, runner, Stage::EmulatorRecheck),
                    Step {
                        lines: no_lines(),
                        effect: Effect::Shell(String::from_str(ADB_DEVICES_COMMAND)),
                    },
                ),
            },
            Event::TestFinished(start, end, run) => test_finished(
                cmd,
                runner,
                tests,
                results,
                start,
                end,
                run,
            ),
            Event::Reported(outcome) => match outcome {
                Ok(()) => finish(cmd, runner, tests, results, no_lines(), Ok(())),
                Err(t) => finish(cmd, runner, tests, results, no_lines(), Err(ExecError::Io(t))),
            },
        }
    }
}

/// When the boot command for the named simulator succeeds (it exits
/// successfully and writes nothing to stderr), the session pauses for the
/// boot and goes on; it ends with a boot failure only when the boot command
/// could not run, exited unsuccessfully, or wrote to stderr.
pub proof fn lemma_successful_boot_waits(s: ExecutionView, run: Result<ShellOutputView, Seq<char>>)
    requires
        s.stage is SimulatorBoot,
    ensures
        (run matches Ok(out) && out.success && out.stderr.len() == 0) ==> {
            &&& resume_spec(s, EventView::Shell(run)).1.effect == EffectView::Sleep(BOOT_WAIT_SECS)
            &&& resume_spec(s, EventView::Shell(run)).1.lines == seq![LineView::Text(BOOTING_LINE@)]
            &&& resume_spec(s, EventView::Shell(run)).0.stage is SimulatorWait
        },
        resume_spec(s, EventView::Shell(run)).1.effect is Finish ==> {
            &&& resume_spec(s, EventView::Shell(run)).1.effect == EffectView::Finish(
                Err(
                    ExecErrorView::Platform(
                        match run {
                            Ok(_) => PlatformErrorView::SimulatorBootFailed(s.cmd.device_name),
                            Err(t) => PlatformErrorView::Io(t),
                        },
                    ),
                ),
            )
            &&& !(run matches Ok(out) && out.success && out.stderr.len() == 0)
        },
{
}

} // verus!
