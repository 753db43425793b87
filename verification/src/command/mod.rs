//! The command a user runs: which platform, device, flavor, tests and report
//! it names, how the config file fills it in, and the decisions that turn
//! it into a test session (see `execution`).
pub mod execution;

use vstd::prelude::*;
use crate::platform::{ANDROID, IOS, PlatformError, PlatformErrorView, platform_error_text};
use crate::runner::{TestRunner, TestRunnerView};
use crate::text::{contains, replace_all, replace_all_in, str_contains, str_equal};

verus! {

/// The flavor used on Android when none is given.
pub const DEFAULT_ANDROID_FLAVOR: &'static str = "automateGoogle";

/// The flavor used on iOS when none is given.
pub const DEFAULT_IOS_FLAVOR: &'static str = "automate";

/// The placeholder in a report name that stands for the platform.
pub const PLATFORM_PLACEHOLDER: &'static str = "{}";

/// The suffix that marks a path as a single test file.
pub const TEST_FILE_SUFFIX: &'static str = "_test.dart";

/// What the user asked for.
#[derive(Clone, Debug)]
pub struct Command {
    pub vm: String,
    pub platform: String,
    pub flavor: String,
    pub device_id: Option<String>,
    pub device_name: String,
    /// `test_driver` or `integration_test`.
    pub test_type: String,
    pub path: String,
    pub report: String,
    pub tests: Vec<String>,
}

/// Plain-value view of a `Command`.
pub struct CommandView {
    pub vm: Seq<char>,
    pub platform: Seq<char>,
    pub flavor: Seq<char>,
    pub device_id: Option<Seq<char>>,
    pub device_name: Seq<char>,
    pub test_type: Seq<char>,
    pub path: Seq<char>,
    pub report: Seq<char>,
    pub tests: Seq<Seq<char>>,
}

impl View for Command {
    type V = CommandView;

    open spec fn view(&self) -> CommandView {
        CommandView {
            vm: self.vm@,
            platform: self.platform@,
            flavor: self.flavor@,
            device_id: self.device_id.deep_view(),
            device_name: self.device_name@,
            test_type: self.test_type@,
            path: self.path@,
            report: self.report@,
            tests: self.tests.deep_view(),
        }
    }
}

/// The command with the config file's settings laid over it: the `vm`
/// when the file names one, the report name and the tests, and the flavor
/// and device of the command's platform. On iOS the device id is taken
/// from the Android settings.
pub open spec fn configured(c: CommandView, cfg: TestRunnerView) -> CommandView {
    let base = CommandView {
        vm: match cfg.vm {
            Some(vm) => vm,
            None => c.vm,
        },
        report: cfg.report_name,
        tests: cfg.tests,
        ..c
    };
    if c.platform == ANDROID@ {
        CommandView {
            flavor: cfg.android.flavor,
            device_id: cfg.android.device_id,
            device_name: cfg.android.device_name,
            ..base
        }
    } else if c.platform == IOS@ {
        CommandView {
            flavor: cfg.ios.flavor,
            device_id: cfg.android.device_id,
            device_name: cfg.ios.device_name,
            ..base
        }
    } else {
        base
    }
}

/// The flavor tests are built with: the given one, else the platform's
/// default; none for an unknown platform without a flavor.
pub open spec fn flavor_choice(flavor: Seq<char>, platform: Seq<char>) -> Option<Seq<char>> {
    if flavor.len() != 0 {
        Some(flavor)
    } else if platform == ANDROID@ {
        Some(DEFAULT_ANDROID_FLAVOR@)
    } else if platform == IOS@ {
        Some(DEFAULT_IOS_FLAVOR@)
    } else {
        None
    }
}

/// The file the report is written to: `report-<platform>.html` when no
/// name is given, else the name with every `{}` replaced by the platform.
pub open spec fn report_name(report: Seq<char>, platform: Seq<char>) -> Seq<char> {
    if report.len() == 0 {
        "report-"@ + platform + ".html"@
    } else {
        replace_all(report, PLATFORM_PLACEHOLDER@, platform)
    }
}

/// The tests to run: the path alone when it names a test file, else the
/// configured tests.
pub open spec fn selected_tests(tests: Seq<Seq<char>>, path: Seq<char>) -> Seq<Seq<char>> {
    if contains(path, TEST_FILE_SUFFIX@) {
        seq![path]
    } else {
        tests
    }
}

/// Why a test session ended without a report.
#[derive(Debug)]
pub enum ExecError {
    /// No device was given and the platform is unknown.
    DeviceNotFound,
    /// No flavor was given and the platform is unknown.
    FlavorNotFound,
    /// The platform is neither Android nor iOS.
    Unsupported,
    /// A simulator could not be booted.
    Platform(PlatformError),
    /// An operation of the system failed; holds its error text.
    Io(String),
}

/// Plain-value view of an `ExecError`.
pub enum ExecErrorView {
    DeviceNotFound,
    FlavorNotFound,
    Unsupported,
    Platform(PlatformErrorView),
    Io(Seq<char>),
}

impl View for ExecError {
    type V = ExecErrorView;

    open spec fn view(&self) -> ExecErrorView {
        match self {
            ExecError::DeviceNotFound => ExecErrorView::DeviceNotFound,
            ExecError::FlavorNotFound => ExecErrorView::FlavorNotFound,
            ExecError::Unsupported => ExecErrorView::Unsupported,
            ExecError::Platform(e) => ExecErrorView::Platform(e@),
            ExecError::Io(t) => ExecErrorView::Io(t@),
        }
    }
}

/// The text that describes a session error to the user.
pub open spec fn exec_error_text(e: ExecErrorView) -> Seq<char> {
    match e {
        ExecErrorView::DeviceNotFound => "--device not found"@,
        ExecErrorView::FlavorNotFound => "--flavor not found"@,
        ExecErrorView::Unsupported => "Unsupported"@,
        ExecErrorView::Platform(p) => platform_error_text(p),
        ExecErrorView::Io(t) => t,
    }
}

impl ExecError {
    /// The text that describes the error to the user.
    pub fn message(&self) -> (m: String)
        ensures
            m@ == exec_error_text(self@),
    {
        match self {
            ExecError::DeviceNotFound => String::from_str("--device not found"),
            ExecError::FlavorNotFound => String::from_str("--flavor not found"),
            ExecError::Unsupported => String::from_str("Unsupported"),
            ExecError::Platform(e) => e.message(),
            ExecError::Io(t) => t.clone(),
        }
    }
}

/// The flavor tests are built with, or `None` when none can be chosen.
pub fn choose_flavor(flavor: &str, platform: &str) -> (f: Option<String>)
    ensures
        match f {
            Some(s) => flavor_choice(flavor@, platform@) == Some(s@),
            None => flavor_choice(flavor@, platform@) is None,
        },
{
    if !flavor.is_empty() {
        Some(flavor.to_owned())
    } else if str_equal(platform, ANDROID) {
        Some(String::from_str(DEFAULT_ANDROID_FLAVOR))
    } else if str_equal(platform, IOS) {
        Some(String::from_str(DEFAULT_IOS_FLAVOR))
    } else {
        None
    }
}

/// The file the report is written to.
pub fn report_file_name(report: &str, platform: &str) -> (name: String)
    ensures
        name@ == report_name(report@, platform@),
{
    if report.is_empty() {
        String::from_str("report-").concat(platform).concat(".html")
    } else {
        proof {
            reveal_strlit("{}");
        }
        replace_all_in(report, PLATFORM_PLACEHOLDER, platform)
    }
}

/// The tests to run.
pub fn select_tests(tests: &Vec<String>, path: &str) -> (selected: Vec<String>)
    ensures
        selected.deep_view() == selected_tests(tests.deep_view(), path@),
{
    if str_contains(path, TEST_FILE_SUFFIX) {
        let mut v: Vec<String> = Vec::new();
        v.push(path.to_owned());
        assert(v.deep_view() =~= seq![path@]);
        v
    } else {
        copy_texts(tests)
    }
}

/// A copy of a list of texts.
pub fn copy_texts(texts: &Vec<String>) -> (copy: Vec<String>)
    ensures
        copy.deep_view() == texts.deep_view(),
{
    let mut v: Vec<String> = Vec::new();
    let mut i: usize = 0;
    while i < texts.len()
        invariant
            i <= texts@.len(),
            v.deep_view() == texts.deep_view().take(i as int),
        decreases texts@.len() - i,
    {
        let ghost before = v.deep_view();
        let t = texts[i].clone();
        v.push(t);
        assert(v.deep_view() =~= before.push(texts@[i as int]@));
        assert(texts.deep_view().take(i + 1) =~= texts.deep_view().take(i as int).push(
            texts@[i as int]@,
        ));
        i = i + 1;
    }
    assert(texts.deep_view().take(texts@.len() as int) =~= texts.deep_view());
    v
}

/// A copy of an optional text.
pub fn copy_optional(t: &Option<String>) -> (copy: Option<String>)
    ensures
        copy.deep_view() == t.deep_view(),
{
    match t {
        Some(s) => Some(s.clone()),
        None => None,
    }
}

impl Command {
    /// Whether the command targets Android.
    pub fn is_android(&self) -> (b: bool)
        ensures
            b == (self.platform@ == ANDROID@),
    {
        str_equal(self.platform.as_str(), ANDROID)
    }

    /// Whether the command targets iOS.
    pub fn is_ios(&self) -> (b: bool)
        ensures
            b == (self.platform@ == IOS@),
    {
        str_equal(self.platform.as_str(), IOS)
    }

    /// Whether the command targets a platform tests can run on.
    pub fn is_supported(&self) -> (b: bool)
        ensures
            b == (self.platform@ == ANDROID@ || self.platform@ == IOS@),
    {
        self.is_android() || self.is_ios()
    }

    /// Lays the config file's settings over the command.
    pub fn apply_config(&mut self, cfg: &TestRunner)
        ensures
            final(self)@ == configured(old(self)@, cfg@),
    {
        match &cfg.vm {
            Some(vm) => {
                self.vm = vm.clone();
            },
            None => {},
        }
        self.report = cfg.report.name.clone();
        self.tests = copy_texts(&cfg.tests);
        if self.is_android() {
            self.flavor = cfg.device.android.flavor.clone();
            self.device_id = copy_optional(&cfg.device.android.device_id);
            self.device_name = cfg.device.android.device_name.clone();
        } else if self.is_ios() {
            self.flavor = cfg.device.ios.flavor.clone();
            self.device_id = copy_optional(&cfg.device.android.device_id);
            self.device_name = cfg.device.ios.device_name.clone();
        }
    }

    /// What running the command amounts to before any test: an error for a
    /// platform tests cannot run on.
    pub fn check_supported(&self) -> (r: Result<(), ExecError>)
        ensures
            r is Ok <==> (self.platform@ == ANDROID@ || self.platform@ == IOS@),
            r matches Err(e) ==> e@ == ExecErrorView::Unsupported,
    {
        if self.is_supported() {
            Ok(())
        } else {
            Err(ExecError::Unsupported)
        }
    }
}

/// A command targets at most one platform: Android and iOS exclude each other.
pub proof fn lemma_platforms_exclusive(c: CommandView)
    ensures
        !(c.platform == ANDROID@ && c.platform == IOS@),
{
    reveal_strlit("android");
    reveal_strlit("ios");
    if c.platform == ANDROID@ && c.platform == IOS@ {
        assert(ANDROID@.len() != IOS@.len());
    }
}

/// A report name without a `{}` placeholder is used as it is.
pub proof fn lemma_report_name_kept(report: Seq<char>, platform: Seq<char>)
    requires
        report.len() > 0,
        !contains(report, PLATFORM_PLACEHOLDER@),
    ensures
        report_name(report, platform) == report,
{
    reveal_strlit("{}");
    crate::text::lemma_replace_all_absent(report, PLATFORM_PLACEHOLDER@, platform);
}

/// Laying the same config file over a command twice gives what laying it
/// once gives: the platform stays, and every field it sets is set alike.
pub proof fn lemma_configure_idempotent(c: CommandView, cfg: TestRunnerView)
    ensures
        configured(configured(c, cfg), cfg) == configured(c, cfg),
{
}

/// Laying a config over a command takes the config's tests and report
/// name, whatever the platform, and never changes the platform.
pub proof fn lemma_configured_takes_tests(c: CommandView, cfg: TestRunnerView)
    ensures
        configured(c, cfg).tests == cfg.tests,
        configured(c, cfg).report == cfg.report_name,
        configured(c, cfg).platform == c.platform,
{
}

/// Without a report name the report file is named after the platform:
/// `report-`, the platform, then `.html`; so two platforms never share a
/// default report file.
pub proof fn lemma_default_report_name(platform: Seq<char>, other: Seq<char>)
    ensures
        report_name(Seq::empty(), platform).len() == platform.len() + 12,
        report_name(Seq::empty(), platform).subrange(0, 7) == "report-"@,
        report_name(Seq::empty(), platform).subrange(7, 7 + platform.len() as int) == platform,
        report_name(Seq::empty(), platform).subrange(
            7 + platform.len() as int,
            12 + platform.len() as int,
        ) == ".html"@,
        contains(report_name(Seq::empty(), platform), platform),
        platform != other ==> report_name(Seq::empty(), platform) != report_name(
            Seq::empty(),
            other,
        ),
{
    reveal_strlit("report-");
    reveal_strlit(".html");
    let n = report_name(Seq::empty(), platform);
    assert(n.subrange(0, 7) =~= "report-"@);
    assert(n.subrange(7, 7 + platform.len() as int) =~= platform);
    assert(n.subrange(7 + platform.len() as int, 12 + platform.len() as int) =~= ".html"@);
    assert(crate::text::occurs_at(n, platform, 7));
    if platform != other {
        let m = report_name(Seq::empty(), other);
        if n == m {
            assert(m.subrange(7, 7 + other.len() as int) =~= other);
            assert(platform.len() == other.len());
            assert(platform =~= other);
        }
    }
}

} // verus!
