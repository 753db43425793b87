//! Device platforms: the per-platform configuration read from the config
//! file, and the errors that the emulator and simulator commands report.
pub mod android;
pub mod ios;

use vstd::prelude::*;

verus! {

/// The platform name that selects Android emulators.
pub const ANDROID: &'static str = "android";

/// The platform name that selects iOS simulators.
pub const IOS: &'static str = "ios";

/// The device settings of one platform in the config file.
#[derive(Debug)]
pub struct Platform {
    pub flavor: String,
    /// Never read from the config file.
    pub mode: String,
    pub device_id: Option<String>,
    pub device_name: String,
}

/// Plain-value view of a `Platform`.
pub struct PlatformView {
    pub flavor: Seq<char>,
    pub mode: Seq<char>,
    pub device_id: Option<Seq<char>>,
    pub device_name: Seq<char>,
}

impl View for Platform {
    type V = PlatformView;

    open spec fn view(&self) -> PlatformView {
        PlatformView {
            flavor: self.flavor@,
            mode: self.mode@,
            device_id: self.device_id.deep_view(),
            device_name: self.device_name@,
        }
    }
}

impl Platform {
    /// The view of the settings that `new` makes.
    pub open spec fn new_view() -> PlatformView {
        PlatformView {
            flavor: Seq::empty(),
            mode: Seq::empty(),
            device_id: Some(Seq::empty()),
            device_name: Seq::empty(),
        }
    }

    /// Settings with every text empty and an empty device id present.
    pub fn new() -> (p: Platform)
        ensures
            p@ == Platform::new_view(),
    {
        Platform {
            flavor: String::new(),
            mode: String::new(),
            device_id: Some(String::new()),
            device_name: String::new(),
        }
    }
}

/// Why an emulator or simulator command did not give what was asked of it.
#[derive(Debug)]
pub enum PlatformError {
    /// The shell could not be started; holds the system's error text.
    Io(String),
    /// The emulator for the named device did not start.
    EmulatorStartFailed(String),
    /// The list of virtual devices could not be read.
    ListAvdsFailed,
    /// `adb devices` did not succeed.
    AdbDevicesFailed,
    /// No emulator answers on the expected port.
    EmulatorNotRunning,
    /// The named simulator could not be booted.
    SimulatorBootFailed(String),
    /// No booted simulator was listed.
    NoSimulatorRunning,
    /// Booted simulators were listed but none is a known iPhone model.
    NoSimulatorFound,
}

/// Plain-value view of a `PlatformError`.
pub enum PlatformErrorView {
    Io(Seq<char>),
    EmulatorStartFailed(Seq<char>),
    ListAvdsFailed,
    AdbDevicesFailed,
    EmulatorNotRunning,
    SimulatorBootFailed(Seq<char>),
    NoSimulatorRunning,
    NoSimulatorFound,
}

impl View for PlatformError {
    type V = PlatformErrorView;

    open spec fn view(&self) -> PlatformErrorView {
        match self {
            PlatformError::Io(e) => PlatformErrorView::Io(e@),
            PlatformError::EmulatorStartFailed(d) => PlatformErrorView::EmulatorStartFailed(d@),
            PlatformError::ListAvdsFailed => PlatformErrorView::ListAvdsFailed,
            PlatformError::AdbDevicesFailed => PlatformErrorView::AdbDevicesFailed,
            PlatformError::EmulatorNotRunning => PlatformErrorView::EmulatorNotRunning,
            PlatformError::SimulatorBootFailed(d) => PlatformErrorView::SimulatorBootFailed(d@),
            PlatformError::NoSimulatorRunning => PlatformErrorView::NoSimulatorRunning,
            PlatformError::NoSimulatorFound => PlatformErrorView::NoSimulatorFound,
        }
    }
}

/// The text that describes an error to the user.
pub open spec fn platform_error_text(e: PlatformErrorView) -> Seq<char> {
    match e {
        PlatformErrorView::Io(t) => t,
        PlatformErrorView::EmulatorStartFailed(d) => "Failed to start emulator for device: "@ + d,
        PlatformErrorView::ListAvdsFailed => "Failed to list AVDs"@,
        PlatformErrorView::AdbDevicesFailed => "Failed to executor adb devices"@,
        PlatformErrorView::EmulatorNotRunning => "Emulator is not running."@,
        PlatformErrorView::SimulatorBootFailed(d) => "Can't boot simulator "@ + d,
        PlatformErrorView::NoSimulatorRunning => "No simulators are currently running"@,
        PlatformErrorView::NoSimulatorFound =>
            "No simulators are currently running, Please run simulator manually"@,
    }
}

impl PlatformError {
    /// The text that describes the error to the user.
    pub fn message(&self) -> (m: String)
        ensures
            m@ == platform_error_text(self@),
    {
        match self {
            PlatformError::Io(e) => e.clone(),
            PlatformError::EmulatorStartFailed(d) => {
                String::from_str("Failed to start emulator for device: ").concat(d.as_str())
            },
            PlatformError::ListAvdsFailed => String::from_str("Failed to list AVDs"),
            PlatformError::AdbDevicesFailed => String::from_str("Failed to executor adb devices"),
            PlatformError::EmulatorNotRunning => String::from_str("Emulator is not running."),
            PlatformError::SimulatorBootFailed(d) => {
                String::from_str("Can't boot simulator ").concat(d.as_str())
            },
            PlatformError::NoSimulatorRunning => {
                String::from_str("No simulators are currently running")
            },
            PlatformError::NoSimulatorFound => {
                String::from_str(
                    "No simulators are currently running, Please run simulator manually",
                )
            },
        }
    }
}

} // verus!
