//! Android emulators, driven through the SDK's `emulator` and `adb` tools.
use vstd::prelude::*;
use crate::platform::{PlatformError, PlatformErrorView};
use crate::shell::{ShellOutput, ShellOutputView, run_view};
use crate::text::{contains, decimal, str_contains, push_decimal};

verus! {

/// The shell command that lists the configured virtual devices.
pub const LIST_AVDS_COMMAND: &'static str = "~/Library/Android/sdk/emulator/emulator -list-avds";

/// The shell command that lists the devices `adb` can reach.
pub const ADB_DEVICES_COMMAND: &'static str = "~/Library/Android/sdk/platform-tools/adb devices";

/// An Android emulator: the console port it listens on and its AVD name.
#[derive(Clone, Debug)]
pub struct Android {
    pub port: u16,
    pub device: String,
}

/// Plain-value view of an `Android`.
pub struct AndroidView {
    pub port: u16,
    pub device: Seq<char>,
}

impl View for Android {
    type V = AndroidView;

    open spec fn view(&self) -> AndroidView {
        AndroidView { port: self.port, device: self.device@ }
    }
}

/// The shell command that starts the emulator for an AVD in the background.
pub open spec fn boot_emulator_command_text(device: Seq<char>) -> Seq<char> {
    "~/Library/Android/sdk/emulator/emulator -avd "@ + device + " &"@
}

/// The name `adb` gives the emulator on a console port.
pub open spec fn emulator_name_text(port: u16) -> Seq<char> {
    "emulator-"@ + decimal(port as nat)
}

/// What starting the emulator amounts to, from the shell's outcome.
pub open spec fn boot_emulator_result(
    device: Seq<char>,
    run: Result<ShellOutputView, Seq<char>>,
) -> Result<(), PlatformErrorView> {
    match run {
        Err(e) => Err(PlatformErrorView::Io(e)),
        Ok(out) => if out.success {
            Ok(())
        } else {
            Err(PlatformErrorView::EmulatorStartFailed(device))
        },
    }
}

/// The AVD list, from the outcome of the listing command.
pub open spec fn emulator_list_result(run: Result<ShellOutputView, Seq<char>>) -> Result<
    Seq<char>,
    PlatformErrorView,
> {
    match run {
        Err(e) => Err(PlatformErrorView::Io(e)),
        Ok(out) => if out.success {
            Ok(out.stdout)
        } else {
            Err(PlatformErrorView::ListAvdsFailed)
        },
    }
}

/// The running emulator's name, from the outcome of `adb devices`.
pub open spec fn emulator_running_result(
    port: u16,
    run: Result<ShellOutputView, Seq<char>>,
) -> Result<Seq<char>, PlatformErrorView> {
    match run {
        Err(e) => Err(PlatformErrorView::Io(e)),
        Ok(out) => if !out.success {
            Err(PlatformErrorView::AdbDevicesFailed)
        } else if contains(out.stdout, emulator_name_text(port)) {
            Ok(emulator_name_text(port))
        } else {
            Err(PlatformErrorView::EmulatorNotRunning)
        },
    }
}

/// The view of an outcome that carries a text.
pub open spec fn text_result_view(r: &Result<String, PlatformError>) -> Result<
    Seq<char>,
    PlatformErrorView,
> {
    match r {
        Ok(s) => Ok(s@),
        Err(e) => Err(e@),
    }
}

/// The view of an outcome that carries nothing.
pub open spec fn unit_result_view(r: &Result<(), PlatformError>) -> Result<(), PlatformErrorView> {
    match r {
        Ok(()) => Ok(()),
        Err(e) => Err(e@),
    }
}

impl Android {
    /// An emulator on port zero with no AVD name.
    pub fn new() -> (a: Android)
        ensures
            a@ == (AndroidView { port: 0, device: Seq::empty() }),
    {
        Android { port: 0, device: String::new() }
    }

    /// The shell command that starts this emulator in the background.
    pub fn boot_emulator_command(&self) -> (c: String)
        ensures
            c@ == boot_emulator_command_text(self.device@),
    {
        let c = String::from_str("~/Library/Android/sdk/emulator/emulator -avd ");
        c.concat(self.device.as_str()).concat(" &")
    }

    /// Whether the emulator started, from the outcome of the boot command.
    pub fn boot_emulator_outcome(&self, run: Result<ShellOutput, String>) -> (r: Result<
        (),
        PlatformError,
    >)
        ensures
            unit_result_view(&r) == boot_emulator_result(self.device@, run_view(&run)),
    {
        match run {
            Err(e) => Err(PlatformError::Io(e)),
            Ok(out) => if out.success {
                Ok(())
            } else {
                Err(PlatformError::EmulatorStartFailed(self.device.clone()))
            },
        }
    }

    /// The AVD list, from the outcome of `LIST_AVDS_COMMAND`.
    pub fn emulator_list_outcome(&self, run: Result<ShellOutput, String>) -> (r: Result<
        String,
        PlatformError,
    >)
        ensures
            text_result_view(&r) == emulator_list_result(run_view(&run)),
    {
        match run {
            Err(e) => Err(PlatformError::Io(e)),
            Ok(out) => if out.success {
                Ok(out.stdout)
            } else {
                Err(PlatformError::ListAvdsFailed)
            },
        }
    }

    /// The name `adb` gives this emulator.
    pub fn emulator_name(&self) -> (n: String)
        ensures
            n@ == emulator_name_text(self.port),
    {
        let mut n = String::from_str("emulator-");
        push_decimal(&mut n, self.port as u64);
        n
    }

    /// This emulator's name if `adb devices` lists it, from the outcome of
    /// `ADB_DEVICES_COMMAND`.
    pub fn emulator_running_outcome(&self, run: Result<ShellOutput, String>) -> (r: Result<
        String,
        PlatformError,
    >)
        ensures
            text_result_view(&r) == emulator_running_result(self.port, run_view(&run)),
    {
        let name = self.emulator_name();
        match run {
            Err(e) => Err(PlatformError::Io(e)),
            Ok(out) => if !out.success {
                Err(PlatformError::AdbDevicesFailed)
            } else if str_contains(out.stdout.as_str(), name.as_str()) {
                Ok(name)
            } else {
                Err(PlatformError::EmulatorNotRunning)
            },
        }
    }
}

} // verus!
