use flutter_test_runner::platform::android::{Android, ADB_DEVICES_COMMAND, LIST_AVDS_COMMAND};
use flutter_test_runner::platform::ios::IOS;
use flutter_test_runner::platform::{Platform, PlatformError, ANDROID, IOS as IOS_NAME};
use flutter_test_runner::shell::ShellOutput;

fn out(success: bool, stdout: &str, stderr: &str) -> Result<ShellOutput, String> {
    Ok(ShellOutput::new(success, stdout.to_string(), stderr.to_string()))
}

#[test]
fn platform_names() {
    assert_eq!(ANDROID, "android");
    assert_eq!(IOS_NAME, "ios");
}

#[test]
fn platform_new_is_empty_with_empty_device_id() {
    let p = Platform::new();
    assert_eq!(p.flavor, "");
    assert_eq!(p.mode, "");
    assert_eq!(p.device_id, Some(String::new()));
    assert_eq!(p.device_name, "");
}

#[test]
fn android_new_and_commands() {
    let a = Android::new();
    assert_eq!(a.port, 0);
    assert_eq!(a.device, "");
    let a = Android { port: 5554, device: "Pixel_7".to_string() };
    assert_eq!(
        a.boot_emulator_command(),
        format!("~/Library/Android/sdk/emulator/emulator -avd {} &", "Pixel_7")
    );
    assert_eq!(a.emulator_name(), "emulator-5554");
    assert_eq!(LIST_AVDS_COMMAND, "~/Library/Android/sdk/emulator/emulator -list-avds");
    assert_eq!(ADB_DEVICES_COMMAND, "~/Library/Android/sdk/platform-tools/adb devices");
}

#[test]
fn emulator_running_outcomes() {
    let a = Android { port: 5554, device: "Pixel_7".to_string() };
    let listed = "List of devices attached\nemulator-5554\tdevice\n";
    assert_eq!(a.emulator_running_outcome(out(true, listed, "")).unwrap(), "emulator-5554");
    let other = "List of devices attached\nemulator-5556\tdevice\n";
    let e = a.emulator_running_outcome(out(true, other, "")).unwrap_err();
    assert!(matches!(e, PlatformError::EmulatorNotRunning));
    assert_eq!(e.message(), "Emulator is not running.");
    let e = a.emulator_running_outcome(out(false, listed, "")).unwrap_err();
    assert_eq!(e.message(), "Failed to executor adb devices");
    let e = a.emulator_running_outcome(Err("No such file or directory".to_string())).unwrap_err();
    assert!(matches!(e, PlatformError::Io(_)));
    assert_eq!(e.message(), "No such file or directory");
}

#[test]
fn emulator_boot_and_list_outcomes() {
    let a = Android { port: 5554, device: "Pixel_7".to_string() };
    assert!(a.boot_emulator_outcome(out(true, "", "")).is_ok());
    let e = a.boot_emulator_outcome(out(false, "", "")).unwrap_err();
    assert_eq!(e.message(), "Failed to start emulator for device: Pixel_7");
    assert_eq!(a.emulator_list_outcome(out(true, "Pixel_7\n", "")).unwrap(), "Pixel_7\n");
    let e = a.emulator_list_outcome(out(false, "", "")).unwrap_err();
    assert_eq!(e.message(), "Failed to list AVDs");
}

#[test]
fn ios_new_and_model_names() {
    let i = IOS::new();
    assert_eq!((i.min, i.max), (0, 0));
    let i = IOS { min: 14, max: 16 };
    let mut expected = Vec::new();
    for j in 14..=16 {
        expected.push(format!("iPhone {}", j));
        expected.push(format!("iPhone {} Pro", j));
        expected.push(format!("iPhone {} Max", j));
    }
    assert_eq!(i.model_names(), expected);
    assert_eq!(
        i.simulator_running_command(),
        format!("xcrun simctl list devices | grep -E \"{}\" | grep Booted", expected.join("|"))
    );
    assert!(IOS { min: 3, max: 2 }.model_names().is_empty());
    assert_eq!(IOS { min: 65535, max: 65535 }.model_names().len(), 3);
}

#[test]
fn ios_commands() {
    let i = IOS { min: 14, max: 16 };
    assert_eq!(i.boot_simulator_command("iPhone 15"), "xcrun simctl boot \"iPhone 15\"");
    assert_eq!(
        i.simulator_running_by_device_command("iPhone 15"),
        "xcrun simctl list devices | grep -E \"iPhone 15\" | grep Booted"
    );
}

#[test]
fn ios_booted_and_boot_outcomes() {
    let i = IOS { min: 14, max: 16 };
    let booted = "    iPhone 15 (1234-ABCD) (Booted)\n";
    assert!(i.simulator_running_by_device_outcome(out(true, booted, "")).is_ok());
    let e = i.simulator_running_by_device_outcome(out(true, "", "")).unwrap_err();
    assert_eq!(e.message(), "No simulators are currently running");
    assert!(i.simulator_running_by_device_outcome(out(true, booted, "warning")).is_err());
    assert!(i.simulator_running_by_device_outcome(out(false, booted, "")).is_err());
    assert!(i.boot_simulator_outcome("iPhone 15", out(true, "", "")).is_ok());
    let e = i.boot_simulator_outcome("iPhone 15", out(true, "", "Unable to boot")).unwrap_err();
    assert_eq!(e.message(), "Can't boot simulator iPhone 15");
}

#[test]
fn ios_simulator_running_picks_first_iphone() {
    let i = IOS { min: 14, max: 16 };
    let listing = "    iPhone 15 Pro Max (AAAA) (Booted)\n    iPhone 14 (BBBB) (Booted)\n";
    assert_eq!(i.simulator_running_outcome(out(true, listing, "")).unwrap(), "iPhone 15 Pro Max");
    let listing = "    iPhone 16 Pro (CCCC) (Booted)\n";
    assert_eq!(i.simulator_running_outcome(out(true, listing, "")).unwrap(), "iPhone 16 Pro");
    let listing = "    iPad Air (DDDD) (Booted)\n";
    let e = i.simulator_running_outcome(out(true, listing, "")).unwrap_err();
    assert_eq!(
        e.message(),
        "No simulators are currently running, Please run simulator manually"
    );
    let e = i.simulator_running_outcome(out(true, "nothing", "")).unwrap_err();
    assert!(matches!(e, PlatformError::NoSimulatorRunning));
}
