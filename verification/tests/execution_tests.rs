use flutter_test_runner::command::execution::{Effect, Event, Execution, Line, Stage, Step};
use flutter_test_runner::command::{Command, ExecError};
use flutter_test_runner::platform::PlatformError;
use flutter_test_runner::result::Timestamp;
use flutter_test_runner::shell::ShellOutput;

fn command(platform: &str, device: &str, flavor: &str, tests: &[&str]) -> Command {
    Command {
        vm: String::new(),
        platform: platform.to_string(),
        flavor: flavor.to_string(),
        device_id: None,
        device_name: device.to_string(),
        test_type: "integration_test".to_string(),
        path: String::new(),
        report: String::new(),
        tests: tests.iter().map(|t| t.to_string()).collect(),
    }
}

fn texts(step: &Step) -> Vec<String> {
    step.lines
        .iter()
        .map(|l| match l {
            Line::Text(t) => t.clone(),
            Line::Elapsed(s) => format!("<{}s>", s),
        })
        .collect()
}

fn shell(success: bool, stdout: &str, stderr: &str) -> Event {
    Event::Shell(Ok(ShellOutput::new(success, stdout.to_string(), stderr.to_string())))
}

fn resume(ex: Execution, e: Event) -> (Execution, Step) {
    assert!(ex.awaits(&e));
    ex.resume(e)
}

fn at(secs: u64) -> Timestamp {
    Timestamp::from_unix(secs, 0).unwrap()
}

#[test]
fn unknown_platform_without_device_ends_at_once() {
    let (ex, step) = Execution::start(command("web", "", "", &[]));
    assert!(matches!(step.effect, Effect::Finish(Err(ExecError::DeviceNotFound))));
    assert!(step.lines.is_empty());
    assert!(matches!(ex.stage(), Stage::Finished));
}

#[test]
fn unknown_platform_without_flavor_ends_with_flavor_error() {
    let (_, step) = Execution::start(command("web", "device", "", &["a_test.dart"]));
    assert!(matches!(step.effect, Effect::Finish(Err(ExecError::FlavorNotFound))));
}

#[test]
fn android_session_with_running_emulator() {
    let (ex, step) = Execution::start(command("android", "Pixel_7", "", &["a_test.dart", "b_test.dart"]));
    assert_eq!(texts(&step), vec!["Android Emulator", "Boot emulator Pixel_7"]);
    match &step.effect {
        Effect::Shell(c) => assert_eq!(c, "~/Library/Android/sdk/platform-tools/adb devices"),
        _ => panic!("expected adb devices"),
    }
    let (ex, step) = resume(ex, shell(true, "emulator-5554\tdevice\n", ""));
    assert_eq!(
        texts(&step),
        vec![
            "└── [BOOTED]",
            "Run 2 tests on Pixel_7",
            "Testing a_test.dart",
            "├── flutter test integration_test/a_test.dart --flavor automateGoogle -d Pixel_7",
            "├── ...",
        ]
    );
    match &step.effect {
        Effect::RunTest(inv) => assert_eq!(inv.program, "flutter"),
        _ => panic!("expected a test run"),
    }
    assert_eq!(ex.command().report, "report-android.html");
    assert_eq!(ex.runner().flavor, "automateGoogle");
    let run = Ok(ShellOutput::new(true, "All tests passed!".to_string(), String::new()));
    let (ex, step) = resume(ex, Event::TestFinished(at(0), at(90), run));
    assert_eq!(texts(&step)[0..2], ["└── [PASSED]".to_string(), "<90s>".to_string()]);
    assert_eq!(texts(&step)[2], "Testing b_test.dart");
    let run = Ok(ShellOutput::new(false, "Some tests failed".to_string(), "x".to_string()));
    let (ex, step) = resume(ex, Event::TestFinished(at(90), at(100), run));
    assert_eq!(texts(&step), vec!["└── [FAILED]", "<10s>"]);
    match &step.effect {
        Effect::GenerateReport(f) => assert_eq!(f, "report-android.html"),
        _ => panic!("expected the report"),
    }
    let results = ex.results();
    assert_eq!(results.len(), 2);
    assert_eq!(results[0].test, "a_test.dart");
    assert_eq!(results[0].status, "PASSED");
    assert_eq!(results[1].test, "b_test.dart");
    assert_eq!(results[1].error, "Some tests failed\nx");
    let (ex, step) = resume(ex, Event::Reported(Ok(())));
    assert!(matches!(step.effect, Effect::Finish(Ok(()))));
    assert!(matches!(ex.stage(), Stage::Finished));
    assert!(!ex.awaits(&Event::Slept));
}

#[test]
fn android_session_boots_missing_emulator() {
    let (ex, _) = Execution::start(command("android", "Pixel_7", "", &[]));
    let (ex, step) = resume(ex, shell(true, "List of devices attached\n", ""));
    match &step.effect {
        Effect::SpawnShell(c) => {
            assert_eq!(c, "~/Library/Android/sdk/emulator/emulator -avd Pixel_7 &")
        },
        _ => panic!("expected the emulator to be started"),
    }
    let (ex, step) = resume(ex, shell(false, "", ""));
    assert_eq!(
        texts(&step),
        vec!["└── Failed to start emulator for device: Pixel_7", "├── booting... 15s"]
    );
    assert!(matches!(step.effect, Effect::Sleep(15)));
    let (ex, step) = resume(ex, Event::Slept);
    assert!(matches!(step.effect, Effect::Shell(_)));
    let (ex, step) = resume(ex, shell(true, "", ""));
    assert_eq!(texts(&step), vec!["└── [FAILED]", "Run 0 tests on Pixel_7"]);
    assert!(matches!(step.effect, Effect::GenerateReport(_)));
    assert!(ex.results().is_empty());
}

#[test]
fn ios_session_boot_failure_ends_the_session() {
    let (ex, step) = Execution::start(command("ios", "iPhone 15", "", &["a_test.dart"]));
    assert_eq!(texts(&step), vec!["iOS Simulator", "Boot simulator iPhone 15"]);
    let (ex, step) = resume(ex, shell(true, "", ""));
    match &step.effect {
        Effect::Shell(c) => assert_eq!(c, "xcrun simctl boot \"iPhone 15\""),
        _ => panic!("expected a boot"),
    }
    let (_, step) = resume(ex, shell(true, "", "Invalid device"));
    match step.effect {
        Effect::Finish(Err(ExecError::Platform(e))) => {
            assert!(matches!(e, PlatformError::SimulatorBootFailed(_)));
            assert_eq!(e.message(), "Can't boot simulator iPhone 15");
        },
        _ => panic!("expected the boot error"),
    }
}

#[test]
fn ios_session_with_booted_simulator_skips_boot() {
    let (ex, _) = Execution::start(command("ios", "iPhone 15", "", &["a_test.dart"]));
    let (ex, step) = resume(ex, shell(true, "iPhone 15 (X) (Booted)", ""));
    assert_eq!(texts(&step)[0], "└── [BOOTED]");
    assert_eq!(ex.runner().flavor, "automate");
    assert!(matches!(step.effect, Effect::RunTest(_)));
}

#[test]
fn ios_session_without_device_probes_simulators() {
    let (ex, step) = Execution::start(command("ios", "", "custom", &["a_test.dart"]));
    assert!(step.lines.is_empty());
    match &step.effect {
        Effect::Shell(c) => assert!(c.starts_with("xcrun simctl list devices | grep -E \"iPhone 14|")),
        _ => panic!("expected the simulator query"),
    }
    let (ex, step) = resume(ex, shell(true, "iPhone 16 Pro (Y) (Booted)", ""));
    assert_eq!(texts(&step)[0], "Run 1 tests on iPhone 16 Pro");
    assert_eq!(ex.runner().device_name, "iPhone 16 Pro");
    assert_eq!(ex.runner().flavor, "custom");
}

#[test]
fn android_session_without_device_probes_emulator() {
    let (ex, _) = Execution::start(command("android", "", "", &[]));
    let (ex, step) = resume(ex, shell(true, "emulator-5554\tdevice", ""));
    assert_eq!(texts(&step), vec!["Run 0 tests on emulator-5554"]);
    assert_eq!(ex.runner().device_name, "emulator-5554");
}

#[test]
fn single_test_file_path_replaces_configured_tests() {
    let mut c = command("android", "", "", &["a_test.dart", "b_test.dart"]);
    c.path = "login_test.dart".to_string();
    c.report = "out/{}.html".to_string();
    let (ex, _) = Execution::start(c);
    let (ex, step) = resume(ex, shell(true, "", ""));
    assert_eq!(texts(&step)[0], "Run 1 tests on ");
    assert_eq!(texts(&step)[1], "Testing login_test.dart");
    assert_eq!(ex.command().report, "out/android.html");
}

#[test]
fn aborting_ends_with_the_error() {
    let (ex, _) = Execution::start(command("android", "Pixel_7", "", &[]));
    let (ex, step) = resume(ex, Event::Aborted("task failed".to_string()));
    match step.effect {
        Effect::Finish(Err(e)) => assert_eq!(e.message(), "task failed"),
        _ => panic!("expected the abort"),
    }
    assert!(matches!(ex.stage(), Stage::Finished));
}

#[test]
fn report_failure_ends_with_the_error() {
    let (ex, _) = Execution::start(command("web", "dev", "f", &[]));
    let (_, step) = resume(ex, Event::Reported(Err("permission denied".to_string())));
    match step.effect {
        Effect::Finish(Err(ExecError::Io(t))) => assert_eq!(t, "permission denied"),
        _ => panic!("expected the write error"),
    }
}

#[test]
fn runner_carries_the_command_settings() {
    let mut c = command("android", "Pixel_7", "dev", &["a_test.dart"]);
    c.vm = "fvm".to_string();
    c.device_id = Some("emulator-5554".to_string());
    let (ex, _) = Execution::start(c);
    let (ex, step) = resume(ex, shell(true, "emulator-5554 device", ""));
    let r = ex.runner();
    assert_eq!(r.vm, "fvm");
    assert_eq!(r.test_type, "integration_test");
    assert_eq!(r.device_id, Some("emulator-5554".to_string()));
    assert_eq!(r.device_name, "Pixel_7");
    assert_eq!(r.flavor, "dev");
    match &step.effect {
        Effect::RunTest(inv) => {
            assert_eq!(inv.program, "fvm");
            assert_eq!(
                inv.display,
                "fvm flutter test integration_test/a_test.dart --flavor dev -d emulator-5554"
            );
        },
        _ => panic!("expected a test run"),
    }
}
