use flutter_test_runner::command::{
    choose_flavor, report_file_name, select_tests, Command, ExecError,
};
use flutter_test_runner::platform::Platform;
use flutter_test_runner::runner::TestRunner;

pub fn command(platform: &str) -> Command {
    Command {
        vm: String::new(),
        platform: platform.to_string(),
        flavor: String::new(),
        device_id: None,
        device_name: String::new(),
        test_type: "integration_test".to_string(),
        path: String::new(),
        report: String::new(),
        tests: vec![],
    }
}

fn config() -> TestRunner {
    let mut cfg = TestRunner::new();
    cfg.vm = Some("fvm".to_string());
    cfg.report.name = "reports/report-{}.html".to_string();
    cfg.tests = vec!["a_test.dart".to_string(), "b_test.dart".to_string()];
    cfg.device.android = Platform {
        flavor: "automateGoogle".to_string(),
        mode: String::new(),
        device_id: Some("emulator-5554".to_string()),
        device_name: "Pixel_7".to_string(),
    };
    cfg.device.ios = Platform {
        flavor: "automate".to_string(),
        mode: String::new(),
        device_id: None,
        device_name: "iPhone 15".to_string(),
    };
    cfg
}

#[test]
fn platform_checks() {
    assert!(command("android").is_android());
    assert!(!command("android").is_ios());
    assert!(command("ios").is_ios());
    assert!(!command("web").is_android() && !command("web").is_ios());
    assert!(command("ios").check_supported().is_ok());
    let e = command("web").check_supported().unwrap_err();
    assert!(matches!(e, ExecError::Unsupported));
    assert_eq!(e.message(), "Unsupported");
}

#[test]
fn config_on_android() {
    let mut c = command("android");
    c.apply_config(&config());
    assert_eq!(c.vm, "fvm");
    assert_eq!(c.report, "reports/report-{}.html");
    assert_eq!(c.tests, vec!["a_test.dart", "b_test.dart"]);
    assert_eq!(c.flavor, "automateGoogle");
    assert_eq!(c.device_id, Some("emulator-5554".to_string()));
    assert_eq!(c.device_name, "Pixel_7");
}

#[test]
fn config_on_ios_takes_android_device_id() {
    let mut c = command("ios");
    c.apply_config(&config());
    assert_eq!(c.flavor, "automate");
    assert_eq!(c.device_id, Some("emulator-5554".to_string()));
    assert_eq!(c.device_name, "iPhone 15");
}

#[test]
fn config_keeps_vm_when_absent_and_leaves_unknown_platform_device() {
    let mut c = command("web");
    c.vm = "flutter".to_string();
    c.flavor = "mine".to_string();
    let mut cfg = config();
    cfg.vm = None;
    c.apply_config(&cfg);
    assert_eq!(c.vm, "flutter");
    assert_eq!(c.flavor, "mine");
    assert_eq!(c.device_name, "");
}

#[test]
fn flavor_defaults() {
    assert_eq!(choose_flavor("dev", "android"), Some("dev".to_string()));
    assert_eq!(choose_flavor("", "android"), Some("automateGoogle".to_string()));
    assert_eq!(choose_flavor("", "ios"), Some("automate".to_string()));
    assert_eq!(choose_flavor("", "web"), None);
}

#[test]
fn report_names() {
    assert_eq!(report_file_name("", "android"), "report-android.html");
    assert_eq!(report_file_name("out/report-{}.html", "ios"), "out/report-ios.html");
    assert_eq!(report_file_name("fixed.html", "ios"), "fixed.html");
    assert_eq!(report_file_name("{}-{}", "ios"), "ios-ios");
}

#[test]
fn test_selection() {
    let tests = vec!["a_test.dart".to_string(), "b_test.dart".to_string()];
    assert_eq!(select_tests(&tests, "login_test.dart"), vec!["login_test.dart"]);
    assert_eq!(select_tests(&tests, ""), tests);
    assert_eq!(select_tests(&tests, "integration_test"), tests);
}

#[test]
fn error_messages() {
    assert_eq!(ExecError::DeviceNotFound.message(), "--device not found");
    assert_eq!(ExecError::FlavorNotFound.message(), "--flavor not found");
    assert_eq!(ExecError::Io("disk full".to_string()).message(), "disk full");
}

#[test]
fn config_applied_twice_is_applied_once() {
    let mut once = command("ios");
    once.apply_config(&config());
    let mut twice = command("ios");
    twice.apply_config(&config());
    twice.apply_config(&config());
    assert_eq!(format!("{:?}", once), format!("{:?}", twice));
}
