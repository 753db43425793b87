use flutter_test_runner::result::{Result as TestResult, Timestamp};
use flutter_test_runner::runner::{
    Device, Report, Runner, TestRunner, FVM, TYPE_INTEGRATION_TEST, TYPE_TEST_DRIVER,
};
use flutter_test_runner::shell::ShellOutput;

fn runner(vm: &str, test_type: &str, device_id: Option<&str>) -> Runner {
    Runner {
        vm: vm.to_string(),
        flavor: "automateGoogle".to_string(),
        device_id: device_id.map(|d| d.to_string()),
        device_name: "emulator-5554".to_string(),
        test_type: test_type.to_string(),
    }
}

fn at(secs: u64, nanos: u32) -> Timestamp {
    Timestamp::from_unix(secs, nanos).unwrap()
}

#[test]
fn constants() {
    assert_eq!(TYPE_TEST_DRIVER, "test_driver");
    assert_eq!(TYPE_INTEGRATION_TEST, "integration_test");
    assert_eq!(FVM, "fvm");
}

#[test]
fn config_constructors() {
    let t = TestRunner::new();
    assert_eq!(t.vm, Some(String::new()));
    assert!(t.tests.is_empty());
    assert_eq!(t.report.name, "");
    assert_eq!(t.device.android.device_id, Some(String::new()));
    assert_eq!(Report::new().name, "");
    let d = Device::new();
    assert_eq!(d.ios.flavor, "");
}

#[test]
fn test_driver_arguments() {
    let r = runner("", TYPE_TEST_DRIVER, None);
    assert_eq!(
        r.test_args("login_test.dart"),
        vec![
            "drive",
            "--driver=test_driver/integration_test.dart",
            "--target=integration_test/login_test.dart",
            "--flavor",
            "automateGoogle",
            "-d",
            "emulator-5554",
        ]
    );
}

#[test]
fn integration_test_arguments_prefer_device_id() {
    let r = runner("", TYPE_INTEGRATION_TEST, Some("ABCD-1234"));
    assert_eq!(
        r.test_args("login_test.dart"),
        vec!["test", "integration_test/login_test.dart", "--flavor", "automateGoogle", "-d", "ABCD-1234"]
    );
    assert_eq!(r.target_device(), "ABCD-1234");
}

#[test]
fn unknown_type_has_no_arguments() {
    let r = runner("", "unit", None);
    assert!(r.test_args("x").is_empty());
    let inv = r.invocation("x");
    assert_eq!(inv.display, "flutter ");
    assert_eq!(inv.program, "flutter");
    assert!(inv.args.is_empty());
}

#[test]
fn invocation_with_and_without_fvm() {
    let r = runner("", TYPE_INTEGRATION_TEST, None);
    let inv = r.invocation("a_test.dart");
    assert_eq!(inv.program, "flutter");
    assert_eq!(
        inv.display,
        "flutter test integration_test/a_test.dart --flavor automateGoogle -d emulator-5554"
    );
    assert_eq!(inv.args, r.test_args("a_test.dart"));
    let r = runner("fvm", TYPE_INTEGRATION_TEST, None);
    let inv = r.invocation("a_test.dart");
    assert_eq!(inv.program, "fvm");
    assert_eq!(inv.args[0], "flutter");
    assert_eq!(inv.args[1..].to_vec(), r.test_args("a_test.dart"));
    assert_eq!(
        inv.display,
        "fvm flutter test integration_test/a_test.dart --flavor automateGoogle -d emulator-5554"
    );
}

#[test]
fn outcome_passed() {
    let run = Ok(ShellOutput::new(true, "All tests passed!".to_string(), "".to_string()));
    assert!(Runner::passed(&run));
    let r = Runner::finish("a_test.dart", at(100, 0), at(161, 500_000_000), run);
    assert_eq!(r.test, "a_test.dart");
    assert_eq!(r.status, "PASSED");
    assert_eq!(r.error, "");
    assert_eq!(r.get_time_usage(), 61);
}

#[test]
fn outcome_failed_by_marker() {
    let run = Ok(ShellOutput::new(true, "01:02 +3 -1: Some tests failed.".to_string(), "oops".to_string()));
    assert!(!Runner::passed(&run));
    let r = Runner::finish("a_test.dart", at(0, 0), at(1, 0), run);
    assert_eq!(r.status, "FAILED");
    assert_eq!(r.error, "01:02 +3 -1: Some tests failed.\noops");
}

#[test]
fn outcome_failed_by_exit_status() {
    let run = Ok(ShellOutput::new(false, "out".to_string(), "err".to_string()));
    let r = Runner::finish("a_test.dart", at(0, 0), at(1, 0), run);
    assert_eq!(r.status, "FAILED");
    assert_eq!(r.error, "out\nerr");
}

#[test]
fn outcome_failed_to_start() {
    let run: Result<ShellOutput, String> = Err("No such file or directory (os error 2)".to_string());
    let r = Runner::finish("a_test.dart", at(0, 0), at(0, 0), run);
    assert_eq!(r.status, "FAILED");
    assert_eq!(r.error, "No such file or directory (os error 2)");
}

#[test]
fn time_usage_counts_whole_seconds() {
    let mut r = TestResult::new();
    assert_eq!(r.test, "");
    assert_eq!(r.status, "");
    assert_eq!(r.error, "");
    r.start_time = at(10, 900_000_000);
    r.end_time = at(12, 100_000_000);
    assert_eq!(r.get_time_usage(), 1);
    r.end_time = at(70, 899_999_999);
    assert_eq!(r.get_time_usage(), 59);
    r.end_time = at(10, 0);
    assert_eq!(r.get_time_usage(), 0);
    r.end_time = r.start_time;
    assert_eq!(r.get_time_usage(), 0);
}

#[test]
fn timestamps() {
    assert!(Timestamp::from_unix(1, 1_000_000_000).is_none());
    let t = at(5, 7);
    assert_eq!((t.secs(), t.subsec_nanos()), (5, 7));
    assert_eq!(Timestamp::unix_epoch().secs(), 0);
    let now = Timestamp::now();
    let std_now = std::time::SystemTime::now()
        .duration_since(std::time::UNIX_EPOCH)
        .unwrap()
        .as_secs();
    assert!(now.secs() <= std_now && std_now - now.secs() < 5);
}

#[test]
fn time_usage_across_the_epoch() {
    let before = Timestamp::before_unix(2, 500_000_000).unwrap();
    assert!(before.is_before_epoch());
    assert_eq!((before.secs(), before.subsec_nanos()), (2, 500_000_000));
    assert!(Timestamp::before_unix(0, 1_000_000_000).is_none());
    assert!(!at(1, 0).is_before_epoch());
    let mut r = TestResult::new();
    r.start_time = before;
    r.end_time = at(1, 0);
    assert_eq!(r.get_time_usage(), 3);
    r.start_time = Timestamp::before_unix(10, 0).unwrap();
    r.end_time = Timestamp::before_unix(4, 900_000_000).unwrap();
    assert_eq!(r.get_time_usage(), 5);
    r.start_time = at(0, 0);
    r.end_time = Timestamp::before_unix(0, 1).unwrap();
    assert_eq!(r.get_time_usage(), 0);
}
