use flutter_test_runner::reporter::{Reporter, EARLIEST_TIMESTAMP, LATEST_TIMESTAMP};
use flutter_test_runner::result::{Result as TestResult, Timestamp};

fn outcome(test: &str, status: &str, error: &str, secs: u64) -> TestResult {
    TestResult {
        test: test.to_string(),
        start_time: Timestamp::from_unix(1000, 0).unwrap(),
        end_time: Timestamp::from_unix(1000 + secs, 250_000_000).unwrap(),
        status: status.to_string(),
        error: error.to_string(),
    }
}

const HTML_TMPL: &str = r#"
            <!DOCTYPE html>
            <html lang="en">
            <head>
                <meta charset="UTF-8">
                <meta http-equiv="X-UA-Compatible" content="IE=edge">
                <meta name="viewport" content="width=device-width, initial-scale=1.0">
                <title>Test Runner - Report</title>
                <link rel="preconnect" href="https://fonts.googleapis.com">
                <link rel="preconnect" href="https://fonts.gstatic.com" crossorigin>
                <link href="https://fonts.googleapis.com/css2?family=Roboto:wght@400;500;700&display=swap" rel="stylesheet">
                <style>
                    html, body { font-family: 'Roboto', sans-serif; } body { margin: 16px 64px; } th { background-color: #f7f7f7; } a { color: white; } th, td { padding: 0.5rem; } .success { color: #008000; } .failed { color: #d40501; } .medium { font-weight: 500; } .hide { display: none; } .show { display: block; } table { table-layout: fixed; width: 100%; display: table; } pre { overflow: scroll; } h4 { padding: 4px 8px; } .coverage { font-size: small; font-weight: normal; } tr.passed { background: #dfd; } tr.skipped { background: #eee; } tr.failed { background: #fdd; } .center { margin-left: auto; margin-right: auto; } .badge { background: #888; color: white; border-radius: 4px; padding: 2px 8px; float: right; } .passed .badge { background: #5c5; ; } .skipped .badge {} .failed .badge { background-color: #d66; } .expando { padding: 8px; display: none; } .content { padding: 16px 0; border-bottom: thin #eeeeee solid; color: #444; white-space: pre; } .duration { font-size: x-small; } div:target .expando { display: block }
                </style>
            </head>
            <body>
                <h1>UI Test Report</h1>
                <p>Generated: {1}</p>
                {2}
            </body>
            </html>
            "#;

/// The expected page, built with `format!` and `str::replace`.
fn expected_page(results: &[TestResult], time_minute: f32, date: &str) -> String {
    let passed = results.iter().filter(|r| r.status == "PASSED").count();
    let failed = results.iter().filter(|r| r.status == "FAILED").count();
    let mut html_content = format!(
        r#"
            <p>Tests: {}</p><p>Pass: {}</p><p>Failed: {}</p><p>Times: {:.2} m</p>
            <table style="width: 100%;">
            "#,
        results.len(),
        passed,
        failed,
        time_minute
    );
    for r in results {
        let status = if !r.error.is_empty() {
            format!(r#"<span class="badge"><a href="?error={}">{}</a></span>"#, &r.test, &r.status)
        } else {
            format!(r#"<span class="badge">{}</span>"#, r.status)
        };
        let status_class = r.status.to_lowercase();
        html_content += &format!(
            r#"
                <tr class="{}">
                    <td>{}</td><td>{} s</td><td>{}</td>
                </tr>
                <tr id="{}" class="hide">
                    <td colspan="3"><pre>{}</pre></td>
                </tr>
                "#,
            status_class,
            &r.test,
            r.get_time_usage(),
            status,
            &r.test,
            &r.error
        );
    }
    html_content += "</table>";
    html_content += r#"
        <script>
            const params = new Proxy(new URLSearchParams(window.location.search), { get: (searchParams, prop) => searchParams.get(prop), });
            let error = params['error'];
            if (!!error) {
                var element = document.getElementById(error);
                element.classList.remove('hide');
            }
        </script>
        "#;
    HTML_TMPL.replace("{1}", date).replace("{2}", &html_content)
}

#[test]
fn counts_and_total() {
    let results = vec![
        outcome("a_test.dart", "PASSED", "", 30),
        outcome("b_test.dart", "FAILED", "boom", 45),
        outcome("c_test.dart", "PASSED", "", 5),
    ];
    assert_eq!(Reporter::count_status(&results, "PASSED"), 2);
    assert_eq!(Reporter::count_status(&results, "FAILED"), 1);
    assert_eq!(Reporter::count_status(&results, "SKIPPED"), 0);
    assert_eq!(Reporter::total_time_usage(&results), Some(80));
    assert_eq!(Reporter::total_time_usage(&vec![]), Some(0));
}

#[test]
fn counts_cover_every_outcome() {
    let results = vec![
        outcome("a", "PASSED", "", 1),
        outcome("b", "FAILED", "x", 1),
        outcome("c", "FAILED", "y", 1),
    ];
    let p = Reporter::count_status(&results, "PASSED");
    let f = Reporter::count_status(&results, "FAILED");
    assert_eq!(p + f, results.len());
}

#[test]
fn total_overflow_is_reported() {
    let long = |name: &str| TestResult {
        test: name.to_string(),
        start_time: Timestamp::from_unix(0, 0).unwrap(),
        end_time: Timestamp::from_unix(9_000_000_000_000_000, 0).unwrap(),
        status: "PASSED".to_string(),
        error: String::new(),
    };
    assert_eq!(long("t").get_time_usage(), 9_000_000_000_000_000);
    let fits: Vec<TestResult> = (0..1000).map(|k| long(&k.to_string())).collect();
    assert_eq!(Reporter::total_time_usage(&fits), Some(9_000_000_000_000_000_000));
    let too_many: Vec<TestResult> = (0..1100).map(|k| long(&k.to_string())).collect();
    assert_eq!(Reporter::total_time_usage(&too_many), None);
}

#[test]
fn rows_and_badges() {
    let passed = outcome("a_test.dart", "PASSED", "", 30);
    assert_eq!(Reporter::badge(&passed), r#"<span class="badge">PASSED</span>"#);
    let failed = outcome("b_test.dart", "FAILED", "boom", 45);
    assert_eq!(
        Reporter::badge(&failed),
        r#"<span class="badge"><a href="?error=b_test.dart">FAILED</a></span>"#
    );
    let row = Reporter::render_row("failed", &failed);
    assert!(row.contains(r#"<tr class="failed">"#));
    assert!(row.contains("<td>45 s</td>"));
    assert!(row.contains("<pre>boom</pre>"));
    let rows = Reporter::render_rows(&vec![failed]);
    assert_eq!(rows, row);
}

#[test]
fn page_matches_original_layout() {
    let results = vec![
        outcome("a_test.dart", "PASSED", "", 30),
        outcome("b_test.dart", "FAILED", "Some tests failed\n", 45),
    ];
    let reporter = Reporter::new("reports/report-android.html".to_string());
    assert_eq!(reporter.file_name, "reports/report-android.html");
    let total = Reporter::total_time_usage(&results).unwrap();
    let time_minute = total as f32 / 60.0;
    let minutes = format!("{:.2}", time_minute);
    let date = "2024-01-02 03:04:05";
    let page = reporter.render(&results, &minutes, date);
    assert_eq!(page, expected_page(&results, time_minute, date));
}

#[test]
fn page_of_no_results() {
    let reporter = Reporter::new("r.html".to_string());
    let page = reporter.render(&vec![], "0.00", "d");
    assert_eq!(page, expected_page(&[], 0.0, "d"));
}

#[test]
fn generated_at_is_utc_plus_seven() {
    assert_eq!(Reporter::generated_at(0).unwrap(), "1970-01-01 07:00:00");
    assert_eq!(Reporter::generated_at(1_704_164_645).unwrap(), "2024-01-02 10:04:05");
}

#[test]
fn generated_at_covers_exactly_chrono_range() {
    assert!(Reporter::generated_at(EARLIEST_TIMESTAMP).is_some());
    assert!(Reporter::generated_at(EARLIEST_TIMESTAMP - 1).is_none());
    assert!(Reporter::generated_at(LATEST_TIMESTAMP).is_some());
    assert!(Reporter::generated_at(LATEST_TIMESTAMP + 1).is_none());
    assert!(Reporter::generated_at(i64::MIN).is_none());
    assert!(Reporter::generated_at(i64::MAX).is_none());
    assert_eq!(Reporter::generated_at(LATEST_TIMESTAMP).unwrap(), "+262143-01-01 06:59:59");
    assert_eq!(Reporter::generated_at(EARLIEST_TIMESTAMP).unwrap(), "-262143-01-01 07:00:00");
}
