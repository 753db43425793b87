//! The HTML report of a test session.
use vstd::prelude::*;
use crate::result::{Result as TestResult, ResultView, time_usage};
use crate::runner::{FAILED, PASSED};
use crate::text::{decimal, i64_text, push_decimal, replace_all, replace_all_in, signed_decimal, str_equal, to_lowercase, unicode_lowercase};

verus! {

/// The page around the report; `{1}` stands for the date, `{2}` for the content.
pub const PAGE_TEMPLATE: &'static str = "\n            <!DOCTYPE html>\n            <html lang=\"en\">\n            <head>\n                <meta charset=\"UTF-8\">\n                <meta http-equiv=\"X-UA-Compatible\" content=\"IE=edge\">\n                <meta name=\"viewport\" content=\"width=device-width, initial-scale=1.0\">\n                <title>Test Runner - Report</title>\n                <link rel=\"preconnect\" href=\"https://fonts.googleapis.com\">\n                <link rel=\"preconnect\" href=\"https://fonts.gstatic.com\" crossorigin>\n                <link href=\"https://fonts.googleapis.com/css2?family=Roboto:wght@400;500;700&display=swap\" rel=\"stylesheet\">\n                <style>\n                    html, body { font-family: 'Roboto', sans-serif; } body { margin: 16px 64px; } th { background-color: #f7f7f7; } a { color: white; } th, td { padding: 0.5rem; } .success { color: #008000; } .failed { color: #d40501; } .medium { font-weight: 500; } .hide { display: none; } .show { display: block; } table { table-layout: fixed; width: 100%; display: table; } pre { overflow: scroll; } h4 { padding: 4px 8px; } .coverage { font-size: small; font-weight: normal; } tr.passed { background: #dfd; } tr.skipped { background: #eee; } tr.failed { background: #fdd; } .center { margin-left: auto; margin-right: auto; } .badge { background: #888; color: white; border-radius: 4px; padding: 2px 8px; float: right; } .passed .badge { background: #5c5; ; } .skipped .badge {} .failed .badge { background-color: #d66; } .expando { padding: 8px; display: none; } .content { padding: 16px 0; border-bottom: thin #eeeeee solid; color: #444; white-space: pre; } .duration { font-size: x-small; } div:target .expando { display: block }\n                </style>\n            </head>\n            <body>\n                <h1>UI Test Report</h1>\n                <p>Generated: {1}</p>\n                {2}\n            </body>\n            </html>\n            ";

/// Piece 0 of the summary at the top of the report.
pub const SUMMARY_0: &'static str = "\n            <p>Tests: ";

/// Piece 1 of the summary at the top of the report.
pub const SUMMARY_1: &'static str = "</p><p>Pass: ";

/// Piece 2 of the summary at the top of the report.
pub const SUMMARY_2: &'static str = "</p><p>Failed: ";

/// Piece 3 of the summary at the top of the report.
pub const SUMMARY_3: &'static str = "</p><p>Times: ";

/// Piece 4 of the summary at the top of the report.
pub const SUMMARY_4: &'static str = " m</p>\n            <table style=\"width: 100%;\">\n            ";

/// Piece 0 of the badge of a test with an error.
pub const LINKED_BADGE_0: &'static str = "<span class=\"badge\"><a href=\"?error=";

/// Piece 1 of the badge of a test with an error.
pub const LINKED_BADGE_1: &'static str = "\">";

/// Piece 2 of the badge of a test with an error.
pub const LINKED_BADGE_2: &'static str = "</a></span>";

/// Piece 0 of the badge of a test without an error.
pub const BADGE_0: &'static str = "<span class=\"badge\">";

/// Piece 1 of the badge of a test without an error.
pub const BADGE_1: &'static str = "</span>";

/// Piece 0 of the two table rows of one test.
pub const ROW_0: &'static str = "\n                <tr class=\"";

/// Piece 1 of the two table rows of one test.
pub const ROW_1: &'static str = "\">\n                    <td>";

/// Piece 2 of the two table rows of one test.
pub const ROW_2: &'static str = "</td><td>";

/// Piece 3 of the two table rows of one test.
pub const ROW_3: &'static str = " s</td><td>";

/// Piece 4 of the two table rows of one test.
pub const ROW_4: &'static str = "</td>\n                </tr>\n                <tr id=\"";

/// Piece 5 of the two table rows of one test.
pub const ROW_5: &'static str = "\" class=\"hide\">\n                    <td colspan=\"3\"><pre>";

/// Piece 6 of the two table rows of one test.
pub const ROW_6: &'static str = "</pre></td>\n                </tr>\n                ";

/// The script that shows the error of the test named in the page's query.
pub const SCRIPT: &'static str = "\n        <script>\n            const params = new Proxy(new URLSearchParams(window.location.search), { get: (searchParams, prop) => searchParams.get(prop), });\n            let error = params['error'];\n            if (!!error) {\n                var element = document.getElementById(error);\n                element.classList.remove('hide');\n            }\n        </script>\n        ";

/// The closing tag of the results table.
pub const TABLE_END: &'static str = "</table>";

/// The format in which the report's date is written.
pub const DATE_FORMAT: &'static str = "%Y-%m-%d %H:%M:%S";

/// The offset from UTC, in seconds, of the time zone the date is written in.
pub const DATE_OFFSET_SECS: i32 = 25200;

/// Writes a report of test outcomes to an HTML file.
#[derive(Debug)]
pub struct Reporter {
    pub file_name: String,
}

/// The number of outcomes whose status is `status`.
pub open spec fn count_status(results: Seq<ResultView>, status: Seq<char>) -> nat
    decreases results.len(),
{
    if results.len() == 0 {
        0
    } else {
        count_status(results.drop_last(), status) + (if results.last().status == status {
            1nat
        } else {
            0nat
        })
    }
}

/// Whole seconds one outcome took.
pub open spec fn usage_of(r: ResultView) -> i64 {
    time_usage(r.start_time, r.end_time)
}

/// The sum of the seconds the outcomes took.
pub open spec fn usage_sum(results: Seq<ResultView>) -> int
    decreases results.len(),
{
    if results.len() == 0 {
        0
    } else {
        usage_sum(results.drop_last()) + usage_of(results.last())
    }
}

/// Every running total of the seconds, from the first outcome on, fits an `i64`.
pub open spec fn usage_sum_fits(results: Seq<ResultView>) -> bool {
    forall|k: int|
        0 <= k <= results.len() ==> i64::MIN <= #[trigger] usage_sum(results.take(k)) <= i64::MAX
}

/// The badge that shows a test's status, linked to its error when it has one.
pub open spec fn badge_text(r: ResultView) -> Seq<char> {
    if r.error.len() != 0 {
        LINKED_BADGE_0@ + r.test + LINKED_BADGE_1@ + r.status + LINKED_BADGE_2@
    } else {
        BADGE_0@ + r.status + BADGE_1@
    }
}

/// The two table rows of one outcome, given the row's class.
pub open spec fn row_text(status_class: Seq<char>, r: ResultView) -> Seq<char> {
    ROW_0@ + status_class + ROW_1@ + r.test + ROW_2@ + signed_decimal(usage_of(r) as int) + ROW_3@
        + badge_text(r) + ROW_4@ + r.test + ROW_5@ + r.error + ROW_6@
}

/// The rows of all outcomes, each classed by its lower-cased status.
pub open spec fn rows_text(results: Seq<ResultView>) -> Seq<char>
    decreases results.len(),
{
    if results.len() == 0 {
        Seq::empty()
    } else {
        rows_text(results.drop_last()) + row_text(
            unicode_lowercase(results.last().status),
            results.last(),
        )
    }
}

/// The summary at the top of the report; `minutes` is the total time already written out.
pub open spec fn summary_text(results: Seq<ResultView>, minutes: Seq<char>) -> Seq<char> {
    SUMMARY_0@ + decimal(results.len()) + SUMMARY_1@ + decimal(count_status(results, PASSED@))
        + SUMMARY_2@ + decimal(count_status(results, FAILED@)) + SUMMARY_3@ + minutes + SUMMARY_4@
}

/// The report's content: the summary, the table of outcomes and the script.
pub open spec fn content_text(results: Seq<ResultView>, minutes: Seq<char>) -> Seq<char> {
    summary_text(results, minutes) + rows_text(results) + TABLE_END@ + SCRIPT@
}

/// The whole page: the template with the date and then the content put in.
pub open spec fn page_text(content: Seq<char>, generated_at: Seq<char>) -> Seq<char> {
    replace_all(replace_all(PAGE_TEMPLATE@, "{1}"@, generated_at), "{2}"@, content)
}

/// The text `chrono` writes for the instant `utc_secs` seconds after the
/// epoch, in the time zone `offset_secs` east of UTC, under `format`.
pub uninterp spec fn chrono_local_text(utc_secs: i64, offset_secs: i32, format: Seq<char>) -> Seq<
    char,
>;

/// The earliest instant `chrono::DateTime::from_timestamp` accepts:
/// -262143-01-01 00:00:00 UTC, the first day of `NaiveDate::MIN`'s year.
pub const EARLIEST_TIMESTAMP: i64 = -8_334_601_228_800;

/// The latest instant `chrono::DateTime::from_timestamp` accepts:
/// 262142-12-31 23:59:59 UTC, the last second of `NaiveDate::MAX`.
pub const LATEST_TIMESTAMP: i64 = 8_210_266_876_799;

/// A strftime conversion that `chrono` recognises: year, month, day, hour,
/// minute or second.
pub open spec fn known_conversion(c: char) -> bool {
    c == 'Y' || c == 'm' || c == 'd' || c == 'H' || c == 'M' || c == 'S'
}

/// A strftime format whose every `%` starts one of the known conversions;
/// all its other characters are written as they are.
pub open spec fn simple_strftime(format: Seq<char>) -> bool {
    forall|k: int|
        0 <= k < format.len() && #[trigger] format[k] == '%' ==> k + 1 < format.len()
            && known_conversion(format[k + 1])
}

/// Writes the instant `utc_secs` seconds after the epoch in the time zone
/// `offset_secs` seconds east of UTC under a strftime `format` of known
/// conversions, through `chrono::FixedOffset::east_opt`,
/// `DateTime::from_timestamp`, `StrftimeItems::parse` and
/// `DateTime::format_with_items`. Other formats are not admitted: some that
/// `parse` accepts make the formatting fail, and the text conversion panic.
/// `None` when `east_opt` refuses the offset (exactly the offsets of a day
/// or more) or `from_timestamp` refuses the instant (exactly those outside
/// `EARLIEST_TIMESTAMP..=LATEST_TIMESTAMP`), as the source shows. What the
/// text is, is named by `chrono_local_text`.
#[verifier::external_body]
fn format_in_offset(utc_secs: i64, offset_secs: i32, format: &str) -> (res: Option<String>)
    requires
        simple_strftime(format@),
    ensures
        !(-86_400 < offset_secs < 86_400) ==> res is None,
        !(EARLIEST_TIMESTAMP <= utc_secs <= LATEST_TIMESTAMP) ==> res is None,
        (-86_400 < offset_secs < 86_400 && EARLIEST_TIMESTAMP <= utc_secs <= LATEST_TIMESTAMP)
            ==> res is Some,
        res matches Some(s) ==> s@ == chrono_local_text(utc_secs, offset_secs, format@),
{
    let offset = chrono::FixedOffset::east_opt(offset_secs)?;
    let instant = chrono::DateTime::from_timestamp(utc_secs, 0)?;
    let items = chrono::format::StrftimeItems::new(format).parse().ok()?;
    Some(instant.with_timezone(&offset).format_with_items(items.iter()).to_string())
}

impl Reporter {
    /// A reporter that writes to `file_name`.
    pub fn new(file_name: String) -> (r: Reporter)
        ensures
            r.file_name@ == file_name@,
    {
        Reporter { file_name }
    }

    /// The number of outcomes whose status is `status`.
    pub fn count_status(results: &Vec<TestResult>, status: &str) -> (n: usize)
        ensures
            n == count_status(results.deep_view(), status@),
    {
        let ghost rs = results.deep_view();
        let mut n: usize = 0;
        let mut i: usize = 0;
        while i < results.len()
            invariant
                rs == results.deep_view(),
                i <= rs.len(),
                n == count_status(rs.take(i as int), status@),
                n <= i,
            decreases rs.len() - i,
        {
            assert(rs.take(i + 1).drop_last() =~= rs.take(i as int));
            if str_equal(results[i].status.as_str(), status) {
                n = n + 1;
            }
            i = i + 1;
        }
        assert(rs.take(rs.len() as int) =~= rs);
        n
    }

    /// The total seconds the outcomes took, summed from the first on;
    /// `None` when a running total leaves the range of `i64`.
    pub fn total_time_usage(results: &Vec<TestResult>) -> (total: Option<i64>)
        ensures
            total is Some <==> usage_sum_fits(results.deep_view()),
            total matches Some(t) ==> t == usage_sum(results.deep_view()),
    {
        let ghost rs = results.deep_view();
        let mut total: i64 = 0;
        let mut i: usize = 0;
        assert(rs.take(0) =~= Seq::<ResultView>::empty());
        while i < results.len()
            invariant
                rs == results.deep_view(),
                i <= rs.len(),
                total == usage_sum(rs.take(i as int)),
                forall|k: int|
                    0 <= k <= i ==> i64::MIN <= #[trigger] usage_sum(rs.take(k)) <= i64::MAX,
            decreases rs.len() - i,
        {
            assert(rs.take(i + 1).drop_last() =~= rs.take(i as int));
            let usage = results[i].get_time_usage();
            match total.checked_add(usage) {
                Some(t) => {
                    total = t;
                },
                None => {
                    assert(!(i64::MIN <= usage_sum(rs.take(i + 1)) <= i64::MAX));
                    return None;
                },
            }
            i = i + 1;
        }
        assert(rs.take(rs.len() as int) =~= rs);
        Some(total)
    }

    /// The badge that shows a test's status.
    pub fn badge(r: &TestResult) -> (b: String)
        ensures
            b@ == badge_text(r@),
    {
        if !r.error.as_str().is_empty() {
            String::from_str(LINKED_BADGE_0).concat(r.test.as_str()).concat(LINKED_BADGE_1).concat(
                r.status.as_str(),
            ).concat(LINKED_BADGE_2)
        } else {
            String::from_str(BADGE_0).concat(r.status.as_str()).concat(BADGE_1)
        }
    }

    /// The two table rows of one outcome, given the row's class.
    pub fn render_row(status_class: &str, r: &TestResult) -> (row: String)
        ensures
            row@ == row_text(status_class@, r@),
    {
        let usage = i64_text(r.get_time_usage());
        let badge = Self::badge(r);
        String::from_str(ROW_0).concat(status_class).concat(ROW_1).concat(r.test.as_str()).concat(
            ROW_2,
        ).concat(usage.as_str()).concat(ROW_3).concat(badge.as_str()).concat(ROW_4).concat(
            r.test.as_str(),
        ).concat(ROW_5).concat(r.error.as_str()).concat(ROW_6)
    }

    /// The rows of all outcomes, each classed by its status in lower case.
    pub fn render_rows(results: &Vec<TestResult>) -> (rows: String)
        ensures
            rows@ == rows_text(results.deep_view()),
    {
        let ghost rs = results.deep_view();
        let mut rows = String::new();
        let mut i: usize = 0;
        while i < results.len()
            invariant
                rs == results.deep_view(),
                i <= rs.len(),
                rows@ == rows_text(rs.take(i as int)),
            decreases rs.len() - i,
        {
            assert(rs.take(i + 1).drop_last() =~= rs.take(i as int));
            let class = to_lowercase(results[i].status.as_str());
            let row = Self::render_row(class.as_str(), &results[i]);
            rows.append(row.as_str());
            i = i + 1;
        }
        assert(rs.take(rs.len() as int) =~= rs);
        rows
    }

    /// The report's content; `minutes` is the total time, written out.
    pub fn render_content(results: &Vec<TestResult>, minutes: &str) -> (c: String)
        ensures
            c@ == content_text(results.deep_view(), minutes@),
    {
        let mut c = String::from_str(SUMMARY_0);
        push_decimal(&mut c, results.len() as u64);
        c.append(SUMMARY_1);
        push_decimal(&mut c, Self::count_status(results, PASSED) as u64);
        c.append(SUMMARY_2);
        push_decimal(&mut c, Self::count_status(results, FAILED) as u64);
        c.append(SUMMARY_3);
        c.append(minutes);
        c.append(SUMMARY_4);
        let rows = Self::render_rows(results);
        c.append(rows.as_str());
        c.append(TABLE_END);
        c.append(SCRIPT);
        c
    }

    /// The whole page, given its content and the date it was generated.
    pub fn render_page(content: &str, generated_at: &str) -> (page: String)
        ensures
            page@ == page_text(content@, generated_at@),
    {
        proof {
            reveal_strlit("{1}");
            reveal_strlit("{2}");
        }
        let dated = replace_all_in(PAGE_TEMPLATE, "{1}", generated_at);
        replace_all_in(dated.as_str(), "{2}", content)
    }

    /// The report page for the outcomes; `minutes` is the total time written
    /// out, `generated_at` the date the report was made.
    pub fn render(&self, results: &Vec<TestResult>, minutes: &str, generated_at: &str) -> (page:
        String)
        ensures
            page@ == page_text(content_text(results.deep_view(), minutes@), generated_at@),
    {
        let content = Self::render_content(results, minutes);
        Self::render_page(content.as_str(), generated_at)
    }

    /// The date a report made at `utc_secs` seconds after the epoch carries:
    /// `DATE_FORMAT` in the time zone seven hours east of UTC.
    /// `None` exactly for instants `chrono` cannot represent.
    pub fn generated_at(utc_secs: i64) -> (d: Option<String>)
        ensures
            d is Some <==> EARLIEST_TIMESTAMP <= utc_secs <= LATEST_TIMESTAMP,
            d matches Some(s) ==> s@ == chrono_local_text(utc_secs, DATE_OFFSET_SECS, DATE_FORMAT@),
    {
        proof {
            reveal_strlit("%Y-%m-%d %H:%M:%S");
            assert(simple_strftime(DATE_FORMAT@));
        }
        format_in_offset(utc_secs, DATE_OFFSET_SECS, DATE_FORMAT)
    }
}

/// Outcomes as the runner records them are each either passed or failed,
/// so the passed and failed counts of a report add up to the number of
/// outcomes.
pub proof fn lemma_counts_cover(results: Seq<ResultView>)
    requires
        forall|k: int|
            0 <= k < results.len() ==> #[trigger] results[k].status == PASSED@
                || results[k].status == FAILED@,
    ensures
        count_status(results, PASSED@) + count_status(results, FAILED@) == results.len(),
    decreases results.len(),
{
    reveal_strlit("PASSED");
    reveal_strlit("FAILED");
    assert(PASSED@ != FAILED@) by {
        assert(PASSED@[0] != FAILED@[0]);
    }
    if results.len() > 0 {
        let init = results.drop_last();
        assert forall|k: int| 0 <= k < init.len() implies #[trigger] init[k].status == PASSED@
            || init[k].status == FAILED@ by {
            assert(init[k] == results[k]);
        }
        lemma_counts_cover(init);
        assert(results.last() == results[results.len() - 1]);
    }
}

} // verus!
