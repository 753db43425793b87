use flutter_test_runner::text::{
    chars_of, i64_text, join_with, replace_all_in, str_contains, str_equal, u64_text,
};

#[test]
fn contains_finds_inner_and_edge_occurrences() {
    assert!(str_contains("some_widget_test.dart", "_test.dart"));
    assert!(str_contains("abc", "a"));
    assert!(str_contains("abc", "c"));
    assert!(!str_contains("abc", "abcd"));
    assert!(!str_contains("integration", "_test.dart"));
}

#[test]
fn contains_empty_pattern_everywhere() {
    assert!(str_contains("", ""));
    assert!(str_contains("xyz", ""));
}

#[test]
fn replace_matches_std_replace() {
    let cases = [
        ("report-{}.html", "{}", "ios"),
        ("{}-{}", "{}", "android"),
        ("aaaa", "aa", "b"),
        ("aaa", "aa", "b"),
        ("no placeholder", "{}", "ios"),
        ("", "{}", "ios"),
        ("{{}}", "{}", ""),
        ("héllo wörld", "ö", "o"),
    ];
    for (text, from, to) in cases {
        assert_eq!(replace_all_in(text, from, to), text.replace(from, to));
    }
}

#[test]
fn join_matches_std_join() {
    let parts = vec!["iPhone 14".to_string(), "iPhone 14 Pro".to_string()];
    assert_eq!(join_with(&parts, "|"), "iPhone 14|iPhone 14 Pro");
    let one = vec!["only".to_string()];
    assert_eq!(join_with(&one, " "), "only");
    let none: Vec<String> = vec![];
    assert_eq!(join_with(&none, " "), "");
}

#[test]
fn decimal_matches_display() {
    for n in [0u64, 7, 10, 5554, 65535, u64::MAX] {
        assert_eq!(u64_text(n), n.to_string());
    }
    for i in [0i64, -1, 42, -1000, i64::MAX, i64::MIN] {
        assert_eq!(i64_text(i), i.to_string());
    }
}

#[test]
fn chars_and_equality() {
    assert_eq!(chars_of("aé"), vec!['a', 'é']);
    assert!(str_equal("fvm", "fvm"));
    assert!(!str_equal("fvm", "flutter"));
}
