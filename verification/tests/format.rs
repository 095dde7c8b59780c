use youtube_terminal::filters::{SearchDate, SearchItemType, SearchLength, SearchSort};
use youtube_terminal::format::{
    build_filter_summary, decimal, format_last_run, join_nonempty, format_time, format_time_ago,
    loading_spinner, ran_ago_label, seconds_between, simple_hash, time_ago_label, truncate_str,
};
use youtube_terminal::saved_searches::SavedSearch;

#[test]
fn test_truncate_str() {
    assert_eq!(truncate_str("hello", 10), "hello");
    assert_eq!(truncate_str("hello world", 8), "hello...");
    assert_eq!(truncate_str("ab", 2), "ab");
    assert_eq!(truncate_str("abcd", 3), "abc");
    // Unicode safety
    assert_eq!(truncate_str("こんにちは世界", 6), "こんに...");
}

#[test]
fn test_simple_hash_deterministic() {
    let h1 = simple_hash("abc");
    let h2 = simple_hash("abc");
    assert_eq!(h1, h2);
    assert_ne!(simple_hash("abc"), simple_hash("xyz"));
}

#[test]
fn simple_hash_exact_values() {
    assert_eq!(simple_hash(""), 0);
    // ((97 * 31) + 98) * 31 + 99
    assert_eq!(simple_hash("abc"), 96354);
    // "é" is the bytes 0xC3 0xA9
    assert_eq!(simple_hash("é"), 0xC3 * 31 + 0xA9);
}

#[test]
fn decimal_digits() {
    assert_eq!(decimal(0), "0");
    assert_eq!(decimal(7), "7");
    assert_eq!(decimal(1234567890), "1234567890");
}

#[test]
fn format_time_positions() {
    assert_eq!(format_time(0), "0:00");
    assert_eq!(format_time(65), "1:05");
    assert_eq!(format_time(3599), "59:59");
    assert_eq!(format_time(3600), "1:00:00");
    assert_eq!(format_time(3725), "1:02:05");
}

#[test]
fn time_ago_labels() {
    assert_eq!(time_ago_label(-5), "just now");
    assert_eq!(time_ago_label(59), "just now");
    assert_eq!(time_ago_label(60), "1m ago");
    assert_eq!(time_ago_label(3599), "59m ago");
    assert_eq!(time_ago_label(3600), "1h ago");
    assert_eq!(time_ago_label(86399), "23h ago");
    assert_eq!(time_ago_label(86400), "1d ago");
    assert_eq!(time_ago_label(29 * 86400), "29d ago");
    assert_eq!(time_ago_label(30 * 86400), "1mo ago");
    assert_eq!(time_ago_label(364 * 86400), "12mo ago");
    assert_eq!(time_ago_label(365 * 86400), "1y ago");
    assert_eq!(time_ago_label(800 * 86400), "2y ago");
}

#[test]
fn last_run_labels() {
    assert_eq!(ran_ago_label(10), "ran just now");
    assert_eq!(ran_ago_label(7200), "ran 2h ago");
    // 2000-01-01T00:00:00Z is 946684800 seconds after the epoch.
    let now = (946_684_800 + 3 * 86_400 + 5, 0);
    assert_eq!(format_last_run(&None, now), "never run");
    assert_eq!(format_last_run(&Some("yesterday".into()), now), "never run");
    assert_eq!(format_last_run(&Some("2000-01-01T00:00:00Z".into()), now), "ran 3d ago");
    assert_eq!(format_last_run(&Some("2000-01-01T02:00:00+02:00".into()), now), "ran 3d ago");
    // A time in the future is "just now".
    assert_eq!(format_last_run(&Some("2999-01-01T00:00:00Z".into()), now), "ran just now");
    // The stored format has no offset, so it does not parse.
    assert_eq!(format_last_run(&Some("2000-01-01 00:00:00".into()), now), "never run");
}

#[test]
fn seconds_between_rounds_toward_zero() {
    assert_eq!(seconds_between((100, 300_000_000), (40, 900_000_000)), 59);
    assert_eq!(seconds_between((40, 0), (100, 500_000_000)), -60);
    assert_eq!(seconds_between((10, 0), (10, 999_999_999)), 0);
}

#[test]
fn time_ago_of_old_and_future_videos() {
    let now = (1_000_000_000, 500_000_000);
    assert_eq!(format_time_ago(0, now), "31y ago");
    assert_eq!(format_time_ago(1_000_000_000 - 7_200, now), "2h ago");
    assert_eq!(format_time_ago(1_000_000_000 - 59, now), "just now");
    assert_eq!(format_time_ago(i64::MAX / 2, now), "just now");
}

#[test]
fn spinner_frames_cycle() {
    assert_eq!(loading_spinner(0), "[    ]");
    assert_eq!(loading_spinner(119), "[    ]");
    assert_eq!(loading_spinner(120), "[=   ]");
    assert_eq!(loading_spinner(480), "[ ===]");
    assert_eq!(loading_spinner(840), "[    ]");
    assert_eq!(loading_spinner(960), "[    ]");
    assert_eq!(loading_spinner(1080), "[=   ]");
}

fn saved(sort: SearchSort, date: SearchDate, t: SearchItemType, l: SearchLength) -> SavedSearch {
    SavedSearch {
        id: 1,
        name: "n".into(),
        query: "q".into(),
        sort,
        date,
        item_type: t,
        length: l,
        created_at: "2024-01-01".into(),
        last_run_at: None,
    }
}

#[test]
fn filter_summary_lists_non_default_filters() {
    let none = saved(SearchSort::Relevance, SearchDate::Any, SearchItemType::All, SearchLength::Any);
    assert_eq!(build_filter_summary(&none), "");
    let one = saved(SearchSort::Views, SearchDate::Any, SearchItemType::All, SearchLength::Any);
    assert_eq!(build_filter_summary(&one), "Sort: Views");
    let two = saved(SearchSort::Relevance, SearchDate::Week, SearchItemType::All, SearchLength::Long);
    assert_eq!(build_filter_summary(&two), "Date: Week \u{00b7} Length: Long");
}

#[test]
fn join_nonempty_skips_empty_parts() {
    let parts = vec!["1.2K views".to_string(), String::new(), "3 days ago".to_string()];
    assert_eq!(join_nonempty(&parts, " \u{00b7} "), "1.2K views \u{00b7} 3 days ago");
    let none: Vec<String> = vec![String::new(), String::new()];
    assert_eq!(join_nonempty(&none, " \u{00b7} "), "");
    let one = vec![String::new(), "4:05".to_string()];
    assert_eq!(join_nonempty(&one, "  \u{00b7}  "), "4:05");
}
