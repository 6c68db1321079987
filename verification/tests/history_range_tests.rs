use aranet_cli::history::{
    choose_history_filter, custom_range, custom_range_checked, format_date, parse_custom_date, NANOS_PER_DAY,
};
use aranet_cli::text::split_at_char;
use aranet_cli::types::HistoryFilter;

const JAN_1_2024: i128 = 1_704_067_200_000_000_000;

#[test]
fn custom_dates_parse_to_midnight_utc() {
    assert_eq!(parse_custom_date("2024-01-01"), Some(JAN_1_2024));
    assert_eq!(parse_custom_date("  2024-1-2\n"), Some(JAN_1_2024 + NANOS_PER_DAY));
    assert_eq!(parse_custom_date("+2024-+01-01"), Some(JAN_1_2024));
    assert_eq!(parse_custom_date("1970-01-01"), Some(0));
    assert_eq!(parse_custom_date("2024-02-29").is_some(), true);
    assert_eq!(parse_custom_date("2023-02-29"), None);
    assert_eq!(parse_custom_date("2024-13-01"), None);
    assert_eq!(parse_custom_date("2024-00-10"), None);
    assert_eq!(parse_custom_date("2024-04-31"), None);
    assert_eq!(parse_custom_date("10000-01-01"), None);
    assert_eq!(parse_custom_date("2024-01"), None);
    assert_eq!(parse_custom_date("2024-01-01-"), None);
    assert_eq!(parse_custom_date("2024/01/01"), None);
    assert_eq!(parse_custom_date(""), None);
    assert_eq!(parse_custom_date("2024-1 -1"), None);
    assert_eq!(parse_custom_date("2024-256-1"), None);
}

#[test]
fn custom_range_covers_whole_days() {
    assert_eq!(custom_range(HistoryFilter::Last7Days, "2024-01-01", "2024-01-02"), (None, None));
    assert_eq!(
        custom_range(HistoryFilter::Custom, "2024-01-01", "2024-01-01"),
        (Some(JAN_1_2024), Some(JAN_1_2024 + NANOS_PER_DAY - 1_000_000_000))
    );
    assert_eq!(custom_range(HistoryFilter::Custom, "bad", ""), (None, None));
    assert_eq!(custom_range(HistoryFilter::Custom, "", "2024-01-01").0, None);
}

#[test]
fn filter_choice_fills_empty_custom_fields() {
    let mut f = HistoryFilter::All;
    let mut start = String::new();
    let mut end = String::new();
    choose_history_filter(&mut f, &mut start, &mut end, HistoryFilter::Last24Hours, (2024, 3, 9), (2024, 3, 2));
    assert_eq!(f, HistoryFilter::Last24Hours);
    assert!(start.is_empty() && end.is_empty());
    choose_history_filter(&mut f, &mut start, &mut end, HistoryFilter::Custom, (2024, 3, 9), (2024, 3, 2));
    assert_eq!(f, HistoryFilter::Custom);
    assert_eq!((start.as_str(), end.as_str()), ("2024-03-02", "2024-03-09"));
    choose_history_filter(&mut f, &mut start, &mut end, HistoryFilter::Custom, (2025, 1, 1), (2024, 12, 25));
    assert_eq!((start.as_str(), end.as_str()), ("2024-03-02", "2024-03-09"));
}

#[test]
fn dates_are_zero_padded() {
    assert_eq!(format_date(2024, 3, 9), "2024-03-09");
    assert_eq!(format_date(987, 12, 31), "0987-12-31");
    assert_eq!(format_date(-5, 1, 1), "-005-01-01");
    assert_eq!(format_date(12345, 10, 100), "12345-10-100");
    assert_eq!(format!("{:04}-{:02}-{:02}", -5, 1u8, 1u8), format_date(-5, 1, 1));
}

#[test]
fn split_keeps_empty_pieces() {
    assert_eq!(split_at_char("a-b--c", '-'), vec!["a", "b", "", "c"]);
    assert_eq!(split_at_char("", '-'), vec![""]);
    assert_eq!(split_at_char("-", '-'), vec!["", ""]);
}

#[test]
fn checked_range_leaves_the_last_calendar_day_open() {
    assert_eq!(
        custom_range_checked(HistoryFilter::Custom, "2024-01-01", "9999-12-31"),
        (Some(JAN_1_2024), None)
    );
    assert_eq!(
        custom_range_checked(HistoryFilter::Custom, "2024-01-01", "2024-01-01"),
        custom_range(HistoryFilter::Custom, "2024-01-01", "2024-01-01")
    );
    assert_eq!(
        custom_range_checked(HistoryFilter::Custom, "x", "2024-01-01"),
        (None, Some(JAN_1_2024 + NANOS_PER_DAY - 1_000_000_000))
    );
    assert_eq!(custom_range_checked(HistoryFilter::All, "2024-01-01", "9999-12-31"), (None, None));
}

#[test]
fn custom_dates_trim_unicode_whitespace_and_count_calendar_days() {
    assert_eq!(parse_custom_date("\u{3000}2024-01-01\u{a0}"), Some(JAN_1_2024));
    assert_eq!(parse_custom_date("1969-12-31"), Some(-NANOS_PER_DAY));
    assert_eq!(parse_custom_date("2024-03-01"), Some(1_709_251_200_000_000_000));
    assert_eq!(parse_custom_date("1900-03-01"), Some(-2_203_891_200_000_000_000));
    assert!(parse_custom_date("9999-12-31").is_some());
}
