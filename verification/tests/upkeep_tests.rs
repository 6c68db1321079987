use aranet_cli::demo::{create_aranet4_device, create_radon_device, generate_co2_history, NANOS_PER_MINUTE};
use aranet_cli::export::{export_timestamp, format_export_timestamp};
use aranet_cli::helpers::{retain_unexpired, Toast, ToastType};
use aranet_cli::history::{radon_averages_at, HistoryRecord, NANOS_PER_DAY};
use aranet_cli::service::AutoRefresh;
use aranet_cli::session::AppState;
use aranet_cli::tray::TrayState;
use aranet_cli::types::Trend;
use aranet_cli::ui::{auto_refresh_actions, connected_reading_intervals, UiAction};

const NOW: i128 = 1_704_067_200_000_000_000;

fn demo_pair() -> Vec<aranet_cli::device::DeviceState> {
    vec![
        create_aranet4_device(NOW, time::OffsetDateTime::UNIX_EPOCH),
        create_radon_device(Vec::new(), time::OffsetDateTime::UNIX_EPOCH),
    ]
}

#[test]
fn radon_window_averages_lie_between_window_extremes() {
    let rec = |age_days: i128, radon: u32| HistoryRecord {
        timestamp_nanos: NOW - age_days * NANOS_PER_DAY,
        co2: 0,
        humidity: 0,
        radon: Some(radon),
    };
    let h = [rec(20, 10), rec(5, 200), rec(0, 90), rec(0, 91)];
    let (day, week, month) = radon_averages_at(&h, NOW);
    assert_eq!(day, Some(90));
    assert_eq!(week, Some(127));
    assert_eq!(month, Some(97));
    for (avg, lo, hi) in [(day, 90, 91), (week, 90, 200), (month, 10, 200)] {
        let a = avg.unwrap();
        assert!(lo <= a && a <= hi);
    }
}

#[test]
fn integer_trend_takes_the_whole_i64_range() {
    assert_eq!(Trend::from_int_delta(i64::MAX, i64::MIN, 20).indicator(), Trend::Rising.indicator());
    assert_eq!(Trend::from_int_delta(i64::MIN, i64::MAX, 20).indicator(), Trend::Falling.indicator());
    assert_eq!(Trend::from_int_delta(i64::MIN, i64::MIN + 19, 20).indicator(), Trend::Stable.indicator());
}

#[test]
fn demo_history_before_the_epoch_uses_the_utc_hour() {
    let now: i128 = -10 * 3_600_000_000_000;
    let h = generate_co2_history(1, now);
    assert_eq!(h[0].timestamp_nanos, now);
    assert_eq!(h[0].co2, 830);
    let night = generate_co2_history(2, -3_600_000_000_000);
    assert_eq!(night[1].timestamp_nanos - night[0].timestamp_nanos, 5 * NANOS_PER_MINUTE);
    assert_eq!(night[0].co2, 400);
}

#[test]
fn connected_intervals_drive_the_automatic_refresh() {
    let devices = demo_pair();
    assert_eq!(connected_reading_intervals(&devices), vec![300, 600]);

    let mut off = AutoRefresh { enabled: false, last: None };
    assert!(auto_refresh_actions(&mut off, &devices).is_empty());
    assert!(off.last.is_none());

    let mut pacing = AutoRefresh { enabled: true, last: None };
    assert!(auto_refresh_actions(&mut pacing, &devices).is_empty());
    assert!(pacing.last.is_some());
    let started = pacing.last;
    assert!(auto_refresh_actions(&mut pacing, &devices).is_empty());
    assert_eq!(pacing.last, started);

    let mut due = AutoRefresh {
        enabled: true,
        last: Some(std::time::Instant::now() - std::time::Duration::from_secs(301)),
    };
    let actions = auto_refresh_actions(&mut due, &devices);
    assert_eq!(actions.len(), 2);
    assert!(matches!(&actions[0], UiAction::RefreshReading { device_id } if device_id == &devices[0].id));
    assert!(matches!(&actions[1], UiAction::RefreshReading { device_id } if device_id == &devices[1].id));
}

#[test]
fn expired_toasts_are_dropped_in_order() {
    let toasts = vec![
        Toast::new("a".to_string(), ToastType::Info),
        Toast::new("b".to_string(), ToastType::Error),
        Toast::new("c".to_string(), ToastType::Success),
    ];
    let kept = retain_unexpired(toasts, &vec![4_000_000_001, 4_000_000_000, 0]);
    let names: Vec<&str> = kept.iter().map(|t| t.message.as_str()).collect();
    assert_eq!(names, vec!["b", "c"]);

    let mut app = AppState::new(TrayState::default());
    app.add_toast("fresh".to_string(), ToastType::Info);
    app.cleanup_toasts();
    assert_eq!(app.toasts.len(), 1);
}

#[test]
fn export_timestamps_are_written_from_date_and_time_parts() {
    assert_eq!(format_export_timestamp(2024, 1, 5, 9, 3, 7), "20240105_090307");
    assert_eq!(format_export_timestamp(-5, 12, 31, 23, 59, 59), "-00051231_235959");
    assert_eq!(format_export_timestamp(99, 10, 10, 0, 0, 0), "00991010_000000");
    let now = export_timestamp();
    assert_eq!(now.len(), 15);
    assert_eq!(&now[8..9], "_");
}
