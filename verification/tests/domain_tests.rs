use aranet_cli::alerts::{message_level, AlertHistory};
use aranet_cli::circuit::{CircuitBreaker, CircuitState};
use aranet_cli::config::{parse_u64, ConfigKey, ConfigValues};
use aranet_cli::device::{format_connected_time, CurrentReading, SessionStats};
use aranet_cli::export::{
    csv_header_line, csv_line, export_directory_for, export_file_name, export_format_of, ExportFormat,
};
use aranet_cli::helpers::{format_uptime, interval_options, Toast};
use aranet_cli::history::{
    end_of_day, filter_history, format_sync_age, radon_averages_at, HistoryRecord, NANOS_PER_DAY,
};
use aranet_cli::menu::{dark_mode_theme, interval_check_marks, theme_check_marks};
use aranet_cli::service::{
    auto_refresh_interval, format_service_error, plan_history_sync, service_command_args,
    service_status_from_output, AutoRefresh, ServiceError,
};
use aranet_cli::timefmt::{format_age_seconds, format_hms, is_stale_age};
use aranet_cli::tray::{check_co2_threshold, status_item_text, style_tray_icon, TrayState};
use aranet_cli::types::{
    age_str_from_secs, AlertEntry, AlertSeverity, AlertType, Co2Level, ConnectionState,
    HistoryFilter, RadonLevel, Trend,
};

#[test]
fn circuit_breaker_opens_after_three_failures_and_recovers() {
    let mut cb = CircuitBreaker::new();
    assert_eq!(cb.state(), CircuitState::Closed);
    assert!(cb.should_allow());
    cb.record_failure();
    cb.record_failure();
    assert!(!cb.is_open());
    assert_eq!(cb.failure_count(), 2);
    cb.record_failure();
    assert!(cb.is_open());
    assert_eq!(cb.time_until_retry_after(10_000_000_000), Some(20_000_000_000));
    assert_eq!(cb.time_until_retry_after(30_000_000_000), None);
    assert!(!cb.should_allow_after(29_999_999_999));
    assert_eq!(cb.state(), CircuitState::Open);
    assert!(cb.should_allow_after(30_000_000_000));
    assert_eq!(cb.state(), CircuitState::HalfOpen);
    cb.record_success();
    assert_eq!(cb.state(), CircuitState::Closed);
    assert_eq!(cb.failure_count(), 0);
    assert_eq!(cb.time_until_retry(), None);
}

#[test]
fn config_set_and_get() {
    let mut c = ConfigValues { device: None, format: None, timeout: None, no_color: false, fahrenheit: false };
    assert_eq!(c.get_text(ConfigKey::Format), "text");
    assert_eq!(c.get_text(ConfigKey::Timeout), "");
    assert!(c.set_value(ConfigKey::Timeout, "45").is_ok());
    assert_eq!(c.get_text(ConfigKey::Timeout), "45");
    assert_eq!(
        c.set_value(ConfigKey::Timeout, "abc"),
        Err("Invalid timeout value: abc. Must be a positive integer (seconds).".to_string())
    );
    assert_eq!(c.timeout, Some(45));
    assert!(c.set_value(ConfigKey::Format, "JSON").is_ok());
    assert_eq!(c.get_text(ConfigKey::Format), "json");
    assert_eq!(
        c.set_value(ConfigKey::Format, "xml"),
        Err("Invalid format: xml. Valid values: text, json, csv".to_string())
    );
    assert!(c.set_value(ConfigKey::NoColor, "yes").is_ok());
    assert!(c.no_color);
    assert_eq!(
        c.set_value(ConfigKey::Fahrenheit, "maybe"),
        Err("Invalid fahrenheit value: maybe. Use 'true' or 'false'.".to_string())
    );
    assert!(c.set_value(ConfigKey::Device, "AA:BB").is_ok());
    assert_eq!(c.get_text(ConfigKey::Device), "AA:BB");
    c.unset(ConfigKey::Device);
    assert_eq!(c.device, None);
}

#[test]
fn parse_u64_follows_from_str() {
    assert_eq!(parse_u64("42"), Some(42));
    assert_eq!(parse_u64("+7"), Some(7));
    assert_eq!(parse_u64("18446744073709551615"), Some(u64::MAX));
    assert_eq!(parse_u64("18446744073709551616"), None);
    assert_eq!(parse_u64(""), None);
    assert_eq!(parse_u64("-1"), None);
    assert_eq!(parse_u64("1 "), None);
}

#[test]
fn uptime_and_age_texts() {
    assert_eq!(format_uptime(59), "59s");
    assert_eq!(format_uptime(61), "1m 1s");
    assert_eq!(format_uptime(3661), "1h 1m");
    assert_eq!(format_uptime(90061), "1d 1h");
    assert_eq!(format_connected_time(59), "59s");
    assert_eq!(format_connected_time(3700), "1h 1m");
    assert_eq!(age_str_from_secs(30), "just now");
    assert_eq!(age_str_from_secs(150), "2 min ago");
    assert_eq!(age_str_from_secs(7200), "2 hr ago");
    assert_eq!(age_str_from_secs(200000), "2 days ago");
    assert_eq!(format_age_seconds(-5), "just now");
    assert_eq!(format_age_seconds(59), "just now");
    assert_eq!(format_age_seconds(60), "1 minute ago");
    assert_eq!(format_age_seconds(150), "2 minutes ago");
    assert_eq!(format_age_seconds(3600), "1 hour ago");
    assert_eq!(format_age_seconds(86400), "1 day ago");
    assert_eq!(format_age_seconds(172800), "2 days ago");
    assert_eq!(format_sync_age(59), "just now");
    assert_eq!(format_sync_age(120), "2 min ago");
    assert_eq!(format_sync_age(7200), "2 hr ago");
    assert_eq!(format_sync_age(172800), "2 days ago");
    assert_eq!(format_hms(7, 5, 9), "07:05:09");
}

#[test]
fn staleness() {
    assert!(!is_stale_age(600, 300));
    assert!(is_stale_age(601, 300));
    assert!(!is_stale_age(1800, 0));
    assert!(is_stale_age(1801, 0));
    assert!(!is_stale_age(-10, 0));
}

#[test]
fn toast_expiry() {
    assert!(!Toast::is_expired_after(4_000_000_000));
    assert!(Toast::is_expired_after(4_000_000_001));
    let options = interval_options();
    assert_eq!(options, vec![(60, "1 min"), (120, "2 min"), (300, "5 min"), (600, "10 min")]);
}

#[test]
fn alert_log_keeps_newest_within_limit() {
    let mut log = AlertHistory::new(2);
    log.log_alert(AlertEntry::battery_low("A", 10));
    log.log_alert(AlertEntry::radon("B", 200, RadonLevel::High));
    log.log_alert(AlertEntry::co2("C", 1600, Co2Level::Bad));
    assert_eq!(log.len(), 2);
    assert_eq!(log.get(0).device_name, "C");
    assert_eq!(log.get(1).device_name, "B");
    assert_eq!(log.get(1).message, "Radon level high (200 Bq/m³) - action recommended");
    assert_eq!(log.get(0).value, "1600 ppm");
    assert_eq!(log.get(0).time_str.len(), 8);
}

#[test]
fn co2_alerts_only_on_transitions() {
    let mut log = AlertHistory::new(10);
    log.check_and_log_co2_alert("K", 900);
    assert_eq!(log.len(), 0);
    log.check_and_log_co2_alert("K", 1200);
    assert_eq!(log.len(), 1);
    log.check_and_log_co2_alert("K", 1300);
    assert_eq!(log.len(), 1);
    log.check_and_log_co2_alert("K", 1600);
    assert_eq!(log.len(), 2);
    assert_eq!(log.last_co2_alert_level("K"), Some(Co2Level::Bad));
    log.check_and_log_co2_alert("K", 500);
    assert_eq!(log.len(), 3);
    assert_eq!(log.get(0).message, "CO2 level returned to normal (500 ppm)");
    assert_eq!(log.last_co2_alert_level("other"), None);
    assert_eq!(message_level("CO2 level dangerous (1600 ppm) - ventilate immediately"), Co2Level::Bad);
    assert_eq!(log.get(0).alert_type, AlertType::Co2);
}

#[test]
fn battery_alert_text() {
    let a = AlertEntry::battery_low("Office", 9);
    assert_eq!(a.message, "Battery low (9%) - consider charging");
    assert_eq!(a.value, "9%");
}

#[test]
fn tray_tooltip_and_threshold() {
    let mut t = TrayState::default();
    assert_eq!(t.tooltip(), "Aranet");
    t.device_name = Some("Kitchen".to_string());
    t.co2_ppm = Some(900);
    assert_eq!(t.tooltip(), "Aranet\nDevice: Kitchen\nCO2: 900 ppm (Moderate)");
    assert_eq!(status_item_text(None), "Aranet - No reading");

    // Notifications off: levels are tracked, nothing is sent.
    let mut s = TrayState::default();
    assert!(check_co2_threshold(&mut s, 1600, "K").is_none());
    assert_eq!(s.co2_level, Some(Co2Level::Bad));
    s.notifications_enabled = true;
    let n = check_co2_threshold(&mut s, 1600, "K").expect("notification");
    assert_eq!(n.title, "CO2 Level Critical");
    assert_eq!(n.body, "K: 1600 ppm - Ventilate immediately!");
    assert!(check_co2_threshold(&mut s, 1700, "K").is_none());
    let back = check_co2_threshold(&mut s, 600, "K").expect("recovery notification");
    assert_eq!(back.title, "CO2 Level Normal");
    assert!(!back.is_critical);
    s.do_not_disturb = true;
    assert!(check_co2_threshold(&mut s, 1600, "K").is_none());
}

#[test]
fn tray_icon_styling() {
    let mut px = vec![0, 0, 0, 200, 10, 10, 10, 0, 1];
    assert!(style_tray_icon(&mut px, Some(Co2Level::Good), true));
    assert_eq!(px, vec![255, 255, 255, 200, 10, 10, 10, 0, 1]);
    let mut px = vec![0, 0, 0, 200, 10, 10, 10, 100];
    assert!(!style_tray_icon(&mut px, Some(Co2Level::Poor), true));
    assert_eq!(px, vec![255, 152, 0, 200, 10, 10, 10, 100]);
}

#[test]
fn history_filters_and_averages() {
    let now: i128 = 1_700_000_000_000_000_000;
    let rec = |age_days: i128, radon: Option<u32>| HistoryRecord {
        timestamp_nanos: now - age_days * NANOS_PER_DAY,
        co2: 500,
        humidity: 40,
        radon,
    };
    let h = vec![rec(40, Some(10)), rec(20, Some(100)), rec(3, Some(50)), rec(0, Some(30))];
    assert_eq!(radon_averages_at(&h, now), (Some(30), Some(40), Some(60)));
    assert_eq!(radon_averages_at(&[], now), (None, None, None));

    assert_eq!(filter_history(&h, HistoryFilter::All, now, None, None).len(), 4);
    assert_eq!(filter_history(&h, HistoryFilter::Last24Hours, now, None, None).len(), 1);
    assert_eq!(filter_history(&h, HistoryFilter::Last7Days, now, None, None).len(), 2);
    assert_eq!(filter_history(&h, HistoryFilter::Last30Days, now, None, None).len(), 3);
    let start = now - 25 * NANOS_PER_DAY;
    let custom = filter_history(&h, HistoryFilter::Custom, now, Some(start), Some(end_of_day(now - 3 * NANOS_PER_DAY)));
    assert_eq!(custom.iter().map(|r| r.radon).collect::<Vec<_>>(), vec![Some(100), Some(50)]);
    assert_eq!(end_of_day(0), NANOS_PER_DAY - 1_000_000_000);
}

#[test]
fn service_messages_and_decisions() {
    let e = ServiceError::Api { status: 404, message: "x".to_string() };
    assert_eq!(format_service_error(&e), "Endpoint not found. The service may be an older version.");
    let e = ServiceError::Api { status: 503, message: "busy".to_string() };
    assert_eq!(format_service_error(&e), "Service error (503): busy");
    let e = ServiceError::Api { status: 401, message: String::new() };
    assert_eq!(format_service_error(&e), "Authentication required. Check your API key.");
    let e = ServiceError::NotReachable { url: "http://h:1".to_string() };
    assert_eq!(format_service_error(&e), "Service not reachable at http://h:1. Run 'aranet-service run' to start it.");
    let e = ServiceError::Request { timed_out: true, connect_failed: false, text: String::new() };
    assert_eq!(format_service_error(&e), "Request timed out. The service may be overloaded.");

    assert_eq!(plan_history_sync(5, 10), Some(6));
    assert_eq!(plan_history_sync(1, 1), Some(1));
    assert_eq!(plan_history_sync(11, 10), None);
    assert_eq!(auto_refresh_interval(&[0, 300, 120]), 120);
    assert_eq!(auto_refresh_interval(&[0, 0]), 60);
    assert_eq!(auto_refresh_interval(&[]), 60);
    assert_eq!(service_status_from_output(false, "Active: running"), (false, true));
    assert_eq!(service_status_from_output(false, "stopped"), (true, false));
    assert_eq!(service_command_args("start", true), vec!["service", "start", "--user"]);
    assert_eq!(service_command_args("stop", false), vec!["service", "stop"]);
    assert_eq!(AutoRefresh::decide(true, None, 60), (false, true));
    assert_eq!(AutoRefresh::decide(true, Some(59_999_999_999), 60), (false, false));
    assert_eq!(AutoRefresh::decide(true, Some(60_000_000_000), 60), (true, true));
    assert_eq!(AutoRefresh::decide(false, Some(u128::MAX), 60), (false, false));
}

#[test]
fn export_names() {
    assert_eq!(
        export_file_name("Aranet4 1A2B", "20240101_120000", "csv"),
        "aranet_Aranet4_1A2B_20240101_120000.csv"
    );
    assert_eq!(export_file_name("Küche/2", "t", "json"), "aranet_Küche_2_t.json");
}

#[test]
fn menu_marks() {
    assert_eq!(theme_check_marks("light"), (false, true, false));
    assert_eq!(theme_check_marks("system"), (true, false, false));
    assert_eq!(theme_check_marks("anything"), (false, false, true));
    assert_eq!(dark_mode_theme(true), "dark");
    assert_eq!(interval_check_marks(300), (false, false, true, false));
}

#[test]
fn session_statistics() {
    let mut s = SessionStats::default();
    let r = |co2: u16, radon: Option<u32>| CurrentReading { co2, humidity: 40, battery: 90, interval: 60, age: 0, radon };
    s.update(&r(800, None));
    s.update(&r(0, Some(100)));
    s.update(&r(600, Some(50)));
    assert_eq!((s.co2_min, s.co2_max, s.co2_count), (Some(600), Some(800), 2));
    assert_eq!(s.co2_avg(), Some(700));
    assert_eq!(s.radon_avg(), Some(75));
    assert_eq!((s.radon_min, s.radon_max), (Some(50), Some(100)));
}

#[test]
fn domain_labels() {
    assert_eq!(Co2Level::from_ppm(799), Co2Level::Good);
    assert_eq!(Co2Level::from_ppm(1000), Co2Level::Poor);
    assert_eq!(Trend::from_int_delta(830, 800, 20).indicator(), Trend::Rising.indicator());
    assert_eq!(ConnectionState::Error("boom".to_string()).status_message(), "Error: boom");
    let reconnecting = ConnectionState::Reconnecting { attempt: 2, last_error: None };
    assert_eq!(reconnecting.status_message(), "Reconnecting (attempt 2)...");
    assert!(reconnecting.is_connecting());
}

#[test]
fn export_choices_and_lines() {
    assert_eq!(export_format_of("csv"), Some(ExportFormat::Csv));
    assert_eq!(export_format_of("json"), Some(ExportFormat::Json));
    assert_eq!(export_format_of("xml"), None);
    assert_eq!(export_directory_for("/srv/out", Some("/dl".to_string()), None), "/srv/out");
    assert_eq!(export_directory_for("", Some("/dl".to_string()), Some("/docs".to_string())), "/dl");
    assert_eq!(export_directory_for("", None, Some("/docs".to_string())), "/docs");
    assert_eq!(export_directory_for("", None, None), ".");
    assert_eq!(
        csv_header_line(),
        "timestamp,co2_ppm,temperature_c,humidity_pct,pressure_hpa,radon_bq,radiation_usv"
    );
    assert_eq!(
        csv_line("2024-01-01T00:00:00.000000000Z", 612, "21.5", 40, "1013.2", None, ""),
        "2024-01-01T00:00:00.000000000Z,612,21.5,40,1013.2,,"
    );
    assert_eq!(csv_line("t", 0, "18.0", 52, "", Some(110), "0.120"), "t,,18.0,52,,110,0.120");
}

#[test]
fn auto_refresh_check_starts_and_keeps_the_pacing_clock() {
    let mut off = AutoRefresh { enabled: false, last: None };
    assert!(!off.check(&[60]));
    assert!(off.last.is_none());

    let mut pacing = AutoRefresh { enabled: true, last: None };
    assert!(!pacing.check(&[60]));
    let started = pacing.last;
    assert!(started.is_some());
    assert!(!pacing.check(&[60]));
    assert_eq!(pacing.last, started);
}

#[test]
fn radon_levels_put_300_in_the_moderate_band() {
    assert_eq!(RadonLevel::from_bq(0), RadonLevel::Low);
    assert_eq!(RadonLevel::from_bq(99), RadonLevel::Low);
    assert_eq!(RadonLevel::from_bq(100), RadonLevel::Moderate);
    assert_eq!(RadonLevel::from_bq(300), RadonLevel::Moderate);
    assert_eq!(RadonLevel::from_bq(301), RadonLevel::High);
}

#[test]
fn logged_co2_alert_carries_severity_and_value() {
    let mut log = AlertHistory::new(10);
    log.check_and_log_co2_alert("K", 1600);
    assert_eq!(log.len(), 1);
    assert_eq!(log.get(0).severity, AlertSeverity::Critical);
    assert_eq!(log.get(0).value, "1600 ppm");
    assert_eq!(log.get(0).alert_type, AlertType::Co2);
    log.check_and_log_co2_alert("L", 1200);
    assert_eq!(log.len(), 2);
    assert_eq!(log.get(0).severity, AlertSeverity::Warning);
    assert_eq!(log.get(0).value, "1200 ppm");
    log.check_and_log_co2_alert("K", 500);
    assert_eq!(log.get(0).severity, AlertSeverity::Info);
    assert_eq!(log.get(0).value, "500 ppm");
}

#[test]
fn co2_alert_messages_name_their_level_only() {
    let levels = [Co2Level::Good, Co2Level::Moderate, Co2Level::Poor, Co2Level::Bad];
    for level in levels {
        let m = AlertEntry::co2("K", 1234, level).message;
        assert!(m.contains("1234"));
        assert_eq!(m.contains("dangerous"), level == Co2Level::Bad);
        assert_eq!(m.contains("poor"), level == Co2Level::Poor);
        assert_eq!(m.contains("moderate"), level == Co2Level::Moderate);
    }
}
