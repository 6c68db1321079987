use aranet_cli::cli::StyleMode;
use aranet_cli::style::{
    air_quality_summary_colored, format_air_quality_bar, format_battery_colored,
    format_co2_colored, format_device_header, format_error_box, format_humidity_colored,
    format_large_value, format_radon_colored, format_signal_bar, format_status_badge,
    format_success, format_title, trend_indicator_int, Status,
};

#[test]
fn co2_colors_by_level() {
    assert_eq!(format_co2_colored(400, false), "\x1b[32m400\x1b[39m");
    assert_eq!(format_co2_colored(900, false), "\x1b[33m900\x1b[39m");
    assert_eq!(format_co2_colored(1200, false), "\x1b[38;2;255;165;0m1200\x1b[39m");
    assert_eq!(format_co2_colored(1500, false), "\x1b[31m1500\x1b[39m");
}

#[test]
fn radon_battery_humidity_colors() {
    assert_eq!(format_radon_colored(73, false), "\x1b[32m73\x1b[39m");
    assert_eq!(format_radon_colored(74, false), "\x1b[33m74\x1b[39m");
    assert_eq!(format_radon_colored(148, false), "\x1b[31m148\x1b[39m");
    assert_eq!(format_battery_colored(19, false), "\x1b[31m19\x1b[39m%");
    assert_eq!(format_battery_colored(20, false), "\x1b[33m20\x1b[39m%");
    assert_eq!(format_battery_colored(40, false), "\x1b[32m40\x1b[39m%");
    assert_eq!(format_humidity_colored(29, false), "\x1b[33m29\x1b[39m%");
    assert_eq!(format_humidity_colored(30, false), "\x1b[32m30\x1b[39m%");
    assert_eq!(format_humidity_colored(71, false), "\x1b[33m71\x1b[39m%");
}

#[test]
fn signal_bars_exact() {
    assert_eq!(format_signal_bar(Some(-30), true), "██████████ -30");
    assert_eq!(format_signal_bar(Some(-100), true), "░░░░░░░░░░ -100");
    assert_eq!(format_signal_bar(Some(-65), true), "█████░░░░░ -65");
    assert_eq!(format_signal_bar(Some(-65), false), "\x1b[33m█████░░░░░\x1b[39m -65");
    assert_eq!(format_signal_bar(Some(-40), false), "\x1b[32m█████████░\x1b[39m -40");
    assert_eq!(format_signal_bar(Some(-90), false), "\x1b[31m█░░░░░░░░░\x1b[39m -90");
    assert_eq!(format_signal_bar(Some(5), true), "██████████   5");
}

#[test]
fn error_box_exact() {
    let expected = format!(
        "┌─ Error {}\n│\n│  Something went wrong\n│\n└{}┘",
        "─".repeat(51),
        "─".repeat(58)
    );
    assert_eq!(format_error_box("Error", "Something went wrong", &[]), expected);
    let expected = format!(
        "┌─ Oops {}\n│\n│  a\n│  b\n│\n│  Troubleshooting:\n│    1. x\n│    2. y\n│\n└{}┘",
        "─".repeat(52),
        "─".repeat(58)
    );
    assert_eq!(format_error_box("Oops", "a\r\nb\n", &["x", "y"]), expected);
}

#[test]
fn headers_and_values() {
    assert_eq!(format_title("Test Title", true), "Test Title\n━━━━━━━━━━");
    assert_eq!(
        format_title("Ab", false),
        "\x1b[1mAb\x1b[0m\n\x1b[2m━━\x1b[0m"
    );
    assert_eq!(
        format_device_header("Aranet4 12345", true),
        format!("── Aranet4 12345 {}", "─".repeat(40))
    );
    assert_eq!(
        format_device_header("X", false),
        format!("── \x1b[36mX\x1b[39m \x1b[2m{}\x1b[0m", "─".repeat(40))
    );
    assert_eq!(format_large_value("850", "ppm", true), "850 ppm");
    assert_eq!(format_large_value("850", "ppm", false), "\x1b[1m850\x1b[0m \x1b[2mppm\x1b[0m");
    assert_eq!(format_success("done", false), "\x1b[32m[OK]\x1b[39m done");
}

#[test]
fn status_badges() {
    assert_eq!(format_status_badge("OK", Status::Green, StyleMode::Plain, false), "[OK]");
    assert_eq!(format_status_badge("OK", Status::Green, StyleMode::Rich, true), "[OK]");
    assert_eq!(
        format_status_badge("OK", Status::Green, StyleMode::Rich, false),
        "[\x1b[1m\x1b[32mOK\x1b[39m\x1b[0m]"
    );
    assert_eq!(format_status_badge("?", Status::Error, StyleMode::Rich, false), "[\x1b[2m?\x1b[0m]");
}

#[test]
fn air_quality_bar_and_summary_colors() {
    assert_eq!(format_air_quality_bar(300, false), "\x1b[32m█████\x1b[39m");
    assert_eq!(format_air_quality_bar(900, false), "\x1b[33m███░░\x1b[39m");
    assert_eq!(format_air_quality_bar(2000, false), "\x1b[31m█░░░░\x1b[39m");
    assert_eq!(air_quality_summary_colored(400, false), "\x1b[32mExcellent\x1b[39m");
    assert_eq!(trend_indicator_int(805, 800, true), "^");
    assert_eq!(trend_indicator_int(795, 800, true), "v");
    assert_eq!(trend_indicator_int(804, 800, true), "-");
}

#[test]
fn error_box_line_count_and_numbered_suggestions() {
    let text = format_error_box("Title", "one\ntwo\nthree", &["first", "second"]);
    let lines: Vec<&str> = text.lines().collect();
    assert_eq!(lines.len(), 4 + 3 + 2 + 2);
    assert_eq!(lines[4 + 3], "│    1. first");
    assert_eq!(lines[4 + 3 + 1], "│    2. second");
    assert_eq!(lines[lines.len() - 1], format!("└{}┘", "─".repeat(58)));
    let plain = format_error_box("Title", "one", &[]);
    assert_eq!(plain.lines().count(), 4 + 1);
}
