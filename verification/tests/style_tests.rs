use aranet_cli::cli::StyleMode;
use aranet_cli::style::{
    air_quality_summary, air_quality_summary_colored, apply_table_style, battery, co2,
    format_air_quality_bar,
    format_battery_colored, format_co2_colored, format_device_header, format_error_box,
    format_humidity_colored, format_info, format_radon_colored, format_signal_bar,
    format_success, format_title, format_warning, humidity, radon, radon_risk_summary,
    table_borders, trend_indicator_int, TableBorders,
};

#[test]
fn threshold_ordering() {
    assert!(co2::GOOD < co2::MODERATE);
    assert!(co2::MODERATE < co2::POOR);
    assert!(radon::GOOD < radon::MODERATE);
    assert!(battery::LOW < battery::MEDIUM);
    assert!(humidity::LOW < humidity::HIGH);
    assert!(humidity::LOW > 0);
    assert!(humidity::HIGH <= 100);
}

#[test]
fn test_format_co2_colored_no_color() {
    assert_eq!(format_co2_colored(500, true), "500");
    assert_eq!(format_co2_colored(800, true), "800");
    assert_eq!(format_co2_colored(1500, true), "1500");
}

#[test]
fn test_format_co2_colored_excellent() {
    let result = format_co2_colored(400, false);
    // Should contain ANSI escape codes for green
    assert!(!result.is_empty());
    assert!(result.contains("400"));
}

#[test]
fn test_format_co2_colored_good() {
    let result = format_co2_colored(850, false);
    assert!(result.contains("850"));
}

#[test]
fn test_format_co2_colored_moderate() {
    let result = format_co2_colored(1200, false);
    assert!(result.contains("1200"));
}

#[test]
fn test_format_co2_colored_poor() {
    let result = format_co2_colored(2000, false);
    assert!(result.contains("2000"));
}

#[test]
fn test_format_co2_colored_boundary_values() {
    // Test exact boundary values
    let _ = format_co2_colored(co2::GOOD, false);
    let _ = format_co2_colored(co2::GOOD - 1, false);
    let _ = format_co2_colored(co2::MODERATE, false);
    let _ = format_co2_colored(co2::POOR, false);
}

#[test]
fn test_format_radon_colored_no_color() {
    assert_eq!(format_radon_colored(50, true), "50");
    assert_eq!(format_radon_colored(100, true), "100");
    assert_eq!(format_radon_colored(200, true), "200");
}

#[test]
fn test_format_radon_colored_levels() {
    let good = format_radon_colored(50, false);
    assert!(good.contains("50"));

    let moderate = format_radon_colored(100, false);
    assert!(moderate.contains("100"));

    let high = format_radon_colored(200, false);
    assert!(high.contains("200"));
}

#[test]
fn test_format_battery_colored_no_color() {
    assert_eq!(format_battery_colored(10, true), "10%");
    assert_eq!(format_battery_colored(50, true), "50%");
    assert_eq!(format_battery_colored(100, true), "100%");
}

#[test]
fn test_format_battery_colored_levels() {
    let low = format_battery_colored(10, false);
    // Contains the number and % (possibly with ANSI codes between)
    assert!(low.contains("10"));
    assert!(low.contains('%'));

    let medium = format_battery_colored(30, false);
    assert!(medium.contains("30"));
    assert!(medium.contains('%'));

    let high = format_battery_colored(80, false);
    assert!(high.contains("80"));
    assert!(high.contains('%'));
}

#[test]
fn test_format_battery_colored_boundaries() {
    let _ = format_battery_colored(battery::LOW, false);
    let _ = format_battery_colored(battery::LOW - 1, false);
    let _ = format_battery_colored(battery::MEDIUM, false);
    let _ = format_battery_colored(battery::MEDIUM + 1, false);
}

#[test]
fn test_format_humidity_colored_no_color() {
    assert_eq!(format_humidity_colored(45, true), "45%");
    assert_eq!(format_humidity_colored(20, true), "20%");
    assert_eq!(format_humidity_colored(80, true), "80%");
}

#[test]
fn test_format_humidity_colored_comfort_range() {
    // In comfort range (30-70%)
    let comfortable = format_humidity_colored(50, false);
    // Contains the number and % (possibly with ANSI codes between)
    assert!(comfortable.contains("50"));
    assert!(comfortable.contains('%'));
}

#[test]
fn test_format_humidity_colored_too_dry() {
    let dry = format_humidity_colored(20, false);
    assert!(dry.contains("20"));
    assert!(dry.contains('%'));
}

#[test]
fn test_format_humidity_colored_too_humid() {
    let humid = format_humidity_colored(80, false);
    assert!(humid.contains("80"));
    assert!(humid.contains('%'));
}

#[test]
fn test_format_humidity_colored_boundaries() {
    let _ = format_humidity_colored(humidity::LOW, false);
    let _ = format_humidity_colored(humidity::LOW - 1, false);
    let _ = format_humidity_colored(humidity::HIGH, false);
    let _ = format_humidity_colored(humidity::HIGH + 1, false);
}

#[test]
fn test_format_signal_bar_none() {
    assert_eq!(format_signal_bar(None, true), "N/A");
    assert_eq!(format_signal_bar(None, false), "N/A");
}

#[test]
fn test_format_signal_bar_strong() {
    let bar = format_signal_bar(Some(-30), true);
    assert!(bar.contains("█")); // Should have filled bars
    assert!(bar.contains("-30"));
}

#[test]
fn test_format_signal_bar_weak() {
    let bar = format_signal_bar(Some(-100), true);
    assert!(bar.contains("░")); // Should have empty bars
    assert!(bar.contains("-100"));
}

#[test]
fn test_format_signal_bar_medium() {
    let bar = format_signal_bar(Some(-65), false);
    assert!(bar.contains("█"));
    assert!(bar.contains("-65"));
}

#[test]
fn test_format_signal_bar_extreme_values() {
    // Very strong signal
    let strong = format_signal_bar(Some(-20), true);
    assert!(strong.contains("-20"));

    // Very weak signal
    let weak = format_signal_bar(Some(-120), true);
    assert!(weak.contains("-120"));
}

#[test]
fn test_air_quality_summary_excellent() {
    assert_eq!(air_quality_summary(400), "Excellent");
    assert_eq!(air_quality_summary(0), "Excellent");
}

#[test]
fn test_air_quality_summary_good() {
    assert_eq!(air_quality_summary(850), "Good");
}

#[test]
fn test_air_quality_summary_moderate() {
    assert_eq!(air_quality_summary(1200), "Moderate");
}

#[test]
fn test_air_quality_summary_poor() {
    assert_eq!(air_quality_summary(2000), "Poor");
    assert_eq!(air_quality_summary(10000), "Poor");
}

#[test]
fn test_air_quality_summary_boundaries() {
    // Just below good
    assert_eq!(air_quality_summary(co2::GOOD - 1), "Excellent");
    // At good threshold
    assert_eq!(air_quality_summary(co2::GOOD), "Good");
    // Just below moderate
    assert_eq!(air_quality_summary(co2::MODERATE - 1), "Good");
    // At moderate threshold
    assert_eq!(air_quality_summary(co2::MODERATE), "Moderate");
}

#[test]
fn test_air_quality_summary_colored_no_color() {
    assert_eq!(air_quality_summary_colored(400, true), "Excellent");
    assert_eq!(air_quality_summary_colored(850, true), "Good");
    assert_eq!(air_quality_summary_colored(1200, true), "Moderate");
    assert_eq!(air_quality_summary_colored(2000, true), "Poor");
}

#[test]
fn test_air_quality_summary_colored_with_color() {
    let excellent = air_quality_summary_colored(400, false);
    assert!(excellent.contains("Excellent"));

    let poor = air_quality_summary_colored(2000, false);
    assert!(poor.contains("Poor"));
}

#[test]
fn test_radon_risk_summary() {
    assert_eq!(radon_risk_summary(50), "Low Risk");
    assert_eq!(radon_risk_summary(100), "Moderate Risk");
    assert_eq!(radon_risk_summary(200), "High Risk - Action Recommended");
}

#[test]
fn test_radon_risk_summary_boundaries() {
    assert_eq!(radon_risk_summary(radon::GOOD - 1), "Low Risk");
    assert_eq!(radon_risk_summary(radon::GOOD), "Moderate Risk");
    assert_eq!(radon_risk_summary(radon::MODERATE - 1), "Moderate Risk");
    assert_eq!(
        radon_risk_summary(radon::MODERATE),
        "High Risk - Action Recommended"
    );
}

#[test]
fn test_format_success_no_color() {
    let result = format_success("Test message", true);
    assert_eq!(result, "[OK] Test message");
}

#[test]
fn test_format_success_with_color() {
    let result = format_success("Test message", false);
    assert!(result.contains("[OK]"));
    assert!(result.contains("Test message"));
}

#[test]
fn test_format_info_no_color() {
    let result = format_info("Info message", true);
    assert_eq!(result, "[--] Info message");
}

#[test]
fn test_format_info_with_color() {
    let result = format_info("Info message", false);
    assert!(result.contains("[--]"));
    assert!(result.contains("Info message"));
}

#[test]
fn test_format_warning_no_color() {
    let result = format_warning("Warning message", true);
    assert_eq!(result, "[!!] Warning message");
}

#[test]
fn test_format_warning_with_color() {
    let result = format_warning("Warning message", false);
    assert!(result.contains("[!!]"));
    assert!(result.contains("Warning message"));
}

#[test]
fn test_trend_indicator_int_stable() {
    assert_eq!(trend_indicator_int(800, 800, true), "-");
    assert_eq!(trend_indicator_int(802, 800, true), "-"); // Diff < 5
}

#[test]
fn test_trend_indicator_int_increasing() {
    assert_eq!(trend_indicator_int(850, 800, true), "^");
    assert_eq!(trend_indicator_int(850, 800, false), "↑");
}

#[test]
fn test_trend_indicator_int_decreasing() {
    assert_eq!(trend_indicator_int(750, 800, true), "v");
    assert_eq!(trend_indicator_int(750, 800, false), "↓");
}

#[test]
fn test_format_error_box_basic() {
    let box_str = format_error_box("Error", "Something went wrong", &[]);
    assert!(box_str.contains("Error"));
    assert!(box_str.contains("Something went wrong"));
    assert!(box_str.contains("┌"));
    assert!(box_str.contains("└"));
}

#[test]
fn test_format_error_box_with_suggestions() {
    let suggestions = ["Check connection", "Try again"];
    let box_str = format_error_box("Error", "Connection failed", &suggestions);
    assert!(box_str.contains("Troubleshooting"));
    assert!(box_str.contains("1. Check connection"));
    assert!(box_str.contains("2. Try again"));
}

#[test]
fn test_format_error_box_multiline_message() {
    let box_str = format_error_box("Error", "Line 1\nLine 2\nLine 3", &[]);
    assert!(box_str.contains("Line 1"));
    assert!(box_str.contains("Line 2"));
    assert!(box_str.contains("Line 3"));
}

#[test]
fn test_format_title_no_color() {
    let result = format_title("Test Title", true);
    assert!(result.contains("Test Title"));
    assert!(result.contains("━")); // Underline
}

#[test]
fn test_format_title_with_color() {
    let result = format_title("Test Title", false);
    assert!(result.contains("Test Title"));
    assert!(result.contains("━"));
}

#[test]
fn test_format_air_quality_bar_excellent() {
    let bar = format_air_quality_bar(300, true);
    assert_eq!(bar.matches('█').count(), 5); // All filled
}

#[test]
fn test_format_air_quality_bar_good() {
    let bar = format_air_quality_bar(600, true);
    assert_eq!(bar.matches('█').count(), 4);
    assert_eq!(bar.matches('░').count(), 1);
}

#[test]
fn test_format_air_quality_bar_moderate() {
    let bar = format_air_quality_bar(900, true);
    assert_eq!(bar.matches('█').count(), 3);
    assert_eq!(bar.matches('░').count(), 2);
}

#[test]
fn test_format_air_quality_bar_poor() {
    let bar = format_air_quality_bar(1200, true);
    assert_eq!(bar.matches('█').count(), 2);
    assert_eq!(bar.matches('░').count(), 3);
}

#[test]
fn test_format_air_quality_bar_very_poor() {
    let bar = format_air_quality_bar(2000, true);
    assert_eq!(bar.matches('█').count(), 1);
    assert_eq!(bar.matches('░').count(), 4);
}

#[test]
fn test_format_air_quality_bar_with_color() {
    let _ = format_air_quality_bar(300, false);
    let _ = format_air_quality_bar(900, false);
    let _ = format_air_quality_bar(2000, false);
}

#[test]
fn test_format_device_header_no_color() {
    let result = format_device_header("Aranet4 12345", true);
    assert!(result.contains("Aranet4 12345"));
    assert!(result.contains("─"));
}

#[test]
fn test_format_device_header_with_color() {
    let result = format_device_header("Aranet4 12345", false);
    assert!(result.contains("Aranet4 12345"));
}

#[test]
fn test_format_signal_bar_boundary_values() {
    // Test at exact threshold boundaries
    let _ = format_signal_bar(Some(-50), true); // Strong/Good boundary
    let _ = format_signal_bar(Some(-70), true); // Good/Moderate boundary
    let _ = format_signal_bar(Some(-90), true); // Moderate/Weak boundary
}

#[test]
fn test_format_co2_colored_zero() {
    let result = format_co2_colored(0, true);
    assert_eq!(result, "0");
}

#[test]
fn test_format_battery_colored_zero() {
    let result = format_battery_colored(0, true);
    assert_eq!(result, "0%");
}

#[test]
fn test_format_humidity_colored_zero() {
    let result = format_humidity_colored(0, true);
    assert_eq!(result, "0%");
}

#[test]
fn test_format_humidity_colored_hundred() {
    let result = format_humidity_colored(100, true);
    assert_eq!(result, "100%");
}

fn sample_table() -> tabled::Table {
    let mut builder = tabled::builder::Builder::default();
    builder.push_record(["Header1", "Header2"]);
    builder.push_record(["Value1", "Value2"]);
    builder.build()
}

#[test]
fn test_apply_table_style_rich() {
    let mut table = sample_table();
    apply_table_style(&mut table, StyleMode::Rich);
    let output = table.to_string();
    assert!(output.contains("╭") || output.contains("│") || output.contains("─"));
}

#[test]
fn test_apply_table_style_minimal() {
    let mut table = sample_table();
    apply_table_style(&mut table, StyleMode::Minimal);
    let output = table.to_string();
    assert!(output.contains("Value1"));
}

#[test]
fn test_apply_table_style_plain() {
    let mut table = sample_table();
    apply_table_style(&mut table, StyleMode::Plain);
    let output = table.to_string();
    assert!(output.contains("Value1"));
    assert!(!output.contains("╭"));
}

#[test]
fn table_borders_follow_the_output_style() {
    assert_eq!(table_borders(StyleMode::Rich), TableBorders::Rounded);
    assert_eq!(table_borders(StyleMode::Minimal), TableBorders::Rounded);
    assert_eq!(table_borders(StyleMode::Plain), TableBorders::Blank);
    let mut table = sample_table();
    apply_table_style(&mut table, StyleMode::Rich);
    assert!(table.to_string().contains("╭"));
}
