use aranet_cli::demo::{create_aranet4_device, generate_co2_history, NANOS_PER_MINUTE};
use aranet_cli::helpers::{
    format_radon_bq, interval_error, uses_fahrenheit, uses_inhg, uses_pci, RadonUnit,
    TemperatureUnit,
};
use aranet_cli::session::AppState;
use aranet_cli::theme::{ButtonStyle, Rgb, Rgba, Shadow, Theme, ThemeMode};
use aranet_cli::tray::TrayState;

#[test]
fn theme_colors_follow_levels() {
    let dark = Theme::for_mode(ThemeMode::Dark);
    assert!(dark.is_dark);
    assert_eq!(dark.co2_color(799), Rgb { r: 34, g: 197, b: 94 });
    assert_eq!(dark.co2_color(800), dark.warning);
    assert_eq!(dark.co2_color(1000), dark.caution);
    assert_eq!(dark.co2_color(1500), dark.danger);
    let light = Theme::light();
    assert!(!light.is_dark);
    assert_eq!(light.battery_color(51), light.success);
    assert_eq!(light.battery_color(50), light.warning);
    assert_eq!(light.battery_color(20), light.danger);
    assert_eq!(light.radon_color(99), light.success);
    assert_eq!(light.radon_color(299), light.warning);
    assert_eq!(light.radon_color(300), Rgb { r: 220, g: 38, b: 38 });
    assert_eq!(light.opacity.light, 25);
}

#[test]
fn unit_choices() {
    assert!(uses_fahrenheit(Some(TemperatureUnit::Fahrenheit), Some("celsius")));
    assert!(!uses_fahrenheit(Some(TemperatureUnit::Celsius), Some("fahrenheit")));
    assert!(uses_fahrenheit(None, Some("fahrenheit")));
    assert!(!uses_fahrenheit(None, None));
    assert!(uses_pci(Some(RadonUnit::PciL)));
    assert!(!uses_pci(None));
    assert!(uses_inhg("inhg"));
    assert!(!uses_inhg("hpa"));
    assert_eq!(format_radon_bq(110), ("110".to_string(), "Bq/m3"));
    assert_eq!(interval_error(300), None);
    assert_eq!(
        interval_error(90),
        Some("Invalid interval: 90 seconds. Must be 60, 120, 300, or 600.".to_string())
    );
}

#[test]
fn demo_history_is_deterministic() {
    // 2023-11-14 22:13:20 UTC
    let now: i128 = 1_700_000_000_000_000_000;
    let h = generate_co2_history(3, now);
    assert_eq!(h.len(), 3);
    assert_eq!(h[2].timestamp_nanos, now);
    assert_eq!(h[0].timestamp_nanos, now - 10 * NANOS_PER_MINUTE);
    // 22:03 and later are night hours: 450 plus the offset.
    assert_eq!(h[0].co2, 400);
    assert_eq!(h[1].co2, 417);
    assert_eq!(h[2].co2, 434);
    assert_eq!(h[2].humidity, 42);
    let earlier = generate_co2_history(1, now - 3 * 3600 * 1_000_000_000);
    // 19:13 UTC: 700 + 11 * 30 - 50.
    assert_eq!(earlier[0].co2, 980);
}

#[test]
fn demo_state() {
    let now: i128 = 1_700_000_000_000_000_000;
    let device = create_aranet4_device(now, time::OffsetDateTime::UNIX_EPOCH);
    assert_eq!(device.history.len(), 288);
    assert_eq!(device.name.as_deref(), Some("Aranet4 17C3C"));
    let app = AppState::demo(TrayState::default(), vec![device]);
    assert_eq!(app.selected_device, Some(0));
    assert_eq!(app.status, "Demo Mode - 3 devices loaded");
}

#[test]
fn toast_and_tint_colors() {
    let dark = Theme::dark();
    let light = Theme::light();
    assert_eq!(dark.toast_bg(false, true), Rgb { r: 127, g: 29, b: 29 });
    assert_eq!(light.toast_text(false, true), Rgb { r: 153, g: 27, b: 27 });
    assert_eq!(dark.toast_bg(true, false), Rgb { r: 20, g: 83, b: 45 });
    assert_eq!(light.toast_bg(false, false), Rgb { r: 219, g: 234, b: 254 });
    assert_eq!(dark.toast_text(false, false), Rgb { r: 191, g: 219, b: 254 });
    // An error wins over a success.
    assert_eq!(light.toast_bg(true, true), light.toast_bg(false, true));
    let c = Rgb { r: 1, g: 2, b: 3 };
    assert_eq!(dark.tint_subtle(c), Rgba { r: 1, g: 2, b: 3, a: 15 });
    assert_eq!(dark.tint_light(c), Rgba { r: 1, g: 2, b: 3, a: 25 });
    assert_eq!(dark.tint_medium(c), Rgba { r: 1, g: 2, b: 3, a: 35 });
    assert_eq!(dark.tint_hover(c), Rgba { r: 1, g: 2, b: 3, a: 50 });
    let s = dark.success;
    assert_eq!(dark.co2_bg_color(600), Rgba { r: s.r, g: s.g, b: s.b, a: 25 });
    let d = light.danger;
    assert_eq!(light.radon_bg_color(300), Rgba { r: d.r, g: d.g, b: d.b, a: 25 });
}

#[test]
fn buttons_and_shadows() {
    let dark = Theme::dark();
    let light = Theme::light();
    assert_eq!(dark.button_primary(), ButtonStyle { fill: Some(dark.accent), text: dark.text_on_accent, border: None });
    assert_eq!(light.button_secondary().border, Some(light.border));
    assert_eq!(light.button_ghost().fill, None);
    assert_eq!(dark.button_danger().fill, Some(dark.danger));
    assert_eq!(dark.button_success().fill, Some(dark.success));
    assert_eq!(light.button_disabled().text, light.text_disabled);
    assert_eq!(dark.card_shadow(), Shadow { offset_x: 0, offset_y: 2, blur: 8, spread: 0, black_alpha: 50 });
    assert_eq!(light.card_shadow().black_alpha, 30);
    assert_eq!(dark.subtle_shadow().black_alpha, 25);
    assert_eq!(light.toast_shadow(), Shadow { offset_x: 0, offset_y: 4, blur: 12, spread: 0, black_alpha: 40 });
}
