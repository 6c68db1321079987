//! Theme selection of the desktop interface: dark and light modes and the
//! named opacity levels.

use vstd::prelude::*;
use crate::types::{co2_level, Co2Level};

verus! {

/// Theme mode.
#[derive(Debug, Clone, Copy, PartialEq, Eq, Structural)]
pub enum ThemeMode {
    Dark,
    Light,
}

impl Default for ThemeMode {
    fn default() -> (r: Self)
        ensures
            r == ThemeMode::Dark,
    {
        ThemeMode::Dark
    }
}

/// The other mode.
pub open spec fn toggled(m: ThemeMode) -> ThemeMode {
    match m {
        ThemeMode::Dark => ThemeMode::Light,
        ThemeMode::Light => ThemeMode::Dark,
    }
}

impl ThemeMode {
    /// Switches between light and dark mode.
    pub fn toggle(&mut self)
        ensures
            *final(self) == toggled(*old(self)),
    {
        *self = match *self {
            ThemeMode::Dark => ThemeMode::Light,
            ThemeMode::Light => ThemeMode::Dark,
        };
    }

    /// The label of the control that switches away from this mode.
    pub fn icon(&self) -> (r: &'static str)
        ensures
            r@ == (match *self {
                ThemeMode::Dark => "Light Mode"@,
                ThemeMode::Light => "Dark Mode"@,
            }),
    {
        match self {
            ThemeMode::Dark => "Light Mode",
            ThemeMode::Light => "Dark Mode",
        }
    }
}

/// Toggling twice gives back the mode one started from.
pub proof fn lemma_toggle_twice(m: ThemeMode)
    ensures
        toggled(toggled(m)) == m,
        toggled(m) != m,
{
}

/// The system appearance. No reliable way to read it exists on this
/// platform, so dark mode is the answer.
pub fn detect_system_theme() -> (r: ThemeMode)
    ensures
        r == ThemeMode::Dark,
{
    ThemeMode::Dark
}

/// Opacity levels (alpha values) for consistent transparency.
#[derive(Debug, Clone, Copy, PartialEq, Eq, Structural)]
pub struct Opacity {
    /// Subtle hints and banners.
    pub subtle: u8,
    /// Measurement backgrounds, light tints.
    pub light: u8,
    /// Status badges, weak fills.
    pub medium: u8,
    /// Hover states, stronger tints.
    pub hover: u8,
    /// Selections, prominent highlights.
    pub strong: u8,
}

impl Default for Opacity {
    fn default() -> (r: Self)
        ensures
            r == (Opacity { subtle: 15, light: 25, medium: 35, hover: 50, strong: 70 }),
    {
        Opacity { subtle: 15, light: 25, medium: 35, hover: 50, strong: 70 }
    }
}

} // verus!

verus! {

/// An opaque color.
#[derive(Debug, Clone, Copy, PartialEq, Eq, Structural)]
pub struct Rgb {
    pub r: u8,
    pub g: u8,
    pub b: u8,
}

/// A color from its components.
pub open spec fn rgb(r: u8, g: u8, b: u8) -> Rgb {
    Rgb { r, g, b }
}

/// The colors of the interface.
#[derive(Debug, Clone, Copy, PartialEq, Eq, Structural)]
pub struct Theme {
    pub is_dark: bool,
    pub bg_primary: Rgb,
    pub bg_secondary: Rgb,
    pub bg_card: Rgb,
    pub bg_elevated: Rgb,
    pub text_primary: Rgb,
    pub text_secondary: Rgb,
    pub text_muted: Rgb,
    pub text_disabled: Rgb,
    pub text_on_accent: Rgb,
    pub border: Rgb,
    pub border_subtle: Rgb,
    pub separator: Rgb,
    pub accent: Rgb,
    pub accent_hover: Rgb,
    pub success: Rgb,
    pub warning: Rgb,
    pub caution: Rgb,
    pub danger: Rgb,
    pub info: Rgb,
    pub focus_ring: Rgb,
    pub bg_disabled: Rgb,
    pub chart_temperature: Rgb,
    pub chart_humidity: Rgb,
    pub chart_co2: Rgb,
    pub chart_pressure: Rgb,
    pub opacity: Opacity,
}

/// The dark theme: zinc backgrounds with a blue accent.
pub open spec fn dark_theme() -> Theme {
    Theme {
        is_dark: true,
        bg_primary: rgb(9, 9, 11),
        bg_secondary: rgb(24, 24, 27),
        bg_card: rgb(39, 39, 42),
        bg_elevated: rgb(52, 52, 56),
        text_primary: rgb(250, 250, 250),
        text_secondary: rgb(212, 212, 216),
        text_muted: rgb(161, 161, 170),
        text_disabled: rgb(113, 113, 122),
        text_on_accent: rgb(255, 255, 255),
        border: rgb(63, 63, 70),
        border_subtle: rgb(39, 39, 42),
        separator: rgb(52, 52, 56),
        accent: rgb(59, 130, 246),
        accent_hover: rgb(96, 165, 250),
        success: rgb(34, 197, 94),
        warning: rgb(250, 204, 21),
        caution: rgb(251, 146, 60),
        danger: rgb(239, 68, 68),
        info: rgb(56, 189, 248),
        focus_ring: rgb(147, 197, 253),
        bg_disabled: rgb(39, 39, 42),
        chart_temperature: rgb(251, 191, 36),
        chart_humidity: rgb(34, 211, 238),
        chart_co2: rgb(74, 222, 128),
        chart_pressure: rgb(192, 132, 252),
        opacity: Opacity { subtle: 15, light: 25, medium: 35, hover: 50, strong: 70 },
    }
}

/// The light theme: near-white backgrounds with gray text.
pub open spec fn light_theme() -> Theme {
    Theme {
        is_dark: false,
        bg_primary: rgb(250, 250, 250),
        bg_secondary: rgb(244, 244, 245),
        bg_card: rgb(255, 255, 255),
        bg_elevated: rgb(255, 255, 255),
        text_primary: rgb(17, 24, 39),
        text_secondary: rgb(55, 65, 81),
        text_muted: rgb(107, 114, 128),
        text_disabled: rgb(156, 163, 175),
        text_on_accent: rgb(255, 255, 255),
        border: rgb(209, 213, 219),
        border_subtle: rgb(229, 231, 235),
        separator: rgb(229, 231, 235),
        accent: rgb(37, 99, 235),
        accent_hover: rgb(29, 78, 216),
        success: rgb(22, 163, 74),
        warning: rgb(202, 138, 4),
        caution: rgb(234, 88, 12),
        danger: rgb(220, 38, 38),
        info: rgb(2, 132, 199),
        focus_ring: rgb(59, 130, 246),
        bg_disabled: rgb(243, 244, 246),
        chart_temperature: rgb(217, 119, 6),
        chart_humidity: rgb(8, 145, 178),
        chart_co2: rgb(22, 163, 74),
        chart_pressure: rgb(147, 51, 234),
        opacity: Opacity { subtle: 15, light: 25, medium: 35, hover: 50, strong: 70 },
    }
}

/// The color for a CO2 concentration: success below 800 ppm, warning
/// below 1000, caution below 1500, danger from 1500 on.
pub open spec fn co2_theme_color(t: Theme, co2: int) -> Rgb {
    if co2 < 800 {
        t.success
    } else if co2 < 1000 {
        t.warning
    } else if co2 < 1500 {
        t.caution
    } else {
        t.danger
    }
}

impl Theme {
    /// The dark theme.
    pub fn dark() -> (r: Self)
        ensures
            r == dark_theme(),
    {
        Theme {
            is_dark: true,
            bg_primary: Rgb { r: 9, g: 9, b: 11 },
            bg_secondary: Rgb { r: 24, g: 24, b: 27 },
            bg_card: Rgb { r: 39, g: 39, b: 42 },
            bg_elevated: Rgb { r: 52, g: 52, b: 56 },
            text_primary: Rgb { r: 250, g: 250, b: 250 },
            text_secondary: Rgb { r: 212, g: 212, b: 216 },
            text_muted: Rgb { r: 161, g: 161, b: 170 },
            text_disabled: Rgb { r: 113, g: 113, b: 122 },
            text_on_accent: Rgb { r: 255, g: 255, b: 255 },
            border: Rgb { r: 63, g: 63, b: 70 },
            border_subtle: Rgb { r: 39, g: 39, b: 42 },
            separator: Rgb { r: 52, g: 52, b: 56 },
            accent: Rgb { r: 59, g: 130, b: 246 },
            accent_hover: Rgb { r: 96, g: 165, b: 250 },
            success: Rgb { r: 34, g: 197, b: 94 },
            warning: Rgb { r: 250, g: 204, b: 21 },
            caution: Rgb { r: 251, g: 146, b: 60 },
            danger: Rgb { r: 239, g: 68, b: 68 },
            info: Rgb { r: 56, g: 189, b: 248 },
            focus_ring: Rgb { r: 147, g: 197, b: 253 },
            bg_disabled: Rgb { r: 39, g: 39, b: 42 },
            chart_temperature: Rgb { r: 251, g: 191, b: 36 },
            chart_humidity: Rgb { r: 34, g: 211, b: 238 },
            chart_co2: Rgb { r: 74, g: 222, b: 128 },
            chart_pressure: Rgb { r: 192, g: 132, b: 252 },
            opacity: Opacity::default(),
        }
    }

    /// The light theme.
    pub fn light() -> (r: Self)
        ensures
            r == light_theme(),
    {
        Theme {
            is_dark: false,
            bg_primary: Rgb { r: 250, g: 250, b: 250 },
            bg_secondary: Rgb { r: 244, g: 244, b: 245 },
            bg_card: Rgb { r: 255, g: 255, b: 255 },
            bg_elevated: Rgb { r: 255, g: 255, b: 255 },
            text_primary: Rgb { r: 17, g: 24, b: 39 },
            text_secondary: Rgb { r: 55, g: 65, b: 81 },
            text_muted: Rgb { r: 107, g: 114, b: 128 },
            text_disabled: Rgb { r: 156, g: 163, b: 175 },
            text_on_accent: Rgb { r: 255, g: 255, b: 255 },
            border: Rgb { r: 209, g: 213, b: 219 },
            border_subtle: Rgb { r: 229, g: 231, b: 235 },
            separator: Rgb { r: 229, g: 231, b: 235 },
            accent: Rgb { r: 37, g: 99, b: 235 },
            accent_hover: Rgb { r: 29, g: 78, b: 216 },
            success: Rgb { r: 22, g: 163, b: 74 },
            warning: Rgb { r: 202, g: 138, b: 4 },
            caution: Rgb { r: 234, g: 88, b: 12 },
            danger: Rgb { r: 220, g: 38, b: 38 },
            info: Rgb { r: 2, g: 132, b: 199 },
            focus_ring: Rgb { r: 59, g: 130, b: 246 },
            bg_disabled: Rgb { r: 243, g: 244, b: 246 },
            chart_temperature: Rgb { r: 217, g: 119, b: 6 },
            chart_humidity: Rgb { r: 8, g: 145, b: 178 },
            chart_co2: Rgb { r: 22, g: 163, b: 74 },
            chart_pressure: Rgb { r: 147, g: 51, b: 234 },
            opacity: Opacity::default(),
        }
    }

    /// The theme of a mode.
    pub fn for_mode(mode: ThemeMode) -> (r: Self)
        ensures
            r == (match mode {
                ThemeMode::Dark => dark_theme(),
                ThemeMode::Light => light_theme(),
            }),
            r.is_dark == (mode == ThemeMode::Dark),
    {
        match mode {
            ThemeMode::Dark => Self::dark(),
            ThemeMode::Light => Self::light(),
        }
    }

    /// The color for a CO2 concentration, by the same levels as the CO2
    /// classification.
    pub fn co2_color(&self, co2: u16) -> (r: Rgb)
        ensures
            r == co2_theme_color(*self, co2 as int),
            r == match co2_level(co2 as int) {
                Co2Level::Good => self.success,
                Co2Level::Moderate => self.warning,
                Co2Level::Poor => self.caution,
                Co2Level::Bad => self.danger,
            },
    {
        if co2 < 800 {
            self.success
        } else if co2 < 1000 {
            self.warning
        } else if co2 < 1500 {
            self.caution
        } else {
            self.danger
        }
    }

    /// The color for a battery level: success above 50%, warning above
    /// 20%, danger otherwise.
    pub fn battery_color(&self, battery: u8) -> (r: Rgb)
        ensures
            r == (if battery > 50 {
                self.success
            } else if battery > 20 {
                self.warning
            } else {
                self.danger
            }),
    {
        if battery > 50 {
            self.success
        } else if battery > 20 {
            self.warning
        } else {
            self.danger
        }
    }

    /// The color for a radon concentration (Bq/m³): success below 100,
    /// warning below 300, danger from 300 on.
    pub fn radon_color(&self, bq: u32) -> (r: Rgb)
        ensures
            r == (if bq < 100 {
                self.success
            } else if bq < 300 {
                self.warning
            } else {
                self.danger
            }),
    {
        if bq < 100 {
            self.success
        } else if bq < 300 {
            self.warning
        } else {
            self.danger
        }
    }
}

} // verus!

verus! {

/// A color with an alpha value, not premultiplied.
#[derive(Debug, Clone, Copy, PartialEq, Eq, Structural)]
pub struct Rgba {
    pub r: u8,
    pub g: u8,
    pub b: u8,
    pub a: u8,
}

/// A toast's colors depend on its kind: an error is red, a success green,
/// anything else blue; dark themes take the deep shade as background and
/// the pale one as text, light themes the other way round.
pub open spec fn toast_colors(is_dark: bool, is_success: bool, is_error: bool) -> (Rgb, Rgb) {
    if is_error {
        if is_dark {
            (rgb(127, 29, 29), rgb(254, 202, 202))
        } else {
            (rgb(254, 226, 226), rgb(153, 27, 27))
        }
    } else if is_success {
        if is_dark {
            (rgb(20, 83, 45), rgb(187, 247, 208))
        } else {
            (rgb(220, 252, 231), rgb(22, 101, 52))
        }
    } else if is_dark {
        (rgb(30, 58, 138), rgb(191, 219, 254))
    } else {
        (rgb(219, 234, 254), rgb(30, 64, 175))
    }
}

impl Theme {
    /// The background of a toast.
    pub fn toast_bg(&self, is_success: bool, is_error: bool) -> (r: Rgb)
        ensures
            r == toast_colors(self.is_dark, is_success, is_error).0,
    {
        if is_error {
            if self.is_dark {
                Rgb { r: 127, g: 29, b: 29 }
            } else {
                Rgb { r: 254, g: 226, b: 226 }
            }
        } else if is_success {
            if self.is_dark {
                Rgb { r: 20, g: 83, b: 45 }
            } else {
                Rgb { r: 220, g: 252, b: 231 }
            }
        } else if self.is_dark {
            Rgb { r: 30, g: 58, b: 138 }
        } else {
            Rgb { r: 219, g: 234, b: 254 }
        }
    }

    /// The text color of a toast.
    pub fn toast_text(&self, is_success: bool, is_error: bool) -> (r: Rgb)
        ensures
            r == toast_colors(self.is_dark, is_success, is_error).1,
    {
        if is_error {
            if self.is_dark {
                Rgb { r: 254, g: 202, b: 202 }
            } else {
                Rgb { r: 153, g: 27, b: 27 }
            }
        } else if is_success {
            if self.is_dark {
                Rgb { r: 187, g: 247, b: 208 }
            } else {
                Rgb { r: 22, g: 101, b: 52 }
            }
        } else if self.is_dark {
            Rgb { r: 191, g: 219, b: 254 }
        } else {
            Rgb { r: 30, g: 64, b: 175 }
        }
    }

    /// A color made translucent with the given alpha.
    pub fn tint_bg(&self, color: Rgb, alpha: u8) -> (r: Rgba)
        ensures
            r == (Rgba { r: color.r, g: color.g, b: color.b, a: alpha }),
    {
        Rgba { r: color.r, g: color.g, b: color.b, a: alpha }
    }

    /// A subtle tint of a color (hints and banners).
    pub fn tint_subtle(&self, color: Rgb) -> (r: Rgba)
        ensures
            r == (Rgba { r: color.r, g: color.g, b: color.b, a: self.opacity.subtle }),
    {
        self.tint_bg(color, self.opacity.subtle)
    }

    /// A light tint of a color (measurement backgrounds).
    pub fn tint_light(&self, color: Rgb) -> (r: Rgba)
        ensures
            r == (Rgba { r: color.r, g: color.g, b: color.b, a: self.opacity.light }),
    {
        self.tint_bg(color, self.opacity.light)
    }

    /// A medium tint of a color (status badges).
    pub fn tint_medium(&self, color: Rgb) -> (r: Rgba)
        ensures
            r == (Rgba { r: color.r, g: color.g, b: color.b, a: self.opacity.medium }),
    {
        self.tint_bg(color, self.opacity.medium)
    }

    /// A hover tint of a color.
    pub fn tint_hover(&self, color: Rgb) -> (r: Rgba)
        ensures
            r == (Rgba { r: color.r, g: color.g, b: color.b, a: self.opacity.hover }),
    {
        self.tint_bg(color, self.opacity.hover)
    }

    /// The background of a CO2 value: its color, lightly tinted.
    pub fn co2_bg_color(&self, co2: u16) -> (r: Rgba)
        ensures
            ({
                let c = co2_theme_color(*self, co2 as int);
                r == (Rgba { r: c.r, g: c.g, b: c.b, a: self.opacity.light })
            }),
    {
        let c = self.co2_color(co2);
        self.tint_light(c)
    }

    /// The background of a radon value: its color, lightly tinted.
    pub fn radon_bg_color(&self, bq: u32) -> (r: Rgba)
        ensures
            ({
                let c = if bq < 100 {
                    self.success
                } else if bq < 300 {
                    self.warning
                } else {
                    self.danger
                };
                r == (Rgba { r: c.r, g: c.g, b: c.b, a: self.opacity.light })
            }),
    {
        let c = self.radon_color(bq);
        self.tint_light(c)
    }
}

} // verus!

verus! {

/// The colors of a button; `None` is transparent.
#[derive(Debug, Clone, Copy, PartialEq, Eq, Structural)]
pub struct ButtonStyle {
    pub fill: Option<Rgb>,
    pub text: Rgb,
    pub border: Option<Rgb>,
}

/// A drop shadow: its offset, blur and spread in points, and the alpha of
/// its black.
#[derive(Debug, Clone, Copy, PartialEq, Eq, Structural)]
pub struct Shadow {
    pub offset_x: i8,
    pub offset_y: i8,
    pub blur: u8,
    pub spread: u8,
    pub black_alpha: u8,
}

impl Theme {
    /// A filled accent button.
    pub fn button_primary(&self) -> (r: ButtonStyle)
        ensures
            r == (ButtonStyle { fill: Some(self.accent), text: self.text_on_accent, border: None }),
    {
        ButtonStyle { fill: Some(self.accent), text: self.text_on_accent, border: None }
    }

    /// An outlined, subtle button.
    pub fn button_secondary(&self) -> (r: ButtonStyle)
        ensures
            r == (ButtonStyle {
                fill: Some(self.bg_card),
                text: self.text_secondary,
                border: Some(self.border),
            }),
    {
        ButtonStyle { fill: Some(self.bg_card), text: self.text_secondary, border: Some(self.border) }
    }

    /// A button with a transparent background.
    pub fn button_ghost(&self) -> (r: ButtonStyle)
        ensures
            r == (ButtonStyle { fill: None, text: self.text_secondary, border: None }),
    {
        ButtonStyle { fill: None, text: self.text_secondary, border: None }
    }

    /// A button for destructive actions.
    pub fn button_danger(&self) -> (r: ButtonStyle)
        ensures
            r == (ButtonStyle { fill: Some(self.danger), text: self.text_on_accent, border: None }),
    {
        ButtonStyle { fill: Some(self.danger), text: self.text_on_accent, border: None }
    }

    /// A button for confirmations.
    pub fn button_success(&self) -> (r: ButtonStyle)
        ensures
            r == (ButtonStyle { fill: Some(self.success), text: self.text_on_accent, border: None }),
    {
        ButtonStyle { fill: Some(self.success), text: self.text_on_accent, border: None }
    }

    /// A disabled button.
    pub fn button_disabled(&self) -> (r: ButtonStyle)
        ensures
            r == (ButtonStyle { fill: Some(self.bg_disabled), text: self.text_disabled, border: None }),
    {
        ButtonStyle { fill: Some(self.bg_disabled), text: self.text_disabled, border: None }
    }

    /// The shadow of a card: two points down, blurred by eight, darker in
    /// dark themes.
    pub fn card_shadow(&self) -> (r: Shadow)
        ensures
            r == (Shadow {
                offset_x: 0,
                offset_y: 2,
                blur: 8,
                spread: 0,
                black_alpha: if self.is_dark {
                    50u8
                } else {
                    30u8
                },
            }),
    {
        Shadow {
            offset_x: 0,
                offset_y: 2,
            blur: 8,
            spread: 0,
            black_alpha: if self.is_dark {
                50
            } else {
                30
            },
        }
    }

    /// A subtle shadow: one point down, blurred by four.
    pub fn subtle_shadow(&self) -> (r: Shadow)
        ensures
            r == (Shadow {
                offset_x: 0,
                offset_y: 1,
                blur: 4,
                spread: 0,
                black_alpha: if self.is_dark {
                    25u8
                } else {
                    15u8
                },
            }),
    {
        Shadow {
            offset_x: 0,
                offset_y: 1,
            blur: 4,
            spread: 0,
            black_alpha: if self.is_dark {
                25
            } else {
                15
            },
        }
    }

    /// The shadow of a toast: four points down, blurred by twelve.
    pub fn toast_shadow(&self) -> (r: Shadow)
        ensures
            r == (Shadow {
                offset_x: 0,
                offset_y: 4,
                blur: 12,
                spread: 0,
                black_alpha: if self.is_dark {
                    60u8
                } else {
                    40u8
                },
            }),
    {
        Shadow {
            offset_x: 0,
                offset_y: 4,
            blur: 12,
            spread: 0,
            black_alpha: if self.is_dark {
                60
            } else {
                40
            },
        }
    }
}

} // verus!
