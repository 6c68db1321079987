//! Verified core of the Aranet command-line and desktop tools: value
//! classification, text formatting, alert bookkeeping and the small state
//! machines that drive the user interface.

pub mod alerts;
pub mod ansi;
pub mod app_settings;
pub mod circuit;
pub mod comparison;
pub mod cli;
pub mod clock;
pub mod config;
pub mod demo;
pub mod device;
pub mod device_list;
pub mod device_panel;
pub mod export;
pub mod helpers;
pub mod history;
pub mod menu;
pub mod options;
pub mod service;
pub mod service_panel;
pub mod session;
pub mod settings_panel;
pub mod status_bar;
pub mod style;
pub mod sync;
pub mod text;
pub mod theme;
pub mod timefmt;
pub mod tray;
pub mod types;
pub mod ui;
pub mod worker;
