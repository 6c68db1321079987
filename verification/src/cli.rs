//! Command-line option handling: output formats, boolean and format
//! parsing, alias commands and configuration edits.

use vstd::prelude::*;
use crate::text::{dec, eq_lowercase, lower_eq, push_dec, push_str, to_chars};

verus! {

/// Output format of a command.
#[derive(Debug, Clone, Copy, PartialEq, Eq, Structural)]
pub enum OutputFormat {
    Text,
    Json,
    Csv,
}

/// Visual style of the text output.
#[derive(Debug, Clone, Copy, PartialEq, Eq, Structural)]
pub enum StyleMode {
    Rich,
    Minimal,
    Plain,
}

/// The boolean a configuration word stands for, if any.
pub open spec fn bool_word(s: Seq<char>) -> Option<bool> {
    if lower_eq(s, "true"@) || lower_eq(s, "yes"@) || lower_eq(s, "on"@) || lower_eq(s, "1"@) {
        Some(true)
    } else if lower_eq(s, "false"@) || lower_eq(s, "no"@) || lower_eq(s, "off"@) || lower_eq(
        s,
        "0"@,
    ) {
        Some(false)
    } else {
        None
    }
}

/// Parses a boolean, accepting `true/yes/on/1` and `false/no/off/0` in any case.
pub fn parse_bool(s: &str) -> (r: Result<bool, ()>)
    ensures
        r == (match bool_word(s@) {
            Some(b) => Ok(b),
            None => Err(()),
        }),
{
    if eq_lowercase(s, "true") || eq_lowercase(s, "yes") || eq_lowercase(s, "on") || eq_lowercase(
        s,
        "1",
    ) {
        Ok(true)
    } else if eq_lowercase(s, "false") || eq_lowercase(s, "no") || eq_lowercase(s, "off")
        || eq_lowercase(s, "0") {
        Ok(false)
    } else {
        Err(())
    }
}

/// The output format a configuration word names, if any.
pub open spec fn format_word(s: Seq<char>) -> Option<OutputFormat> {
    if lower_eq(s, "text"@) {
        Some(OutputFormat::Text)
    } else if lower_eq(s, "json"@) {
        Some(OutputFormat::Json)
    } else if lower_eq(s, "csv"@) {
        Some(OutputFormat::Csv)
    } else {
        None
    }
}

/// Parses an output format name, in any case.
pub fn parse_format(s: &str) -> (r: Option<OutputFormat>)
    ensures
        r == format_word(s@),
{
    if eq_lowercase(s, "text") {
        Some(OutputFormat::Text)
    } else if eq_lowercase(s, "json") {
        Some(OutputFormat::Json)
    } else if eq_lowercase(s, "csv") {
        Some(OutputFormat::Csv)
    } else {
        None
    }
}

/// The effective output format: the `--json` flag wins, then a command
/// format other than text, then the configured format, then text.
pub open spec fn resolved_format(
    cli_json: bool,
    cmd_format: OutputFormat,
    config_format: Option<OutputFormat>,
) -> OutputFormat {
    if cli_json {
        OutputFormat::Json
    } else if cmd_format != OutputFormat::Text {
        cmd_format
    } else {
        match config_format {
            Some(f) => f,
            None => OutputFormat::Text,
        }
    }
}

/// Resolves the output format with the configuration as fallback.
pub fn resolve_format_with_config(
    cli_json: bool,
    cmd_format: OutputFormat,
    config_format: Option<OutputFormat>,
) -> (r: OutputFormat)
    ensures
        r == resolved_format(cli_json, cmd_format, config_format),
{
    if cli_json {
        OutputFormat::Json
    } else if cmd_format != OutputFormat::Text {
        cmd_format
    } else {
        match config_format {
            Some(f) => f,
            None => OutputFormat::Text,
        }
    }
}

/// The `alias` subcommand as given on the command line.
#[derive(Debug, Clone)]
pub enum AliasSubcommand {
    List,
    Assign { name: String, address: String },
    Remove { name: String },
}

/// The alias action to perform.
#[derive(Debug, Clone)]
pub enum AliasAction {
    List,
    Assign { name: String, address: String },
    Remove { name: String },
}

/// The alias action a subcommand asks for.
pub fn alias_action(action: &AliasSubcommand) -> (r: AliasAction)
    ensures
        match *action {
            AliasSubcommand::List => r is List,
            AliasSubcommand::Assign { name, address } => r matches AliasAction::Assign {
                name: n,
                address: a,
            } && n@ == name@ && a@ == address@,
            AliasSubcommand::Remove { name } => r matches AliasAction::Remove { name: n } && n@
                == name@,
        },
{
    match action {
        AliasSubcommand::List => AliasAction::List,
        AliasSubcommand::Assign { name, address } => AliasAction::Assign {
            name: String::from_str(name.as_str()),
            address: String::from_str(address.as_str()),
        },
        AliasSubcommand::Remove { name } => AliasAction::Remove {
            name: String::from_str(name.as_str()),
        },
    }
}

} // verus!

verus! {

/// Where the device a command uses came from, when the command line did
/// not name one.
#[derive(Debug, Clone, Copy, PartialEq, Eq, Structural)]
pub enum DeviceSource {
    /// The configured default device.
    Default,
    /// The device connected last.
    Last,
}

/// The hint printed (to standard error) about the device a command uses:
/// only for the last connected device, with its remembered name when there
/// is one, and never in quiet mode or without a device.
pub fn device_hint(
    resolved: Option<&str>,
    source: Option<DeviceSource>,
    last_device_name: Option<&str>,
    quiet: bool,
) -> (r: Option<String>)
    ensures
        match (resolved, source) {
            (Some(dev), Some(DeviceSource::Last)) if !quiet => r matches Some(m) && m@ == match last_device_name {
                Some(name) => "Using last connected device: "@ + name@ + " ("@ + dev@ + ")"@,
                None => "Using last connected device: "@ + dev@,
            },
            _ => r is None,
        },
{
    if quiet {
        return None;
    }
    match (resolved, source) {
        (Some(dev), Some(DeviceSource::Last)) => {
            let mut m = String::from_str("Using last connected device: ");
            match last_device_name {
                Some(name) => {
                    push_str(&mut m, name);
                    push_str(&mut m, " (");
                    push_str(&mut m, dev);
                    push_str(&mut m, ")");
                },
                None => push_str(&mut m, dev),
            }
            Some(m)
        },
        _ => None,
    }
}

} // verus!
