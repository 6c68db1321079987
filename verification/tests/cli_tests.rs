use aranet_cli::cli::{parse_bool, parse_format, resolve_format_with_config, OutputFormat};

#[test]
fn test_resolve_format_json_flag_overrides_text() {
    let result = resolve_format_with_config(true, OutputFormat::Text, None);
    assert!(matches!(result, OutputFormat::Json));
}

#[test]
fn test_resolve_format_json_flag_overrides_csv() {
    let result = resolve_format_with_config(true, OutputFormat::Csv, None);
    assert!(matches!(result, OutputFormat::Json));
}

#[test]
fn test_resolve_format_json_flag_overrides_config() {
    let result = resolve_format_with_config(true, OutputFormat::Text, Some(OutputFormat::Csv));
    assert!(matches!(result, OutputFormat::Json));
}

#[test]
fn test_resolve_format_explicit_csv_used() {
    let result = resolve_format_with_config(false, OutputFormat::Csv, None);
    assert!(matches!(result, OutputFormat::Csv));
}

#[test]
fn test_resolve_format_explicit_json_used() {
    let result = resolve_format_with_config(false, OutputFormat::Json, None);
    assert!(matches!(result, OutputFormat::Json));
}

#[test]
fn test_resolve_format_config_fallback() {
    // When cmd format is default (Text) and no --json flag, use config
    let result = resolve_format_with_config(false, OutputFormat::Text, Some(OutputFormat::Json));
    assert!(matches!(result, OutputFormat::Json));
}

#[test]
fn test_resolve_format_default_text() {
    // When no config and no explicit format, use Text
    let result = resolve_format_with_config(false, OutputFormat::Text, None);
    assert!(matches!(result, OutputFormat::Text));
}

#[test]
fn test_parse_bool_true_variants() {
    assert_eq!(parse_bool("true"), Ok(true));
    assert_eq!(parse_bool("True"), Ok(true));
    assert_eq!(parse_bool("TRUE"), Ok(true));
    assert_eq!(parse_bool("yes"), Ok(true));
    assert_eq!(parse_bool("on"), Ok(true));
    assert_eq!(parse_bool("1"), Ok(true));
}

#[test]
fn test_parse_bool_false_variants() {
    assert_eq!(parse_bool("false"), Ok(false));
    assert_eq!(parse_bool("False"), Ok(false));
    assert_eq!(parse_bool("FALSE"), Ok(false));
    assert_eq!(parse_bool("no"), Ok(false));
    assert_eq!(parse_bool("off"), Ok(false));
    assert_eq!(parse_bool("0"), Ok(false));
}

#[test]
fn test_parse_bool_invalid() {
    assert!(parse_bool("invalid").is_err());
    assert!(parse_bool("maybe").is_err());
    assert!(parse_bool("").is_err());
}

#[test]
fn test_parse_format_valid() {
    assert!(matches!(parse_format("text"), Some(OutputFormat::Text)));
    assert!(matches!(parse_format("Text"), Some(OutputFormat::Text)));
    assert!(matches!(parse_format("json"), Some(OutputFormat::Json)));
    assert!(matches!(parse_format("JSON"), Some(OutputFormat::Json)));
    assert!(matches!(parse_format("csv"), Some(OutputFormat::Csv)));
    assert!(matches!(parse_format("CSV"), Some(OutputFormat::Csv)));
}

#[test]
fn test_parse_format_invalid() {
    assert!(parse_format("xml").is_none());
    assert!(parse_format("").is_none());
    assert!(parse_format("invalid").is_none());
}

#[test]
fn parse_bool_mixed_case_words() {
    assert_eq!(parse_bool("YeS"), Ok(true));
    assert_eq!(parse_bool("oFF"), Ok(false));
    assert!(parse_bool(" true").is_err());
    assert!(parse_bool("2").is_err());
}

#[test]
fn explicit_format_wins_over_config() {
    let result = resolve_format_with_config(false, OutputFormat::Csv, Some(OutputFormat::Json));
    assert!(matches!(result, OutputFormat::Csv));
}
