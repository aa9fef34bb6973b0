use ntsc_plugin::config::load_config;
use ntsc_plugin::error::ConfigError;
use ntsc_plugin::field::FieldMode;

#[test]
fn loads_each_field_mode_code() {
    let expected = [
        FieldMode::Alternating,
        FieldMode::Upper,
        FieldMode::Lower,
        FieldMode::Both,
        FieldMode::InterleavedUpper,
        FieldMode::InterleavedLower,
    ];
    for (code, mode) in expected.iter().enumerate() {
        let text = format!("{{\"use_field\": {}}}", code);
        let cfg = load_config(&text).unwrap();
        assert_eq!(cfg.field_mode, *mode);
    }
}

#[test]
fn missing_use_field_defaults_to_alternating() {
    let cfg = load_config("{}").unwrap();
    assert_eq!(cfg.field_mode, FieldMode::Alternating);
    let cfg = load_config("{\"composite_preemphasis\": 0}").unwrap();
    assert_eq!(cfg.field_mode, FieldMode::Alternating);
}

#[test]
fn out_of_range_code_is_a_parse_error() {
    assert_eq!(load_config("{\"use_field\": 6}"), Err(ConfigError::ConfigParseError));
    assert_eq!(load_config("{\"use_field\": -1}"), Err(ConfigError::ConfigParseError));
}

#[test]
fn non_integer_code_is_a_parse_error() {
    assert_eq!(load_config("{\"use_field\": \"upper\"}"), Err(ConfigError::ConfigParseError));
    assert_eq!(load_config("{\"use_field\": 1.5}"), Err(ConfigError::ConfigParseError));
    assert_eq!(load_config("{\"use_field\": null}"), Err(ConfigError::ConfigParseError));
}

#[test]
fn non_object_document_is_a_parse_error() {
    assert_eq!(load_config("3"), Err(ConfigError::ConfigParseError));
    assert_eq!(load_config("[1, 2]"), Err(ConfigError::ConfigParseError));
    assert_eq!(load_config("\"use_field\""), Err(ConfigError::ConfigParseError));
}

#[test]
fn malformed_text_is_a_parse_error() {
    assert_eq!(load_config(""), Err(ConfigError::ConfigParseError));
    assert_eq!(load_config("{"), Err(ConfigError::ConfigParseError));
    assert_eq!(load_config("not json"), Err(ConfigError::ConfigParseError));
}

#[test]
fn error_messages_name_each_failure() {
    assert_eq!(ConfigError::InvalidPathEncoding.message(), "invalid preset path encoding");
    assert_eq!(ConfigError::IoError.message(), "preset file could not be read");
    assert_eq!(
        ConfigError::ConfigParseError.message(),
        "preset file is not a valid configuration"
    );
}
