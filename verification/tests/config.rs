use masterclass::config_content::{parse_config_content, AppConfig, ConfigError, ErrorSource};
use masterclass::config_file::{load_config_from, ConfigError as LoadError};

#[test]
fn invalid_port_returns_port_variant_with_line_number() {
    let content = "PORT=bad_port\nTIMEOUT=30";
    let err = parse_config_content(content).unwrap_err();

    assert!(matches!(err, ConfigError::InvalidPort(_)));
    assert!(err.source().unwrap().is_parse_int());
}

#[test]
fn invalid_timeout_returns_timeout_variant_with_line_number() {
    let content = "PORT=8080\nTIMEOUT=bad_timeout";
    let err = parse_config_content(content).unwrap_err();

    assert_eq!(err.to_string(), "invalid timeout");
    assert!(err.source().unwrap().is_parse_int());
}

// ---- further cases ----

#[test]
fn config_reads_both_settings() {
    let cfg = parse_config_content("PORT=8080\nTIMEOUT=30").unwrap();
    assert_eq!(cfg, AppConfig { port: 8080, timeout: 30 });
}

#[test]
fn config_trims_keys_and_values_and_skips_other_lines() {
    let content = "# settings\r\n  PORT =  443 \r\nNAME=demo\n\nTIMEOUT\t=\t18446744073709551615\n";
    let cfg = parse_config_content(content).unwrap();
    assert_eq!(cfg, AppConfig { port: 443, timeout: u64::MAX });
}

#[test]
fn config_value_may_hold_equals_signs_after_the_first() {
    let err = parse_config_content("PORT=80=81\nTIMEOUT=1").unwrap_err();
    assert!(matches!(err, ConfigError::InvalidPort(_)));
}

#[test]
fn config_later_lines_override_earlier_ones() {
    let cfg = parse_config_content("PORT=1\nTIMEOUT=2\nPORT=3").unwrap();
    assert_eq!(cfg, AppConfig { port: 3, timeout: 2 });
}

#[test]
fn config_missing_fields_are_named() {
    match parse_config_content("TIMEOUT=5") {
        Err(ConfigError::MissingField(f)) => assert_eq!(f, "PORT"),
        _ => panic!("expected MissingField"),
    }
    match parse_config_content("PORT=5") {
        Err(ConfigError::MissingField(f)) => assert_eq!(f, "TIMEOUT"),
        _ => panic!("expected MissingField"),
    }
    match parse_config_content("") {
        Err(ConfigError::MissingField(f)) => assert_eq!(f, "PORT"),
        _ => panic!("expected MissingField"),
    }
}

#[test]
fn config_port_must_fit_u16() {
    let err = parse_config_content("PORT=65536\nTIMEOUT=1").unwrap_err();
    assert!(matches!(err, ConfigError::InvalidPort(_)));
    assert_eq!(err.to_string(), "invalid digit in port number");
}

#[test]
fn config_first_bad_line_wins() {
    let err = parse_config_content("TIMEOUT=x\nPORT=y").unwrap_err();
    assert!(matches!(err, ConfigError::InvalidTimeout(_)));
}

#[test]
fn config_error_messages() {
    assert_eq!(
        ConfigError::MissingField("PORT".to_string()).to_string(),
        "missing required field: PORT"
    );
    let io = std::io::Error::new(std::io::ErrorKind::NotFound, "gone");
    let err = ConfigError::FileError(io);
    assert_eq!(err.to_string(), "failed to read config file: gone");
    assert!(!err.source().unwrap().is_parse_int());
    assert!(ConfigError::MissingField("X".to_string()).source().is_none());
}

#[test]
fn load_keeps_text_or_io_error() {
    assert_eq!(load_config_from(Ok("PORT=1".to_string())).unwrap(), "PORT=1");
    let io = std::io::Error::new(std::io::ErrorKind::PermissionDenied, "access denied");
    match load_config_from(Err(io)) {
        Err(LoadError::FileError(e)) => assert_eq!(e.kind(), std::io::ErrorKind::PermissionDenied),
        _ => panic!("expected FileError"),
    }
}

#[test]
fn test_missing_file_returns_io_error_with_source() {
    // The error that reading an absent file hands back.
    let missing = std::io::Error::new(std::io::ErrorKind::NotFound, "No such file or directory");
    let err = load_config_from(Err(missing)).unwrap_err();

    assert!(matches!(err, LoadError::FileError(_)));

    let source = err.source().expect("ConfigError::Io must provide a source");
    assert!(matches!(source, ErrorSource::Io(_)));
}

#[test]
fn config_error_io_exposes_underlying_source() {
    let io_err = std::io::Error::new(std::io::ErrorKind::PermissionDenied, "access denied");
    let err = LoadError::FileError(io_err);

    let source = err.source().expect("ConfigError::Io must return a source error");

    assert!(!source.is_parse_int());

    let ErrorSource::Io(downcast_io_err) = source else {
        panic!("expected an I/O error")
    };
    assert_eq!(downcast_io_err.kind(), std::io::ErrorKind::PermissionDenied);
}

#[test]
fn format_error_displays_correctly() {
    let io_err = std::io::Error::new(std::io::ErrorKind::NotFound, "file not found");
    let err = LoadError::FileError(io_err);

    assert_eq!(
        err.to_string(),
        "failed to read configuration file: file not found"
    );
}

#[test]
fn config_errors_carry_the_value_error() {
    match parse_config_content("PORT=70000\nTIMEOUT=30").unwrap_err() {
        ConfigError::InvalidPort(e) => {
            assert_eq!(*e.kind(), std::num::IntErrorKind::PosOverflow);
            assert_eq!(e.to_string(), "70000".parse::<u16>().unwrap_err().to_string());
        }
        _ => panic!("expected InvalidPort"),
    }
    match parse_config_content("PORT=80\nTIMEOUT= soon ").unwrap_err() {
        ConfigError::InvalidTimeout(e) => {
            assert_eq!(e.to_string(), "soon".parse::<u64>().unwrap_err().to_string());
        }
        _ => panic!("expected InvalidTimeout"),
    }
}

#[test]
fn config_text_without_settings_changes_nothing() {
    let plain = parse_config_content("PORT=1\nTIMEOUT=2").unwrap();
    let padded = parse_config_content("PORT=1\n# comment\nHOST=x\nport=9\n\nTIMEOUT=2").unwrap();
    assert_eq!(plain, padded);
    assert_eq!(padded, AppConfig { port: 1, timeout: 2 });
}
