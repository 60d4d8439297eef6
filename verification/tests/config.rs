use mysqlpinger::pinger::{ConfigError, MySQLPinger};
use mysqlpinger::text::{parse_u16, parse_u64, u64_to_string};

fn from_arg(
    port: &str,
    interval: &str,
    forever: bool,
    max_retry: &str,
) -> Result<MySQLPinger, ConfigError> {
    MySQLPinger::from_arg(
        "127.0.0.1",
        port,
        "root",
        Some("secret"),
        "sys",
        interval,
        forever,
        max_retry,
    )
}

#[test]
fn from_arg_accepts_defaults() {
    let p = from_arg("3306", "1s", false, "9").unwrap();
    assert_eq!(p.host, "127.0.0.1");
    assert_eq!(p.port, 3306);
    assert_eq!(p.user, "root");
    assert_eq!(p.pass.as_deref(), Some("secret"));
    assert_eq!(p.dbname, "sys");
    assert_eq!(p.interval_secs, 1);
    assert_eq!(p.interval_nanos, 0);
    assert!(!p.forever);
    assert_eq!(p.max_retry, 9);
    assert!(!p.canceled);
}

#[test]
fn from_arg_parses_interval_strings() {
    let p = from_arg("3306", "2 minutes", false, "9").unwrap();
    assert_eq!(p.interval_secs, 120);
    assert_eq!(p.interval_nanos, 0);
    let p = from_arg("3306", "1500ms", false, "9").unwrap();
    assert_eq!(p.interval_secs, 1);
    assert_eq!(p.interval_nanos, 500_000_000);
}

#[test]
fn from_arg_rejects_bad_interval() {
    assert_eq!(
        from_arg("3306", "soon", false, "9").unwrap_err(),
        ConfigError::InvalidInterval
    );
}

#[test]
fn from_arg_rejects_bad_port() {
    assert_eq!(
        from_arg("70000", "1s", false, "9").unwrap_err(),
        ConfigError::InvalidPort
    );
    assert_eq!(
        from_arg("-1", "1s", false, "9").unwrap_err(),
        ConfigError::InvalidPort
    );
    assert_eq!(
        from_arg("", "1s", false, "9").unwrap_err(),
        ConfigError::InvalidPort
    );
}

#[test]
fn from_arg_rejects_bad_max_retry() {
    assert_eq!(
        from_arg("3306", "1s", false, "many").unwrap_err(),
        ConfigError::InvalidMaxRetry
    );
    assert_eq!(
        from_arg("3306", "1s", false, "-3").unwrap_err(),
        ConfigError::InvalidMaxRetry
    );
}

#[test]
fn from_arg_reports_interval_error_first() {
    assert_eq!(
        from_arg("badport", "badinterval", false, "badretry").unwrap_err(),
        ConfigError::InvalidInterval
    );
    assert_eq!(
        from_arg("badport", "1s", false, "badretry").unwrap_err(),
        ConfigError::InvalidPort
    );
}

#[test]
fn config_error_messages() {
    assert_eq!(ConfigError::InvalidInterval.message(), "invalid interval");
    assert_eq!(ConfigError::InvalidPort.message(), "invalid port");
    assert_eq!(
        ConfigError::InvalidMaxRetry.message(),
        "invalid max retry count"
    );
}

#[test]
fn parse_u64_accepts_digits() {
    assert_eq!(parse_u64("0"), Some(0));
    assert_eq!(parse_u64("42"), Some(42));
    assert_eq!(parse_u64("+7"), Some(7));
    assert_eq!(parse_u64("007"), Some(7));
    assert_eq!(parse_u64("18446744073709551615"), Some(u64::MAX));
}

#[test]
fn parse_u64_rejects_everything_else() {
    assert_eq!(parse_u64(""), None);
    assert_eq!(parse_u64("+"), None);
    assert_eq!(parse_u64("-1"), None);
    assert_eq!(parse_u64("4 2"), None);
    assert_eq!(parse_u64("18446744073709551616"), None);
    assert_eq!(parse_u64("99999999999999999999999"), None);
}

#[test]
fn parse_u16_bounds() {
    assert_eq!(parse_u16("65535"), Some(65535));
    assert_eq!(parse_u16("65536"), None);
    assert_eq!(parse_u16("3306"), Some(3306));
}

#[test]
fn u64_to_string_renders_decimal() {
    assert_eq!(u64_to_string(0), "0");
    assert_eq!(u64_to_string(10), "10");
    assert_eq!(u64_to_string(909), "909");
    assert_eq!(u64_to_string(u64::MAX), "18446744073709551615");
}
