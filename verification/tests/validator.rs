use dynhost::log::{default_log_path, log_line, sanitize_log_path, LogLevel};
use dynhost::text::u16_to_string;
use dynhost::util::is_ipv4;

fn ip(s: &str) -> bool {
    is_ipv4(&s.to_string())
}

#[test]
fn accepts_ordinary_addresses() {
    assert!(ip("217.97.122.207"));
    assert!(ip("10.0.0.1"));
    assert!(ip("0.0.0.0"));
    assert!(ip("255.255.255.255"));
    assert!(ip("1.2.3.4"));
}

#[test]
fn rejects_out_of_range_groups() {
    assert!(!ip("256.1.1.1"));
    assert!(!ip("1.256.1.1"));
    assert!(!ip("1.1.1.256"));
    assert!(!ip("300.1.1.1"));
    assert!(!ip("999.999.999.999"));
}

#[test]
fn rejects_wrong_shapes() {
    assert!(!ip(""));
    assert!(!ip("1.2.3"));
    assert!(!ip("1.2.3.4.5"));
    assert!(!ip("1..2.3"));
    assert!(!ip(".1.2.3"));
    assert!(!ip("1.2.3."));
    assert!(!ip("a.b.c.d"));
    assert!(!ip("1.2.3.4x"));
    assert!(!ip("1234.1.1.1"));
    assert!(!ip("1.2.3.1234"));
}

#[test]
fn keeps_leading_zero_laxity() {
    assert!(ip("001.002.003.004"));
    assert!(ip("010.020.030.040"));
    assert!(ip("192.168.001.001"));
}

#[test]
fn renders_decimals() {
    assert_eq!(u16_to_string(0), "0");
    assert_eq!(u16_to_string(7), "7");
    assert_eq!(u16_to_string(404), "404");
    assert_eq!(u16_to_string(65535), "65535");
}

#[test]
fn sanitizes_log_path() {
    assert_eq!(sanitize_log_path("/var/log/dynhost.log\n"), "/var/log/dynhost.log");
    assert_eq!(sanitize_log_path("a b\tc!?.log"), "abc.log");
    assert_eq!(sanitize_log_path("A-Z_0,9/ok"), "A-Z_0,9/ok");
    assert_eq!(sanitize_log_path(""), "");
}

#[test]
fn default_path_is_fixed() {
    assert_eq!(default_log_path(), "/var/log/dynhost.log");
}

#[test]
fn renders_log_lines() {
    assert_eq!(
        log_line("2020-01-02 03:04:05", LogLevel::Info, "hello"),
        "[2020-01-02 03:04:05][INFO] hello\n"
    );
    assert_eq!(
        log_line("2020-01-02 03:04:05", LogLevel::Error, "bad"),
        "[2020-01-02 03:04:05][ERROR] bad\n"
    );
}
