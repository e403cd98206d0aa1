use terminal_executor::config::ollama_url;
use terminal_executor::config::parse_u32;
use terminal_executor::hostinfo::compose_system_info;
use terminal_executor::hostinfo::SystemInfo;
use terminal_executor::numeric::decimal_string;
use terminal_executor::numeric::gib_hundredths;
use terminal_executor::numeric::memory_text;
use terminal_executor::numeric::uptime_text;

#[test]
fn decimal_rendering() {
    assert_eq!(decimal_string(0), "0");
    assert_eq!(decimal_string(7), "7");
    assert_eq!(decimal_string(12345), "12345");
    assert_eq!(decimal_string(u64::MAX), "18446744073709551615");
}

#[test]
fn uptime_rendering() {
    assert_eq!(uptime_text(0), "0 seconds");
    assert_eq!(uptime_text(3601), "3601 seconds");
}

#[test]
fn memory_conversion_and_rendering() {
    assert_eq!(gib_hundredths(1073741824), 100);
    assert_eq!(gib_hundredths(0), 0);
    assert_eq!(gib_hundredths(16 * 1073741824), 1600);
    assert_eq!(memory_text(100), "1.00 GB");
    assert_eq!(memory_text(7), "0.07 GB");
    assert_eq!(memory_text(1623), "16.23 GB");
}

#[test]
fn memory_rounds_to_nearest_hundredth() {
    // The first byte count at or past 1.5 hundredths of a gibibyte rounds up.
    assert_eq!(gib_hundredths(16106128), 2);
    // Just below the midpoint rounds down.
    assert_eq!(gib_hundredths(16106127), 1);
}

#[test]
fn port_parsing() {
    assert_eq!(parse_u32("11434"), Some(11434));
    assert_eq!(parse_u32("+80"), Some(80));
    assert_eq!(parse_u32(""), None);
    assert_eq!(parse_u32("+"), None);
    assert_eq!(parse_u32("80a"), None);
    assert_eq!(parse_u32("4294967295"), Some(u32::MAX));
    assert_eq!(parse_u32("4294967296"), None);
    assert_eq!(parse_u32("999999999999999999999"), None);
}

#[test]
fn url_uses_default_port_for_plain_host() {
    assert_eq!(ollama_url("127.0.0.1"), "http://127.0.0.1:11434");
}

#[test]
fn url_takes_port_from_last_segment() {
    assert_eq!(ollama_url("localhost:8080"), "http://localhost:8080:8080");
    assert_eq!(ollama_url("a:b:99"), "http://a:b:99:99");
}

#[test]
fn url_falls_back_on_unparsable_port() {
    assert_eq!(ollama_url("myhost:eight"), "http://myhost:eight:11434");
    assert_eq!(ollama_url("myhost:99999999999"), "http://myhost:99999999999:11434");
}

#[test]
fn compose_uses_readings_where_present() {
    let info = compose_system_info(
        Some("Ubuntu 24.04".to_string()),
        Some("6.8.0".to_string()),
        42,
        Some("box".to_string()),
        Some("ExampleCpu 9000".to_string()),
        2 * 1073741824,
        Some("alice".to_string()),
    );
    assert_eq!(info.os, "Ubuntu 24.04");
    assert_eq!(info.kernel, "6.8.0");
    assert_eq!(info.uptime, "42 seconds");
    assert_eq!(info.hostname, "box");
    assert_eq!(info.cpu, "ExampleCpu 9000");
    assert_eq!(info.memory, "2.00 GB");
    assert_eq!(info.user, "alice");
}

#[test]
fn compose_falls_back_on_missing_readings() {
    let info = compose_system_info(None, None, 0, None, None, 0, None);
    assert_eq!(info.os, "Unknown OS");
    assert_eq!(info.kernel, "unknown");
    assert_eq!(info.uptime, "0 seconds");
    assert_eq!(info.hostname, "unknown");
    assert_eq!(info.cpu, "Unknown CPU");
    assert_eq!(info.memory, "0.00 GB");
    assert_eq!(info.user, "unknown");
}

#[test]
fn snapshot_has_rendered_shapes() {
    let info = SystemInfo::new();
    assert!(info.uptime.ends_with(" seconds"));
    assert!(info.memory.ends_with(" GB"));
    assert!(!info.os.is_empty());
}
