use ping_status::config::config_from_env;

#[test]
fn defaults_when_nothing_is_set() {
    let c = config_from_env(None, None, None, None, None);
    assert_eq!(c.hostname, "www.google.com");
    assert_eq!(c.port, 80);
    assert_eq!(c.mid_threshold, 50);
    assert_eq!(c.bad_threshold, 150);
    assert_eq!(c.timeout_secs, 1);
}

#[test]
fn values_override_defaults() {
    let c = config_from_env(
        Some("example.org".to_string()),
        Some("443".to_string()),
        Some("20".to_string()),
        Some("100".to_string()),
        Some("5".to_string()),
    );
    assert_eq!(c.hostname, "example.org");
    assert_eq!(c.port, 443);
    assert_eq!(c.mid_threshold, 20);
    assert_eq!(c.bad_threshold, 100);
    assert_eq!(c.timeout_secs, 5);
}

#[test]
fn malformed_values_fall_back_silently() {
    let c = config_from_env(
        None,
        Some("eighty".to_string()),
        Some("".to_string()),
        Some("-1".to_string()),
        Some("1.5".to_string()),
    );
    assert_eq!(c.port, 80);
    assert_eq!(c.mid_threshold, 50);
    assert_eq!(c.bad_threshold, 150);
    assert_eq!(c.timeout_secs, 1);
}

#[test]
fn out_of_range_port_falls_back() {
    let c = config_from_env(None, Some("70000".to_string()), None, None, None);
    assert_eq!(c.port, 80);
}
