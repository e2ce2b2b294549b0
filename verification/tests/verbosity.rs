use http_relay::verbosity::{log_level, LevelFilter};

#[test]
fn test_quiet_overrides_verbose() {
    assert_eq!(log_level(3, true), LevelFilter::OFF);
}

#[test]
fn test_default_is_warn() {
    assert_eq!(log_level(0, false), LevelFilter::WARN);
}

#[test]
fn test_verbose_info() {
    assert_eq!(log_level(1, false), LevelFilter::INFO);
}

#[test]
fn test_verbose_debug() {
    assert_eq!(log_level(2, false), LevelFilter::DEBUG);
}

#[test]
fn test_verbose_trace() {
    assert_eq!(log_level(3, false), LevelFilter::TRACE);
}

#[test]
fn more_flags_than_levels_is_still_trace() {
    assert_eq!(log_level(u8::MAX, false), LevelFilter::TRACE);
    assert_eq!(log_level(0, true), LevelFilter::OFF);
}
