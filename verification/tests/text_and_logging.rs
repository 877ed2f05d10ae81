use sage::logging::{Level, LevelFilter, Logger};
use sage::text::decimal_string;

#[test]
fn decimal_of_zero_and_large_numbers() {
    assert_eq!(decimal_string(0), "0");
    assert_eq!(decimal_string(7), "7");
    assert_eq!(decimal_string(10), "10");
    assert_eq!(decimal_string(1234567890), "1234567890");
    assert_eq!(decimal_string(u128::MAX), u128::MAX.to_string());
}

#[test]
fn level_filters_match_levels() {
    assert_eq!(Level::Error.to_level_filter(), LevelFilter::Error);
    assert_eq!(Level::Trace.to_level_filter(), LevelFilter::Trace);
    let logger = Logger::new(Level::Info);
    assert_eq!(logger.get_level_filter(), LevelFilter::Info);
}

#[test]
fn info_logger_passes_info_and_more_severe() {
    let logger = Logger::new(Level::Info);
    assert!(logger.enabled(Level::Error));
    assert!(logger.enabled(Level::Warn));
    assert!(logger.enabled(Level::Info));
    assert!(!logger.enabled(Level::Debug));
    assert!(!logger.enabled(Level::Trace));
}

#[test]
fn level_names() {
    assert_eq!(Level::Error.as_str(), "ERROR");
    assert_eq!(Level::Warn.as_str(), "WARN");
    assert_eq!(Level::Info.as_str(), "INFO");
    assert_eq!(Level::Debug.as_str(), "DEBUG");
    assert_eq!(Level::Trace.as_str(), "TRACE");
}

#[test]
fn log_line_centres_level_and_thread() {
    let logger = Logger::new(Level::Info);
    let line = logger
        .format_record("2024-01-02 03:04:05:006", Level::Info, Some("main"), "hello")
        .unwrap();
    let expected = format!(
        "{} [{:^7}] [{:^15}] {}",
        "2024-01-02 03:04:05:006", "INFO", "main", "hello"
    );
    assert_eq!(line, expected);
    assert_eq!(line, "2024-01-02 03:04:05:006 [ INFO  ] [     main      ] hello");
}

#[test]
fn log_line_for_unnamed_thread_uses_dash() {
    let logger = Logger::new(Level::Trace);
    let line = logger.format_record("t", Level::Warn, None, "m").unwrap();
    assert_eq!(line, "t [ WARN  ] [       -       ] m");
}

#[test]
fn log_line_keeps_long_thread_names_whole() {
    let logger = Logger::new(Level::Trace);
    let name = "a-very-long-thread-name";
    let line = logger.format_record("t", Level::Error, Some(name), "m").unwrap();
    assert_eq!(line, format!("t [ ERROR ] [{}] m", name));
}

#[test]
fn filtered_record_has_no_line() {
    let logger = Logger::new(Level::Warn);
    assert!(logger.format_record("t", Level::Info, None, "m").is_none());
    assert!(logger.format_record("t", Level::Warn, None, "m").is_some());
}
