use file_sort::logging::LogLevel;
use log::LevelFilter;
use std::str::FromStr;

#[test]
fn test_log_level_from_str() {
    // Test valid log levels
    assert_eq!(LogLevel::from_str("error").unwrap(), LogLevel::Error);
    assert_eq!(LogLevel::from_str("warn").unwrap(), LogLevel::Warning);
    assert_eq!(LogLevel::from_str("warning").unwrap(), LogLevel::Warning);
    assert_eq!(LogLevel::from_str("info").unwrap(), LogLevel::Info);
    assert_eq!(LogLevel::from_str("debug").unwrap(), LogLevel::Debug);
    assert_eq!(LogLevel::from_str("trace").unwrap(), LogLevel::Trace);

    // Test case insensitivity
    assert_eq!(LogLevel::from_str("ERROR").unwrap(), LogLevel::Error);
    assert_eq!(LogLevel::from_str("Warning").unwrap(), LogLevel::Warning);
    assert_eq!(LogLevel::from_str("Info").unwrap(), LogLevel::Info);

    // Test invalid log level
    let result = LogLevel::from_str("invalid");
    assert!(
        result.is_err(),
        "Should return an error for invalid log level"
    );
    assert_eq!(
        result.unwrap_err(),
        "Unknown verbosity level: invalid",
        "Error message should indicate the unknown level"
    );
}

#[test]
fn test_log_level_to_level_filter() {
    // Test conversion to LevelFilter
    assert_eq!(LogLevel::Error.to_level_filter(), LevelFilter::Error);
    assert_eq!(LogLevel::Warning.to_level_filter(), LevelFilter::Warn);
    assert_eq!(LogLevel::Info.to_level_filter(), LevelFilter::Info);
    assert_eq!(LogLevel::Debug.to_level_filter(), LevelFilter::Debug);
    assert_eq!(LogLevel::Trace.to_level_filter(), LevelFilter::Trace);
}

#[test]
fn test_log_level_from_occurrences() {
    // Test conversion from occurrences
    assert_eq!(LogLevel::from_occurrences(0), LogLevel::Info);
    assert_eq!(LogLevel::from_occurrences(1), LogLevel::Debug);
    assert_eq!(LogLevel::from_occurrences(2), LogLevel::Trace);
    assert_eq!(LogLevel::from_occurrences(3), LogLevel::Trace);
    assert_eq!(LogLevel::from_occurrences(255), LogLevel::Trace);
}

#[test]
fn log_level_parse_keeps_other_capitals() {
    assert_eq!(LogLevel::parse("TRACE"), Ok(LogLevel::Trace));
    assert_eq!(LogLevel::parse("DeBuG"), Ok(LogLevel::Debug));
    assert!(LogLevel::parse("").is_err());
    assert!(LogLevel::parse("infoX").is_err());
    assert_eq!(
        LogLevel::parse("Verbose").unwrap_err(),
        "Unknown verbosity level: Verbose"
    );
}

#[test]
fn log_level_rank_orders_levels() {
    assert_eq!(LogLevel::Error.rank(), 1);
    assert_eq!(LogLevel::Warning.rank(), 2);
    assert_eq!(LogLevel::Info.rank(), 3);
    assert_eq!(LogLevel::Debug.rank(), 4);
    assert_eq!(LogLevel::Trace.rank(), 5);
}
