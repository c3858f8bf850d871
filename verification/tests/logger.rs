use workpool::logger::LogLevel;
use workpool::logger::LogRoute;
use workpool::logger::Logger;
use workpool::logger::format_line;
use workpool::logger::poisoned_guard_warning;
use workpool::logger::route_log_call;

#[test]
fn level_tags_are_exact() {
    assert_eq!(LogLevel::Info.as_str(), "INFO");
    assert_eq!(LogLevel::Warn.as_str(), "WARN");
    assert_eq!(LogLevel::Error.as_str(), "ERROR");
    assert_eq!(LogLevel::Debug.as_str(), "DEBUG");
}

#[test]
fn formatted_line_is_exact() {
    let line = format_line(LogLevel::Info, "2024-01-02 03:04:05", "Server stopped");
    assert_eq!(line, "[2024-01-02 03:04:05] [INFO] Server stopped");
    let line = format_line(LogLevel::Error, "1999-12-31 23:59:59", "Worker 3 - job panicked");
    assert_eq!(line, "[1999-12-31 23:59:59] [ERROR] Worker 3 - job panicked");
}

#[test]
fn logger_keeps_its_path_and_appends_records() {
    let mut logger = Logger::new("logs/app.log");
    assert_eq!(logger.log_file_path().as_str(), "logs/app.log");
    assert_eq!(logger.log_file_path_as_string(), "logs/app.log");
    assert_eq!(logger.records_count(), 0);
    let line = logger.info("starting up");
    assert_eq!(logger.records_count(), 1);
    assert!(line.starts_with('['));
    assert!(line.ends_with("] [INFO] starting up"));
    let line = logger.error("something failed");
    assert_eq!(logger.records_count(), 2);
    assert!(line.ends_with("] [ERROR] something failed"));
    let line = logger.warn("heads up");
    assert!(line.ends_with("] [WARN] heads up"));
    let line = logger.debug("details");
    assert!(line.ends_with("] [DEBUG] details"));
    assert_eq!(logger.records_count(), 4);
}

#[test]
fn write_with_level_appends_one_record() {
    let mut logger = Logger::new("app.log");
    let line = logger.write_with_level(LogLevel::Warn, "queue closed");
    assert_eq!(logger.records_count(), 1);
    assert!(line.ends_with("] [WARN] queue closed"));
}

#[test]
fn poisoned_guard_degrades_to_console() {
    assert_eq!(route_log_call(false), LogRoute::ThroughLogger);
    assert_eq!(route_log_call(true), LogRoute::ConsoleFallback);
    assert_eq!(
        poisoned_guard_warning(),
        "WARNING: Logger mutex is poisoned, using stderr fallback"
    );
}
