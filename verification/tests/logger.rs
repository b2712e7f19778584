use rinux::logger::{log_line, LogLevel};

#[test]
fn log_line_layout() {
    assert_eq!(
        log_line(LogLevel::Info, "src/main.rs", 42, "Boot info !"),
        "[Info][src/main.rs:42]: Boot info !"
    );
}

#[test]
fn log_prefixes() {
    assert_eq!(LogLevel::Error.prefix(), "ERROR");
    assert_eq!(LogLevel::Warn.prefix(), "Warn");
    assert_eq!(LogLevel::Info.prefix(), "Info");
    assert_eq!(LogLevel::Debug.prefix(), "Debug");
    assert_eq!(LogLevel::Trace.prefix(), "Trace");
}

#[test]
fn log_line_zero_line() {
    assert_eq!(log_line(LogLevel::Error, "a", 0, ""), "[ERROR][a:0]: ");
}
