use window_controls::lifecycle::{close_app, log_level, LogLevel};

#[test]
fn debug_build_logs_at_info() {
    assert_eq!(log_level(true), Some(LogLevel::Info));
}

#[test]
fn other_builds_install_no_logger() {
    assert_eq!(log_level(false), None);
}

#[test]
fn debug_build_logs_at_no_other_level() {
    let level = log_level(true);
    for other in [
        LogLevel::Off,
        LogLevel::Error,
        LogLevel::Warn,
        LogLevel::Debug,
        LogLevel::Trace,
    ] {
        assert_ne!(level, Some(other));
    }
}

#[test]
fn quitting_ends_the_process_with_status_zero() {
    assert_eq!(close_app(), 0);
}
