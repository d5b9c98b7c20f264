use webhookd::logging::{level_prefix, prefix_color, verbosity_level, LogLevel, PrefixColor};

#[test]
fn verbosity_maps_to_levels() {
    assert_eq!(verbosity_level(i8::MIN), LogLevel::Info);
    assert_eq!(verbosity_level(-2), LogLevel::Info);
    assert_eq!(verbosity_level(-1), LogLevel::Info);
    assert_eq!(verbosity_level(0), LogLevel::Info);
    assert_eq!(verbosity_level(1), LogLevel::Debug);
    assert_eq!(verbosity_level(2), LogLevel::Trace);
    assert_eq!(verbosity_level(i8::MAX), LogLevel::Trace);
}

#[test]
fn prefixes_and_colors() {
    assert_eq!(level_prefix(LogLevel::Trace), "TRACE: ");
    assert_eq!(level_prefix(LogLevel::Debug), "DEBUG: ");
    assert_eq!(level_prefix(LogLevel::Info), "INFO:  ");
    assert_eq!(level_prefix(LogLevel::Warn), "WARN:  ");
    assert_eq!(level_prefix(LogLevel::Error), "ERROR: ");
    assert_eq!(prefix_color(LogLevel::Warn), Some(PrefixColor::Yellow));
    assert_eq!(prefix_color(LogLevel::Error), Some(PrefixColor::Red));
    assert_eq!(prefix_color(LogLevel::Info), None);
}
