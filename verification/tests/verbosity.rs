use httpbox::verbosity::{resolve_log_level, LogLevel};

#[test]
fn quiet_always_wins() {
    for count in [0u64, 1, 2, 3, 5, 6, 1000, u64::MAX] {
        assert_eq!(resolve_log_level(true, count), LogLevel::Warn);
    }
}

#[test]
fn verbosity_raises_the_level_and_saturates() {
    assert_eq!(resolve_log_level(false, 0), LogLevel::Info);
    assert_eq!(resolve_log_level(false, 1), LogLevel::Debug);
    assert_eq!(resolve_log_level(false, 2), LogLevel::Trace);
    assert_eq!(resolve_log_level(false, 5), LogLevel::Trace);
    assert_eq!(resolve_log_level(false, 6), LogLevel::Trace);
    assert_eq!(resolve_log_level(false, u64::MAX), LogLevel::Trace);
}

#[test]
fn verbosity_never_lowers_the_level() {
    let mut last = resolve_log_level(false, 0).severity();
    for count in 1u64..10 {
        let now = resolve_log_level(false, count).severity();
        assert!(now >= last);
        last = now;
    }
}

#[test]
fn levels_are_ordered_from_warn_to_trace() {
    assert!(LogLevel::Warn < LogLevel::Info);
    assert!(LogLevel::Info < LogLevel::Debug);
    assert!(LogLevel::Debug < LogLevel::Trace);
    assert_eq!(LogLevel::Warn.severity(), 0);
    assert_eq!(LogLevel::Info.severity(), 1);
    assert_eq!(LogLevel::Debug.severity(), 2);
    assert_eq!(LogLevel::Trace.severity(), 3);
}

#[test]
fn default_level_is_info() {
    assert_eq!(LogLevel::default(), LogLevel::Info);
    assert_eq!(LogLevel::default(), resolve_log_level(false, 0));
}
