use ffi_log::level::{LogLevel, MAX_LEVEL_CODE, MIN_LEVEL_CODE};

const ALL: [LogLevel; 5] =
    [LogLevel::Error, LogLevel::Warn, LogLevel::Info, LogLevel::Debug, LogLevel::Trace];

#[test]
fn level_codes_are_fixed() {
    assert_eq!(LogLevel::Error.code(), 1);
    assert_eq!(LogLevel::Warn.code(), 2);
    assert_eq!(LogLevel::Info.code(), 3);
    assert_eq!(LogLevel::Debug.code(), 4);
    assert_eq!(LogLevel::Trace.code(), 5);
    assert_eq!(MIN_LEVEL_CODE, 1);
    assert_eq!(MAX_LEVEL_CODE, 5);
}

#[test]
fn level_codes_are_those_of_the_log_crate() {
    assert_eq!(LogLevel::Error.code() as usize, log::Level::Error as usize);
    assert_eq!(LogLevel::Warn.code() as usize, log::Level::Warn as usize);
    assert_eq!(LogLevel::Info.code() as usize, log::Level::Info as usize);
    assert_eq!(LogLevel::Debug.code() as usize, log::Level::Debug as usize);
    assert_eq!(LogLevel::Trace.code() as usize, log::Level::Trace as usize);
}

#[test]
fn level_codes_round_trip() {
    for level in ALL {
        assert_eq!(LogLevel::from_code(level.code()), Some(level));
    }
}

#[test]
fn codes_outside_the_range_are_no_level() {
    assert_eq!(LogLevel::from_code(0), None);
    assert_eq!(LogLevel::from_code(6), None);
    assert_eq!(LogLevel::from_code(u32::MAX), None);
}

#[test]
fn codes_in_the_range_are_levels() {
    assert_eq!(LogLevel::from_code(1), Some(LogLevel::Error));
    assert_eq!(LogLevel::from_code(3), Some(LogLevel::Info));
    assert_eq!(LogLevel::from_code(5), Some(LogLevel::Trace));
}

#[test]
fn levels_are_ordered_by_severity() {
    for (i, a) in ALL.iter().enumerate() {
        for (j, b) in ALL.iter().enumerate() {
            assert_eq!(a.passes(*b), i <= j);
        }
    }
}

#[test]
fn debug_does_not_pass_an_info_threshold() {
    assert!(!LogLevel::Debug.passes(LogLevel::Info));
    assert!(LogLevel::Info.passes(LogLevel::Info));
    assert!(LogLevel::Error.passes(LogLevel::Info));
}
