//! Severity filtering: which (threshold, message level) pairs produce
//! output, and the scenarios around the default threshold.

use stagelog::{default_config, dump_line, passes_filter, Level, Logger, Stage};

fn levels() -> [Level; 5] {
    [
        Level::Debug,
        Level::Info,
        Level::Success,
        Level::Warn,
        Level::Error,
    ]
}

fn rank(level: Level) -> u8 {
    match level {
        Level::Debug => 0,
        Level::Info => 1,
        Level::Success => 2,
        Level::Warn => 3,
        Level::Error => 4,
    }
}

#[test]
fn filter_matrix_matches_severity_ranking() {
    for threshold in levels() {
        let conf = default_config().with_level(threshold);
        for level in levels() {
            let expected = rank(level) >= rank(threshold);
            assert_eq!(passes_filter(level, threshold), expected);
            assert_eq!(
                dump_line(&conf, level, Stage::Untagged, "m").is_some(),
                expected,
                "level {:?} against threshold {:?}",
                level,
                threshold
            );
        }
    }
}

#[test]
fn equal_level_and_threshold_always_passes() {
    for level in levels() {
        assert!(passes_filter(level, level));
    }
}

#[test]
fn error_always_passes_and_debug_only_at_debug() {
    for threshold in levels() {
        assert!(passes_filter(Level::Error, threshold));
        assert_eq!(
            passes_filter(Level::Debug, threshold),
            threshold == Level::Debug
        );
    }
}

#[test]
fn scenario_default_threshold_drops_debug_keeps_info() {
    let logger = Logger::new();
    assert_eq!(logger.get_level(), Level::Info);
    assert!(dump_line(&logger.config, Level::Debug, Stage::Untagged, "x").is_none());
    let line = dump_line(&logger.config, Level::Info, Stage::Untagged, "x").unwrap();
    assert!(line.contains("info "));
    assert!(line.contains("x"));
    assert!(line.ends_with("\x1b[0m"));
    assert_eq!(line, "\x1b[37minfo  > x\x1b[0m");
}

#[test]
fn get_level_reports_threshold() {
    let mut logger = Logger::new();
    assert_eq!(logger.get_level(), Level::Info);
    logger.set_level(Level::Warn);
    assert_eq!(logger.get_level(), Level::Warn);
}
