//! The configuration store: defaults, the fluent builders, the one-shot
//! installation, the always-effective threshold setter, and the emitting
//! entry points.

use stagelog::{
    default_color_config, default_config, default_style_config, dump_line, print, Color,
    ColorConfig, Config, Level, Logger, Stage, Style, StyleConfig,
};

#[test]
fn default_configuration_values() {
    let conf = default_config();
    assert_eq!(conf.level, Level::Info);
    assert!(!conf.emoji);
    assert_eq!(conf.color.debug, Color::Cyan);
    assert_eq!(conf.color.info, Color::White);
    assert_eq!(conf.color.warn, Color::Yellow);
    assert_eq!(conf.color.error, Color::Red);
    assert_eq!(conf.color.success, Color::Green);
    assert_eq!(conf.style.debug, Style::Plain);
    assert_eq!(conf.style.info, Style::Plain);
    assert_eq!(conf.style.warn, Style::Plain);
    assert_eq!(conf.style.error, Style::Plain);
    assert_eq!(conf.style.success, Style::Plain);
    assert_eq!(Config::default(), conf);
    assert_eq!(ColorConfig::default(), default_color_config());
    assert_eq!(StyleConfig::default(), default_style_config());
}

#[test]
fn builders_replace_exactly_one_field() {
    let base = default_config();
    let colors = ColorConfig {
        debug: Color::Magenta,
        info: Color::Blue,
        warn: Color::Orange,
        error: Color::Black,
        success: Color::White,
    };
    let with_color = base.with_color(colors);
    assert_eq!(with_color.color, colors);
    assert_eq!(with_color.style, base.style);
    assert_eq!(with_color.level, base.level);
    assert_eq!(with_color.emoji, base.emoji);

    let styles = StyleConfig {
        debug: Style::Bold,
        info: Style::Italic,
        warn: Style::Underline,
        error: Style::Bold,
        success: Style::Plain,
    };
    let with_style = base.with_style(styles);
    assert_eq!(with_style.style, styles);
    assert_eq!(with_style.color, base.color);

    let with_level = base.with_level(Level::Error);
    assert_eq!(with_level.level, Level::Error);
    assert_eq!(with_level.color, base.color);

    let with_emoji = base.with_emoji(true);
    assert!(with_emoji.emoji);
    assert_eq!(with_emoji.level, base.level);
}

#[test]
fn init_first_call_wins() {
    let mut logger = Logger::new();
    assert!(!logger.initialized);
    logger.init_logger(default_config().with_level(Level::Debug).with_emoji(true));
    assert!(logger.initialized);
    assert_eq!(logger.get_level(), Level::Debug);
    assert!(logger.config.emoji);

    logger.init_logger(default_config().with_level(Level::Error));
    assert_eq!(logger.get_level(), Level::Debug);
    assert!(logger.config.emoji);
    let line = dump_line(&logger.config, Level::Info, Stage::Untagged, "still emoji").unwrap();
    assert!(line.contains("💡"));
}

#[test]
fn set_level_takes_effect_immediately() {
    let mut logger = Logger::new();
    logger.set_level(Level::Error);
    assert_eq!(logger.get_level(), Level::Error);

    logger.init_logger(default_config().with_level(Level::Debug));
    assert_eq!(logger.get_level(), Level::Debug);

    logger.set_level(Level::Warn);
    assert_eq!(logger.get_level(), Level::Warn);
    logger.set_level(Level::Warn);
    assert_eq!(logger.get_level(), Level::Warn);
    assert!(logger.config.color == default_config().color);
}

#[test]
fn print_bypasses_most_restrictive_threshold() {
    let mut logger = Logger::new();
    logger.set_level(Level::Error);
    assert!(dump_line(&logger.config, Level::Info, Stage::Untagged, "dropped").is_none());
    let text = stagelog::print_text(Color::Green, Style::Bold, "still shown");
    assert_eq!(text, "\x1b[1m\x1b[32mstill shown\x1b[0m");
    print(Color::Green, Style::Bold, true, "still shown");
}

#[test]
fn emitting_entry_points_run() {
    let mut logger = Logger::new();
    logger.init_logger(default_config().with_level(Level::Debug));
    logger.dump(Level::Info, Stage::Running, "direct");
    logger.debug(Stage::Lexing, "a");
    logger.info(Stage::Untagged, "b");
    logger.success(Stage::Parsing, "c");
    logger.warn(Stage::Running, "d");
    logger.error(Stage::Untagged, "e");
    logger.lex("saw a token");
    logger.parse("saw a tree");
    logger.run("saw a result");
    print(Color::Cyan, Style::Plain, false, "no newline");
    print(Color::Cyan, Style::Plain, true, " then one");
}

#[test]
fn level_default_is_debug() {
    assert_eq!(Level::default(), Level::Debug);
}
