//! The logging configuration: a color and a style per severity level, the
//! current severity threshold, and the emoji toggle.

use vstd::prelude::*;

use crate::level::Level;
use crate::palette::{Color, Style};

verus! {

/// A color for each severity level.
#[derive(Copy, Clone, PartialEq, Eq, Structural, Debug)]
pub struct ColorConfig {
    pub debug: Color,
    pub info: Color,
    pub warn: Color,
    pub error: Color,
    pub success: Color,
}

/// A text style for each severity level.
#[derive(Copy, Clone, PartialEq, Eq, Structural, Debug)]
pub struct StyleConfig {
    pub debug: Style,
    pub info: Style,
    pub warn: Style,
    pub error: Style,
    pub success: Style,
}

/// The full logging configuration: per-level colors and styles, the current
/// severity threshold, and whether to decorate output with emoji glyphs.
#[derive(Copy, Clone, PartialEq, Eq, Structural, Debug)]
pub struct Config {
    pub color: ColorConfig,
    pub style: StyleConfig,
    pub level: Level,
    pub emoji: bool,
}

/// The default per-level colors: debug cyan, info white, warn yellow,
/// error red, success green.
pub open spec fn spec_default_color_config() -> ColorConfig {
    ColorConfig {
        debug: Color::Cyan,
        info: Color::White,
        warn: Color::Yellow,
        error: Color::Red,
        success: Color::Green,
    }
}

/// The default per-level styles: plain for every level.
pub open spec fn spec_default_style_config() -> StyleConfig {
    StyleConfig {
        debug: Style::Plain,
        info: Style::Plain,
        warn: Style::Plain,
        error: Style::Plain,
        success: Style::Plain,
    }
}

/// The default configuration: default colors and styles, threshold Info,
/// emoji off.
pub open spec fn spec_default_config() -> Config {
    Config {
        color: spec_default_color_config(),
        style: spec_default_style_config(),
        level: Level::Info,
        emoji: false,
    }
}

/// Returns the default per-level color mapping.
pub fn default_color_config() -> (r: ColorConfig)
    ensures
        r == spec_default_color_config(),
{
    ColorConfig {
        debug: Color::Cyan,
        info: Color::White,
        warn: Color::Yellow,
        error: Color::Red,
        success: Color::Green,
    }
}

/// Returns the default per-level style mapping: plain everywhere.
pub fn default_style_config() -> (r: StyleConfig)
    ensures
        r == spec_default_style_config(),
{
    StyleConfig {
        debug: Style::Plain,
        info: Style::Plain,
        warn: Style::Plain,
        error: Style::Plain,
        success: Style::Plain,
    }
}

/// Returns the default configuration: default colors and styles, threshold
/// Info, emoji off.
pub fn default_config() -> (r: Config)
    ensures
        r == spec_default_config(),
{
    Config {
        color: default_color_config(),
        style: default_style_config(),
        level: Level::Info,
        emoji: false,
    }
}

impl Config {
    /// Returns this configuration with the color mapping replaced.
    pub fn with_color(self, color: ColorConfig) -> (r: Config)
        ensures
            r == (Config { color, ..self }),
    {
        Config { color, ..self }
    }

    /// Returns this configuration with the style mapping replaced.
    pub fn with_style(self, style: StyleConfig) -> (r: Config)
        ensures
            r == (Config { style, ..self }),
    {
        Config { style, ..self }
    }

    /// Returns this configuration with the severity threshold replaced.
    pub fn with_level(self, level: Level) -> (r: Config)
        ensures
            r == (Config { level, ..self }),
    {
        Config { level, ..self }
    }

    /// Returns this configuration with the emoji toggle replaced.
    pub fn with_emoji(self, emoji: bool) -> (r: Config)
        ensures
            r == (Config { emoji, ..self }),
    {
        Config { emoji, ..self }
    }
}

impl Default for ColorConfig {
    /// The default color mapping.
    fn default() -> (r: ColorConfig)
        ensures
            r == spec_default_color_config(),
    {
        default_color_config()
    }
}

impl Default for StyleConfig {
    /// The default style mapping.
    fn default() -> (r: StyleConfig)
        ensures
            r == spec_default_style_config(),
    {
        default_style_config()
    }
}

impl Default for Config {
    /// The default configuration. The threshold is the fixed literal
    /// `Level::Info`; it never consults a live configuration store, so
    /// default construction is safe at any point of a program's life.
    fn default() -> (r: Config)
        ensures
            r == spec_default_config(),
    {
        default_config()
    }
}

} // verus!
