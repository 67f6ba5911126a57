//! The rendering pipeline: turn a level, a stage, and a message into one
//! ANSI-styled output line, in either emoji mode or text mode, and decide
//! from the configured threshold whether the line is produced at all.
//!
//! Rendering is a pure function of (configuration, level, stage, message):
//! the same inputs always yield the same characters.

use vstd::prelude::*;
use vstd::string::StringExecFns;

use crate::config::Config;
use crate::level::{
    passes_filter, spec_level_emoji, spec_level_tag, spec_passes, spec_stage_emoji,
    spec_stage_name, Level, Stage,
};
use crate::palette::{
    color_code, reset_code, spec_color_code, spec_reset_code, spec_style_code, style_code, Color,
    Reset, Style,
};

verus! {

/// The color that `conf` assigns to messages at `level`.
pub open spec fn spec_color_for(conf: Config, level: Level) -> Color {
    match level {
        Level::Debug => conf.color.debug,
        Level::Info => conf.color.info,
        Level::Success => conf.color.success,
        Level::Warn => conf.color.warn,
        Level::Error => conf.color.error,
    }
}

/// The style that `conf` assigns to messages at `level`.
pub open spec fn spec_style_for(conf: Config, level: Level) -> Style {
    match level {
        Level::Debug => conf.style.debug,
        Level::Info => conf.style.info,
        Level::Success => conf.style.success,
        Level::Warn => conf.style.warn,
        Level::Error => conf.style.error,
    }
}

/// The stage-prefix segment of a rendered line: empty for `Untagged`, else
/// `<` followed by the stage's emoji glyph (emoji mode) or its display name
/// (text mode).
pub open spec fn spec_stage_prefix(stage: Stage, emoji: bool) -> Seq<char> {
    if stage is Untagged {
        Seq::<char>::empty()
    } else if emoji {
        "<"@ + spec_stage_emoji(stage)
    } else {
        "<"@ + spec_stage_name(stage)
    }
}

/// One rendered output line (without the trailing newline): the level's
/// style and color escapes, then `[<level-emoji>] ` in emoji mode or the
/// width-five level tag and a space in text mode, then the stage prefix,
/// `> `, the message, and the unconditional all-reset escape.
pub open spec fn spec_render_line(conf: Config, level: Level, stage: Stage, msg: Seq<char>) -> Seq<
    char,
> {
    spec_style_code(spec_style_for(conf, level)) + spec_color_code(spec_color_for(conf, level)) + (
    if conf.emoji {
        "["@ + spec_level_emoji(level) + "] "@
    } else {
        spec_level_tag(level) + " "@
    }) + spec_stage_prefix(stage, conf.emoji) + "> "@ + msg + spec_reset_code(Reset::All)
}

/// The text produced by a raw colored print (without any trailing newline):
/// the style escape, the color escape, the message, and the all-reset
/// escape. It depends on no configuration and on no severity threshold.
pub open spec fn spec_print_text(color: Color, style: Style, msg: Seq<char>) -> Seq<char> {
    spec_style_code(style) + spec_color_code(color) + msg + spec_reset_code(Reset::All)
}

/// Returns the color that `conf` assigns to messages at `level`.
pub fn color_for(conf: &Config, level: Level) -> (r: Color)
    ensures
        r == spec_color_for(*conf, level),
{
    match level {
        Level::Debug => conf.color.debug,
        Level::Info => conf.color.info,
        Level::Success => conf.color.success,
        Level::Warn => conf.color.warn,
        Level::Error => conf.color.error,
    }
}

/// Returns the style that `conf` assigns to messages at `level`.
pub fn style_for(conf: &Config, level: Level) -> (r: Style)
    ensures
        r == spec_style_for(*conf, level),
{
    match level {
        Level::Debug => conf.style.debug,
        Level::Info => conf.style.info,
        Level::Success => conf.style.success,
        Level::Warn => conf.style.warn,
        Level::Error => conf.style.error,
    }
}

/// Renders one output line for a message that already passed the filter,
/// in the mode selected by `conf.emoji`. Pure: the result is exactly
/// `spec_render_line` of the inputs, so equal inputs give equal bytes.
pub fn render_line(conf: &Config, level: Level, stage: Stage, msg: &str) -> (r: String)
    ensures
        r@ == spec_render_line(*conf, level, stage, msg@),
{
    let mut line = String::new();
    line.append(style_code(style_for(conf, level)));
    line.append(color_code(color_for(conf, level)));
    if conf.emoji {
        line.append("[");
        line.append(level.emoji());
        line.append("] ");
    } else {
        line.append(level.tag());
        line.append(" ");
    }
    match stage {
        Stage::Untagged => {},
        _ => {
            line.append("<");
            if conf.emoji {
                line.append(stage.emoji());
            } else {
                line.append(stage.name());
            }
        },
    }
    line.append("> ");
    line.append(msg);
    line.append(reset_code(Reset::All));
    proof {
        assert(line@ =~= spec_render_line(*conf, level, stage, msg@));
    }
    line
}

/// Applies the severity filter and renders: returns the rendered line
/// exactly when `level` ranks at or above the threshold in `conf`, and
/// nothing otherwise.
pub fn dump_line(conf: &Config, level: Level, stage: Stage, msg: &str) -> (r: Option<String>)
    ensures
        r is Some <==> spec_passes(level, conf.level),
        r matches Some(line) ==> line@ == spec_render_line(*conf, level, stage, msg@),
{
    if passes_filter(level, conf.level) {
        Some(render_line(conf, level, stage, msg))
    } else {
        None
    }
}

/// Renders the text of a raw colored print. Takes no configuration and no
/// threshold: the result depends on the three arguments alone.
pub fn print_text(color: Color, style: Style, msg: &str) -> (r: String)
    ensures
        r@ == spec_print_text(color, style, msg@),
{
    let mut text = String::new();
    text.append(style_code(style));
    text.append(color_code(color));
    text.append(msg);
    text.append(reset_code(Reset::All));
    proof {
        assert(text@ =~= spec_print_text(color, style, msg@));
    }
    text
}

/// Rendering is deterministic: equal configurations, levels, stages and
/// messages yield equal rendered lines, in emoji mode and in text mode
/// alike.
pub proof fn lemma_render_deterministic(
    conf1: Config,
    conf2: Config,
    level: Level,
    stage: Stage,
    msg1: Seq<char>,
    msg2: Seq<char>,
)
    requires
        conf1 == conf2,
        msg1 == msg2,
    ensures
        spec_render_line(conf1, level, stage, msg1) == spec_render_line(conf2, level, stage, msg2),
{
}

/// The stage prefix of `Untagged` is empty in both render modes: it
/// contributes zero characters to the line.
pub proof fn lemma_untagged_prefix_empty(emoji: bool)
    ensures
        spec_stage_prefix(Stage::Untagged, emoji) == Seq::<char>::empty(),
        spec_stage_prefix(Stage::Untagged, emoji).len() == 0,
{
}

} // verus!
