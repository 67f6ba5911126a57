//! Terminal colors, text styles, reset sequences, and their fixed ANSI
//! escape-code mappings. Every variant maps to exactly one escape string;
//! `Style::None` maps to the empty string.

use vstd::prelude::*;

verus! {

/// A named terminal foreground color.
#[derive(Copy, Clone, PartialEq, Eq, Structural, Debug)]
pub enum Color {
    Black,
    Red,
    Green,
    Yellow,
    Orange,
    Blue,
    Magenta,
    Cyan,
    White,
}

/// A terminal text style. `Plain` renders as no escape code at all.
#[derive(Copy, Clone, PartialEq, Eq, Structural, Debug)]
pub enum Style {
    Bold,
    Italic,
    Underline,
    Plain,
}

/// An ANSI reset: undo everything, undo only the color, or undo only the
/// style (bold and italic).
#[derive(Copy, Clone, PartialEq, Eq, Structural, Debug)]
pub enum Reset {
    All,
    Color,
    Style,
}

/// The ANSI escape sequence that switches the foreground to `color`.
pub open spec fn spec_color_code(color: Color) -> Seq<char> {
    match color {
        Color::Black => "\x1b[30m"@,
        Color::Red => "\x1b[31m"@,
        Color::Green => "\x1b[32m"@,
        Color::Yellow => "\x1b[33m"@,
        Color::Orange => "\x1b[38;5;208m"@,
        Color::Blue => "\x1b[34m"@,
        Color::Magenta => "\x1b[35m"@,
        Color::Cyan => "\x1b[36m"@,
        Color::White => "\x1b[37m"@,
    }
}

/// The ANSI escape sequence that enables `style`; empty for `Style::Plain`.
pub open spec fn spec_style_code(style: Style) -> Seq<char> {
    match style {
        Style::Bold => "\x1b[1m"@,
        Style::Italic => "\x1b[3m"@,
        Style::Underline => "\x1b[4m"@,
        Style::Plain => ""@,
    }
}

/// The ANSI escape sequence that performs `reset`.
pub open spec fn spec_reset_code(reset: Reset) -> Seq<char> {
    match reset {
        Reset::All => "\x1b[0m"@,
        Reset::Color => "\x1b[39m"@,
        Reset::Style => "\x1b[22m"@,
    }
}

/// Returns the fixed ANSI escape sequence for `color`.
pub fn color_code(color: Color) -> (r: &'static str)
    ensures
        r@ == spec_color_code(color),
{
    match color {
        Color::Black => "\x1b[30m",
        Color::Red => "\x1b[31m",
        Color::Green => "\x1b[32m",
        Color::Yellow => "\x1b[33m",
        Color::Orange => "\x1b[38;5;208m",
        Color::Blue => "\x1b[34m",
        Color::Magenta => "\x1b[35m",
        Color::Cyan => "\x1b[36m",
        Color::White => "\x1b[37m",
    }
}

/// Returns the fixed ANSI escape sequence for `style`; the empty string for
/// `Style::Plain`.
pub fn style_code(style: Style) -> (r: &'static str)
    ensures
        r@ == spec_style_code(style),
{
    match style {
        Style::Bold => "\x1b[1m",
        Style::Italic => "\x1b[3m",
        Style::Underline => "\x1b[4m",
        Style::Plain => "",
    }
}

/// Returns the fixed ANSI escape sequence for `reset`. `Reset::Style` undoes
/// bold and italic.
pub fn reset_code(reset: Reset) -> (r: &'static str)
    ensures
        r@ == spec_reset_code(reset),
{
    match reset {
        Reset::All => "\x1b[0m",
        Reset::Color => "\x1b[39m",
        Reset::Style => "\x1b[22m",
    }
}

} // verus!
