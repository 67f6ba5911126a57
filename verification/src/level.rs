//! Message severity levels and cosmetic stage tags, with their display
//! names, emoji glyphs, and the severity ranking used for filtering.
//!
//! The ranking is an explicit numeric rank per variant rather than the
//! declaration order of the enum, so that reordering the declaration can
//! never silently change filtering behavior. The chain, most permissive to
//! least: Debug, Info, Success, Warn, Error.

use vstd::prelude::*;

verus! {

/// The severity of a log message.
#[derive(Default, Copy, Clone, PartialEq, Eq, Structural, Debug)]
pub enum Level {
    #[default]
    Debug,
    Info,
    Success,
    Warn,
    Error,
}

/// A cosmetic phase tag for compiler-like tools. `Untagged` renders as
/// nothing at all; the ordering of the other variants carries no meaning.
#[derive(Copy, Clone, PartialEq, Eq, Structural, Debug)]
pub enum Stage {
    Lexing,
    Parsing,
    Running,
    Untagged,
}

/// The numeric severity rank of `level`: Debug is least severe (most
/// permissive as a threshold), Error most severe.
pub open spec fn spec_severity(level: Level) -> int {
    match level {
        Level::Debug => 0,
        Level::Info => 1,
        Level::Success => 2,
        Level::Warn => 3,
        Level::Error => 4,
    }
}

/// A message at `level` passes a threshold of `threshold` exactly when its
/// severity ranks at or above the threshold's.
pub open spec fn spec_passes(level: Level, threshold: Level) -> bool {
    spec_severity(level) >= spec_severity(threshold)
}

/// The display name of `level`. Success displays as "good", asymmetric with
/// the variant name.
pub open spec fn spec_level_name(level: Level) -> Seq<char> {
    match level {
        Level::Debug => "debug"@,
        Level::Info => "info"@,
        Level::Success => "good"@,
        Level::Warn => "warn"@,
        Level::Error => "error"@,
    }
}

/// The display name of `level`, left-aligned and padded with spaces to a
/// fixed width of five characters.
pub open spec fn spec_level_tag(level: Level) -> Seq<char> {
    match level {
        Level::Debug => "debug"@,
        Level::Info => "info "@,
        Level::Success => "good "@,
        Level::Warn => "warn "@,
        Level::Error => "error"@,
    }
}

/// The emoji glyph of `level`.
pub open spec fn spec_level_emoji(level: Level) -> Seq<char> {
    match level {
        Level::Debug => "❔"@,
        Level::Info => "💡"@,
        Level::Success => "✅"@,
        Level::Warn => "❗"@,
        Level::Error => "❌"@,
    }
}

/// The display name of `stage`; empty for `Untagged`.
pub open spec fn spec_stage_name(stage: Stage) -> Seq<char> {
    match stage {
        Stage::Lexing => "lexing"@,
        Stage::Parsing => "parsing"@,
        Stage::Running => "running"@,
        Stage::Untagged => ""@,
    }
}

/// The emoji glyph of `stage`; empty for `Untagged`.
pub open spec fn spec_stage_emoji(stage: Stage) -> Seq<char> {
    match stage {
        Stage::Lexing => "💭"@,
        Stage::Parsing => "🔎"@,
        Stage::Running => "🚀"@,
        Stage::Untagged => ""@,
    }
}

impl Level {
    /// Returns the numeric severity rank, 0 (Debug) through 4 (Error).
    pub fn severity(&self) -> (r: u8)
        ensures
            r as int == spec_severity(*self),
    {
        match self {
            Level::Debug => 0,
            Level::Info => 1,
            Level::Success => 2,
            Level::Warn => 3,
            Level::Error => 4,
        }
    }

    /// Returns the display name; Success displays as "good".
    pub fn name(&self) -> (r: &'static str)
        ensures
            r@ == spec_level_name(*self),
    {
        match self {
            Level::Debug => "debug",
            Level::Info => "info",
            Level::Success => "good",
            Level::Warn => "warn",
            Level::Error => "error",
        }
    }

    /// Returns the display name padded with trailing spaces to width five.
    pub fn tag(&self) -> (r: &'static str)
        ensures
            r@ == spec_level_tag(*self),
    {
        match self {
            Level::Debug => "debug",
            Level::Info => "info ",
            Level::Success => "good ",
            Level::Warn => "warn ",
            Level::Error => "error",
        }
    }

    /// Returns the emoji glyph for this level.
    pub fn emoji(&self) -> (r: &'static str)
        ensures
            r@ == spec_level_emoji(*self),
    {
        match self {
            Level::Debug => "❔",
            Level::Info => "💡",
            Level::Success => "✅",
            Level::Warn => "❗",
            Level::Error => "❌",
        }
    }
}

impl Stage {
    /// Returns the display name; empty for `Untagged`.
    pub fn name(&self) -> (r: &'static str)
        ensures
            r@ == spec_stage_name(*self),
    {
        match self {
            Stage::Lexing => "lexing",
            Stage::Parsing => "parsing",
            Stage::Running => "running",
            Stage::Untagged => "",
        }
    }

    /// Returns the emoji glyph; empty for `Untagged`.
    pub fn emoji(&self) -> (r: &'static str)
        ensures
            r@ == spec_stage_emoji(*self),
    {
        match self {
            Stage::Lexing => "💭",
            Stage::Parsing => "🔎",
            Stage::Running => "🚀",
            Stage::Untagged => "",
        }
    }
}

/// Decides whether a message at `level` passes the configured `threshold`:
/// true exactly when `level` ranks at or above `threshold` in severity.
pub fn passes_filter(level: Level, threshold: Level) -> (r: bool)
    ensures
        r == spec_passes(level, threshold),
{
    level.severity() >= threshold.severity()
}

/// The severity ranking is the strict chain
/// Error > Warn > Success > Info > Debug, and a message whose level equals
/// the threshold always passes the filter.
pub proof fn lemma_severity_ranking()
    ensures
        spec_severity(Level::Error) > spec_severity(Level::Warn),
        spec_severity(Level::Warn) > spec_severity(Level::Success),
        spec_severity(Level::Success) > spec_severity(Level::Info),
        spec_severity(Level::Info) > spec_severity(Level::Debug),
        forall|level: Level| #[trigger] spec_passes(level, level),
        forall|level: Level| #[trigger] spec_passes(Level::Error, level),
        forall|level: Level| #[trigger] spec_passes(level, Level::Debug),
        forall|threshold: Level|
            #[trigger] spec_passes(Level::Debug, threshold) <==> threshold == Level::Debug,
{
}

} // verus!
