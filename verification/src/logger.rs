//! The configuration store and the emitting entry points.
//!
//! The store is an explicit [`Logger`] value handed to the call sites. It
//! starts from the compiled-in defaults, accepts a full configuration at
//! most once (first call wins, later calls are silent no-ops), and lets the
//! severity threshold be overwritten at any time. A host program that wants
//! the store process-wide wraps one `Logger` in a lock of its own; none of
//! these operations fails or panics.

use vstd::prelude::*;
use vstd::string::StringExecFns;

use crate::config::{default_config, spec_default_config, Config};
use crate::level::{Level, Stage};
use crate::palette::{Color, Style};
use crate::render::{dump_line, print_text};

use std::io::Write;

verus! {

/// The configuration store: the current configuration and whether the
/// one-shot installation has already happened.
#[derive(Copy, Clone, PartialEq, Eq, Structural, Debug)]
pub struct Logger {
    pub config: Config,
    pub initialized: bool,
}

/// The store after a one-shot installation of `conf`: unchanged if an
/// installation already happened, else `conf` with the guard set.
pub open spec fn spec_init(s: Logger, conf: Config) -> Logger {
    if s.initialized {
        s
    } else {
        Logger { config: conf, initialized: true }
    }
}

/// The store after the threshold is overwritten with `level`: only the
/// threshold changes, whether or not the store was ever initialized.
pub open spec fn spec_set_level(s: Logger, level: Level) -> Logger {
    Logger { config: Config { level, ..s.config }, ..s }
}

/// Relies on the standard library's `write!` on `std::io::Stdout`: writes
/// exactly the given text to standard output, nothing else observable. A
/// write error is deliberately ignored: logging must never fail its host.
#[verifier::external_body]
fn emit(text: &str) {
    let _ = write!(std::io::stdout(), "{}", text);
}

impl Logger {
    /// Returns a store holding the compiled-in default configuration, with
    /// the one-shot installation still available.
    pub fn new() -> (r: Logger)
        ensures
            r.config == spec_default_config(),
            !r.initialized,
    {
        Logger { config: default_config(), initialized: false }
    }

    /// Installs `conf`, but only on the first call for the life of this
    /// store; every later call is a silent no-op, never an error. On the
    /// call that succeeds, emits one informational line ("Logging
    /// initialized") rendered under the just-installed configuration.
    pub fn init_logger(&mut self, conf: Config)
        ensures
            *final(self) == spec_init(*old(self), conf),
    {
        if !self.initialized {
            self.config = conf;
            self.initialized = true;
            self.dump(Level::Info, Stage::Untagged, "Logging initialized");
        }
    }

    /// Overwrites the current severity threshold, unconditionally and
    /// immediately, whether or not the store was ever initialized. Nothing
    /// else changes.
    pub fn set_level(&mut self, level: Level)
        ensures
            *final(self) == spec_set_level(*old(self), level),
    {
        self.config.level = level;
    }

    /// Returns the current severity threshold.
    pub fn get_level(&self) -> (r: Level)
        ensures
            r == self.config.level,
    {
        self.config.level
    }

    /// Filters and emits: if `level` ranks at or above the current
    /// threshold, writes the line that [`dump_line`] renders for it,
    /// followed by a newline, to standard output; otherwise does nothing.
    /// Never consults anything but this store's configuration.
    pub fn dump(&self, level: Level, stage: Stage, msg: &str) {
        match dump_line(&self.config, level, stage, msg) {
            Some(line) => {
                let full = line.concat("\n");
                emit(full.as_str());
            },
            Option::None => {},
        }
    }

    /// Emits `msg` at Debug level with the given stage tag.
    pub fn debug(&self, stage: Stage, msg: &str) {
        self.dump(Level::Debug, stage, msg);
    }

    /// Emits `msg` at Info level with the given stage tag.
    pub fn info(&self, stage: Stage, msg: &str) {
        self.dump(Level::Info, stage, msg);
    }

    /// Emits `msg` at Success level with the given stage tag.
    pub fn success(&self, stage: Stage, msg: &str) {
        self.dump(Level::Success, stage, msg);
    }

    /// Emits `msg` at Warn level with the given stage tag.
    pub fn warn(&self, stage: Stage, msg: &str) {
        self.dump(Level::Warn, stage, msg);
    }

    /// Emits `msg` at Error level with the given stage tag.
    pub fn error(&self, stage: Stage, msg: &str) {
        self.dump(Level::Error, stage, msg);
    }

    /// Emits `msg` at Info level tagged with the lexing stage.
    pub fn lex(&self, msg: &str) {
        self.dump(Level::Info, Stage::Lexing, msg);
    }

    /// Emits `msg` at Info level tagged with the parsing stage.
    pub fn parse(&self, msg: &str) {
        self.dump(Level::Info, Stage::Parsing, msg);
    }

    /// Emits `msg` at Info level tagged with the running stage.
    pub fn run(&self, msg: &str) {
        self.dump(Level::Info, Stage::Running, msg);
    }
}

/// Writes `msg` styled with the given color and style to standard output,
/// with a trailing newline exactly when `endl` is set. Bypasses the
/// severity filter entirely: it takes no store and reads no threshold, so
/// it writes whatever the threshold is.
pub fn print(color: Color, style: Style, endl: bool, msg: &str) {
    let text = print_text(color, style, msg);
    if endl {
        let full = text.concat("\n");
        emit(full.as_str());
    } else {
        emit(text.as_str());
    }
}

/// First call wins: installing a configuration into an already-initialized
/// store changes nothing, so of two installations only the first is ever
/// observable.
pub proof fn lemma_init_first_call_wins(s: Logger, conf1: Config, conf2: Config)
    ensures
        spec_init(spec_init(s, conf1), conf2) == spec_init(s, conf1),
{
}

/// Overwriting the threshold takes effect whatever came before — after any
/// one-shot installation as much as before one — and repeating it changes
/// nothing further.
pub proof fn lemma_set_level_effective(s: Logger, conf: Config, level: Level)
    ensures
        spec_set_level(s, level).config.level == level,
        spec_set_level(spec_init(s, conf), level).config.level == level,
        spec_set_level(spec_set_level(s, level), level) == spec_set_level(s, level),
{
}

} // verus!
