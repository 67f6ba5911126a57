//! A lightweight, leveled console logger with colorized and styled output,
//! optional emoji decoration, and a cosmetic "stage" tag for compiler-like
//! tools (lexing, parsing, running).

pub mod config;
pub mod level;
pub mod logger;
pub mod palette;
pub mod render;

pub use config::{default_color_config, default_config, default_style_config};
pub use config::{ColorConfig, Config, StyleConfig};
pub use level::{passes_filter, Level, Stage};
pub use logger::{print, Logger};
pub use render::{dump_line, print_text, render_line};
pub use palette::{color_code, reset_code, style_code, Color, Reset, Style};
