//! Renders lines of lightweight inline markup as terminal-styled text.
//!
//! A line is scanned character by character.  Paired delimiters switch a style
//! on and off: `_` bold, `*` italic, `~` strikethrough, `` ` `` highlight, `'`
//! and `"` quoted strings; digits, and the decimal points of a number, are
//! shown as numbers.  Only one style is active at a time, and none outlives
//! its line.  A line without a delimiter pair is passed through as it is.
//!
//! Rendered text holds escape sequences in place of delimiters and is not
//! meant to be rendered again.

pub mod args;
pub mod catalog;
pub mod machine;
pub mod paint;
pub mod prescan;
pub mod render;
pub mod text;

pub use crate::args::parse_args;
pub use crate::catalog::StyleKind;
pub use crate::machine::{Emission, ScanState};
pub use crate::paint::paint;
pub use crate::prescan::has_delimiter_pair;
pub use crate::render::{apply_styles, render_document, style_line};
