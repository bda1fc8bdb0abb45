//! A terminal renderer for diff output: a streaming line classifier drives a
//! painter that buffers removed/added hunk lines, pairs them positionally, and
//! emits styled text with decorated commit / file / hunk headers.
//!
//! Syntax highlighting is deliberately minimal: under a theme, a code line is
//! painted with one foreground color, chosen by whether the file's extension
//! names a known grammar; without a theme, hunk lines carry their
//! change-background colors alone. Rendering never fails on malformed input:
//! a line that fits no structural shape is passed through verbatim.

pub mod ansi;
pub mod config;
pub mod delta;
pub mod draw;
pub mod laws;
pub mod options;
pub mod paint;
pub mod parse;
pub mod segment;
pub mod strings;
pub mod style;
