//! A schema-free tree of printable values with a styled, recursive
//! pretty-printer: ordered records built field by field, rendered as
//! indented, braced, terminal-styled text.

pub mod conclusion;
pub mod decimal;
pub mod laws;
pub mod object;
pub mod render;
pub mod style;
