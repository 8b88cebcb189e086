//! The first prototype of the command store.

pub mod cmd;
pub mod command_line_parser;
