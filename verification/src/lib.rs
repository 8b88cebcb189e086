//! CmdStack: a notebook for command lines, with parameters that are filled in
//! when a stored command is used.

pub mod backend;
pub mod text;
pub mod logic;
pub mod cli;
pub mod data;
pub mod ui;
