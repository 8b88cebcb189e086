//! The arguments that the command line hands to the handlers.

use vstd::prelude::*;

use crate::cli::config::ConfigArgs;

verus! {

/// The parsed command line.
#[derive(Debug)]
pub struct CmdStackArgs {
    pub command: Command,
}

/// The subcommands of the command line.
#[derive(Debug)]
pub enum Command {
    /// Add a command to your stack
    Add(AddArgs),
    /// Update a command in your stack
    Update(SearchArgs),
    /// Delete a command in your stack
    Delete(SearchArgs),
    /// Search for a command in your stack
    Search(SearchArgs),
    /// Export stack to a JSON file
    Export(ImportExportArgs),
    /// Import stack from a JSON file
    Import(ImportExportArgs),
    /// Modify the config values
    Config(ConfigArgs),
}

/// Arguments for adding a command.
#[derive(Debug)]
pub struct AddArgs {
    /// The command to add to your stack
    pub command: Option<String>,
    /// Notes relating to the command
    pub note: Option<String>,
    /// The tag for the command
    pub tag: Option<String>,
    /// Mark the command as favourite
    pub favourite: bool,
}

/// Arguments for searching and printing commands.
#[derive(Debug, Clone)]
pub struct SearchArgs {
    /// The text used to filter by command when searching
    pub command: Option<String>,
    /// The text used to filter by tag when searching
    pub tag: Option<String>,
    /// Display commands in order of most recent use
    pub order_by_recently_used: bool,
    /// Only display favourite commands
    pub favourite: bool,
}

/// Arguments for importing/exporting commands.
#[derive(Debug)]
pub struct ImportExportArgs {
    /// The relative path of the file
    pub file: String,
}

} // verus!
