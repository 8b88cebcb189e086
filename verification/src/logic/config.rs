//! The user's configuration: how the CLI prints, and the default ranges of
//! parameters.

use vstd::prelude::*;

verus! {

/// The configuration read from and written to the user's config file.
#[derive(Debug, Clone, Copy)]
pub struct Config {
    pub cli_print_style: CliPrintStyle,
    pub cli_display_limit: u32,
    pub param_string_length_min: u32,
    pub param_string_length_max: u32,
    pub param_int_range_min: i32,
    pub param_int_range_max: i32,
    pub application_theme: ApplicationTheme,
    pub default_terminal: UiDefaultTerminal,
}

/// The values a configuration takes when the file sets nothing.
pub open spec fn default_config() -> Config {
    Config {
        cli_print_style: CliPrintStyle::All,
        cli_display_limit: 10,
        param_string_length_min: 5,
        param_string_length_max: 10,
        param_int_range_min: 5,
        param_int_range_max: 10,
        application_theme: ApplicationTheme::System,
        default_terminal: UiDefaultTerminal::Terminal,
    }
}

impl Config {
    /// The default ranges of parameters are not empty.
    pub open spec fn well_formed(&self) -> bool {
        &&& self.param_string_length_min <= self.param_string_length_max
        &&& self.param_int_range_min <= self.param_int_range_max
    }
}

impl Default for Config {
    fn default() -> (c: Self)
        ensures
            c == default_config(),
    {
        Config {
            cli_print_style: CliPrintStyle::All,
            cli_display_limit: 10,
            param_string_length_min: 5,
            param_string_length_max: 10,
            param_int_range_min: 5,
            param_int_range_max: 10,
            application_theme: ApplicationTheme::System,
            default_terminal: UiDefaultTerminal::Terminal,
        }
    }
}

#[derive(Debug, Clone, Copy, PartialEq, Eq, Structural)]
pub enum ApplicationTheme {
    System,
    Dark,
    Light,
}

impl Default for ApplicationTheme {
    fn default() -> (t: Self)
        ensures
            t == ApplicationTheme::System,
    {
        ApplicationTheme::System
    }
}

#[derive(Debug, Clone, Copy, PartialEq, Eq, Structural)]
pub enum CliPrintStyle {
    All,
    CommandsOnly,
}

impl Default for CliPrintStyle {
    fn default() -> (s: Self)
        ensures
            s == CliPrintStyle::All,
    {
        CliPrintStyle::All
    }
}

#[derive(Debug, Clone, Copy, PartialEq, Eq, Structural)]
pub enum UiDefaultTerminal {
    Iterm,
    Terminal,
}

impl Default for UiDefaultTerminal {
    fn default() -> (t: Self)
        ensures
            t == UiDefaultTerminal::Terminal,
    {
        UiDefaultTerminal::Terminal
    }
}

} // verus!
