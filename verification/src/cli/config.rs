//! Changing the configuration from the command line.

use vstd::prelude::*;

use crate::cli::Cli;
use crate::logic::config::Config;
use crate::text::{int_to_decimal, int_to_string, nat_to_decimal, nat_to_string, push_str, string_from_str};

verus! {

/// Why the configuration could not be changed.
#[derive(Debug)]
pub enum ConfigError {
    /// A value was refused, for the reason given.
    InvalidValue(String),
    /// The configuration file could not be read, for the reason given.
    ReadConfig(String),
    /// The configuration file could not be written, for the reason given.
    WriteConfig(String),
}

/// The settings that can be changed.
#[derive(Debug)]
pub enum ConfigArgs {
    /// Modify cli print style
    CliPrintStyle(CliPrintStyleArgs),
    /// Modify cli display limit
    CliDisplayLimit(CliDisplayLimitArgs),
    /// Modify string parameter min/max limits
    ParamStringLength(ParamStringLengthArgs),
    /// Modify integer parameter min/max limits
    ParamIntRange(ParamIntRangeArgs),
    /// Modify application theme
    Theme(ApplicationThemeArgs),
}

#[derive(Debug)]
pub struct ApplicationThemeArgs {
    /// The application theme
    pub theme: ApplicationTheme,
}

/// The themes offered on the command line.
#[derive(Debug, Clone, Copy, PartialEq, Eq, Structural)]
pub enum ApplicationTheme {
    System,
    Dark,
    Light,
}

impl Default for ApplicationTheme {
    fn default() -> (t: Self)
        ensures
            t == ApplicationTheme::System,
    {
        ApplicationTheme::System
    }
}

#[derive(Debug)]
pub struct CliPrintStyleArgs {
    /// The new print style
    pub style: CliPrintStyle,
}

#[derive(Debug)]
pub struct CliDisplayLimitArgs {
    /// The new display limit (min. 1)
    pub value: u32,
}

/// The print styles offered on the command line.
#[derive(Debug, Clone, Copy, PartialEq, Eq, Structural)]
pub enum CliPrintStyle {
    All,
    CommandsOnly,
}

impl Default for CliPrintStyle {
    fn default() -> (s: Self)
        ensures
            s == CliPrintStyle::All,
    {
        CliPrintStyle::All
    }
}

#[derive(Debug)]
pub struct ParamStringLengthArgs {
    /// The minimum length for string parameters (min. 1)
    pub min: Option<u32>,
    /// The maximum length for string parameters (min. 1)
    pub max: Option<u32>,
}

#[derive(Debug)]
pub struct ParamIntRangeArgs {
    /// The minimum value for integer parameters
    pub min: Option<i32>,
    /// The maximum value for integer parameters
    pub max: Option<i32>,
}

/// The configuration's theme for a theme of the command line.
pub open spec fn theme_of(t: ApplicationTheme) -> crate::logic::config::ApplicationTheme {
    match t {
        ApplicationTheme::System => crate::logic::config::ApplicationTheme::System,
        ApplicationTheme::Dark => crate::logic::config::ApplicationTheme::Dark,
        ApplicationTheme::Light => crate::logic::config::ApplicationTheme::Light,
    }
}

/// The configuration's print style for a print style of the command line.
pub open spec fn style_of(s: CliPrintStyle) -> crate::logic::config::CliPrintStyle {
    match s {
        CliPrintStyle::All => crate::logic::config::CliPrintStyle::All,
        CliPrintStyle::CommandsOnly => crate::logic::config::CliPrintStyle::CommandsOnly,
    }
}

impl From<ApplicationTheme> for crate::logic::config::ApplicationTheme {
    fn from(item: ApplicationTheme) -> (t: Self) {
        match item {
            ApplicationTheme::System => Self::System,
            ApplicationTheme::Dark => Self::Dark,
            ApplicationTheme::Light => Self::Light,
        }
    }
}

impl vstd::std_specs::convert::FromSpecImpl<ApplicationTheme> for crate::logic::config::ApplicationTheme {
    open spec fn obeys_from_spec() -> bool {
        true
    }

    open spec fn from_spec(v: ApplicationTheme) -> Self {
        theme_of(v)
    }
}

impl From<CliPrintStyle> for crate::logic::config::CliPrintStyle {
    fn from(item: CliPrintStyle) -> (s: Self) {
        match item {
            CliPrintStyle::All => Self::All,
            CliPrintStyle::CommandsOnly => Self::CommandsOnly,
        }
    }
}

impl vstd::std_specs::convert::FromSpecImpl<CliPrintStyle> for crate::logic::config::CliPrintStyle {
    open spec fn obeys_from_spec() -> bool {
        true
    }

    open spec fn from_spec(v: CliPrintStyle) -> Self {
        style_of(v)
    }
}

/// The value of `o`, or `d` when there is none.
pub open spec fn or_default<T>(o: Option<T>, d: T) -> T {
    match o {
        Some(v) => v,
        None => d,
    }
}

/// What the display limit's range check says of 0.
pub open spec fn display_limit_message() -> Seq<char> {
    "value: cli-display-limit must be at least 1"@
}

pub open spec fn string_length_min_message() -> Seq<char> {
    "min: param-string-length-min must be at least 1"@
}

pub open spec fn string_length_max_message() -> Seq<char> {
    "max: param-string-length-max must be at least 1"@
}

/// What the range checks of the string lengths say, one line for each bound
/// that is 0, the minimum first.
pub open spec fn string_length_message(min: Option<u32>, max: Option<u32>) -> Seq<char> {
    if min == Some(0u32) && max == Some(0u32) {
        string_length_min_message() + "\n"@ + string_length_max_message()
    } else if min == Some(0u32) {
        string_length_min_message()
    } else {
        string_length_max_message()
    }
}

pub open spec fn string_length_order_message(min: u32, max: u32) -> Seq<char> {
    "param-string-length-min ("@ + nat_to_decimal(min as nat)
        + ") cannot be greater than param-string-length-max ("@ + nat_to_decimal(max as nat) + ")"@
}

pub open spec fn int_range_order_message(min: i32, max: i32) -> Seq<char> {
    "param-int-range-min ("@ + int_to_decimal(min as int)
        + ") cannot be greater than param-int-range-max ("@ + int_to_decimal(max as int) + ")"@
}

/// The configuration after `args` is applied to `c`, or the message that
/// refuses it.
///
/// A bound left out keeps its current value.
pub open spec fn config_update(c: Config, args: ConfigArgs) -> Result<Config, Seq<char>> {
    match args {
        ConfigArgs::Theme(a) => Ok(Config { application_theme: theme_of(a.theme), ..c }),
        ConfigArgs::CliPrintStyle(a) => Ok(Config { cli_print_style: style_of(a.style), ..c }),
        ConfigArgs::CliDisplayLimit(a) => if a.value < 1 {
            Err(display_limit_message())
        } else {
            Ok(Config { cli_display_limit: a.value, ..c })
        },
        ConfigArgs::ParamStringLength(a) => if a.min is None && a.max is None {
            Err("No value(s) provided for param-string-length"@)
        } else if a.min == Some(0u32) || a.max == Some(0u32) {
            Err(string_length_message(a.min, a.max))
        } else {
            let min = or_default(a.min, c.param_string_length_min);
            let max = or_default(a.max, c.param_string_length_max);
            if min > max {
                Err(string_length_order_message(min, max))
            } else {
                Ok(Config { param_string_length_min: min, param_string_length_max: max, ..c })
            }
        },
        ConfigArgs::ParamIntRange(a) => if a.min is None && a.max is None {
            Err("No value(s) provided for param-int-range"@)
        } else {
            let min = or_default(a.min, c.param_int_range_min);
            let max = or_default(a.max, c.param_int_range_max);
            if min > max {
                Err(int_range_order_message(min, max))
            } else {
                Ok(Config { param_int_range_min: min, param_int_range_max: max, ..c })
            }
        },
    }
}

fn string_length_error(min: Option<u32>, max: Option<u32>) -> (s: String)
    requires
        min == Some(0u32) || max == Some(0u32),
    ensures
        s@ == string_length_message(min, max),
{
    let min_zero = match min {
        Some(v) => v == 0,
        None => false,
    };
    let max_zero = match max {
        Some(v) => v == 0,
        None => false,
    };
    if min_zero && max_zero {
        let mut s = string_from_str("min: param-string-length-min must be at least 1");
        push_str(&mut s, "\n");
        push_str(&mut s, "max: param-string-length-max must be at least 1");
        s
    } else if min_zero {
        string_from_str("min: param-string-length-min must be at least 1")
    } else {
        string_from_str("max: param-string-length-max must be at least 1")
    }
}

impl Cli {
    /// Applies a change of the configuration to the configuration in memory.
    ///
    /// On success the caller writes the configuration to its file; on an error
    /// nothing changes.
    pub fn handle_config_command(&mut self, config_args: ConfigArgs) -> (r: Result<(), ConfigError>)
        ensures
            match config_update(old(self).logic.config, config_args) {
                Ok(c) => r is Ok && final(self).logic.config == c,
                Err(m) => {
                    &&& r matches Err(ConfigError::InvalidValue(s)) && s@ == m
                    &&& final(self).logic.config == old(self).logic.config
                },
            },
            old(self).logic.config.well_formed() ==> final(self).logic.config.well_formed(),
    {
        match config_args {
            ConfigArgs::Theme(theme_args) => {
                self.logic.config.application_theme = crate::logic::config::ApplicationTheme::from(
                    theme_args.theme,
                );
            },
            ConfigArgs::CliPrintStyle(cli_print_style_args) => {
                self.logic.config.cli_print_style = crate::logic::config::CliPrintStyle::from(
                    cli_print_style_args.style,
                );
            },
            ConfigArgs::CliDisplayLimit(cli_display_limit_args) => {
                if cli_display_limit_args.value < 1 {
                    return Err(
                        ConfigError::InvalidValue(
                            string_from_str("value: cli-display-limit must be at least 1"),
                        ),
                    );
                }
                self.logic.config.cli_display_limit = cli_display_limit_args.value;
            },
            ConfigArgs::ParamStringLength(param_string_args) => {
                if param_string_args.min.is_none() && param_string_args.max.is_none() {
                    return Err(
                        ConfigError::InvalidValue(
                            string_from_str("No value(s) provided for param-string-length"),
                        ),
                    );
                }
                let min_zero = match param_string_args.min {
                    Some(v) => v == 0,
                    None => false,
                };
                let max_zero = match param_string_args.max {
                    Some(v) => v == 0,
                    None => false,
                };
                if min_zero || max_zero {
                    return Err(
                        ConfigError::InvalidValue(
                            string_length_error(param_string_args.min, param_string_args.max),
                        ),
                    );
                }
                let min = match param_string_args.min {
                    Some(v) => v,
                    None => self.logic.config.param_string_length_min,
                };
                let max = match param_string_args.max {
                    Some(v) => v,
                    None => self.logic.config.param_string_length_max,
                };
                if min > max {
                    let mut s = string_from_str("param-string-length-min (");
                    let a = nat_to_string(min as u64);
                    push_str(&mut s, a.as_str());
                    push_str(&mut s, ") cannot be greater than param-string-length-max (");
                    let b = nat_to_string(max as u64);
                    push_str(&mut s, b.as_str());
                    push_str(&mut s, ")");
                    return Err(ConfigError::InvalidValue(s));
                }
                self.logic.config.param_string_length_min = min;
                self.logic.config.param_string_length_max = max;
            },
            ConfigArgs::ParamIntRange(param_int_args) => {
                if param_int_args.min.is_none() && param_int_args.max.is_none() {
                    return Err(
                        ConfigError::InvalidValue(
                            string_from_str("No value(s) provided for param-int-range"),
                        ),
                    );
                }
                let min = match param_int_args.min {
                    Some(v) => v,
                    None => self.logic.config.param_int_range_min,
                };
                let max = match param_int_args.max {
                    Some(v) => v,
                    None => self.logic.config.param_int_range_max,
                };
                if min > max {
                    let mut s = string_from_str("param-int-range-min (");
                    let a = int_to_string(min as i64);
                    push_str(&mut s, a.as_str());
                    push_str(&mut s, ") cannot be greater than param-int-range-max (");
                    let b = int_to_string(max as i64);
                    push_str(&mut s, b.as_str());
                    push_str(&mut s, ")");
                    return Err(ConfigError::InvalidValue(s));
                }
                self.logic.config.param_int_range_min = min;
                self.logic.config.param_int_range_max = max;
            },
        }
        Ok(())
    }
}

/// `config theme T` always succeeds, stores the configuration theme of the
/// same name as `T` (so different choices store different themes), and leaves
/// every other setting as it was; converting a theme of the command line gives
/// the configuration theme of the same name.
pub proof fn law_theme_stored_by_name(c: Config, t: ApplicationTheme)
    ensures
        config_update(c, ConfigArgs::Theme(ApplicationThemeArgs { theme: t })) matches Ok(n) && {
            &&& (t is System <==> n.application_theme is System)
            &&& (t is Dark <==> n.application_theme is Dark)
            &&& (t is Light <==> n.application_theme is Light)
            &&& n == Config { application_theme: n.application_theme, ..c }
        },
        <crate::logic::config::ApplicationTheme as vstd::std_specs::convert::FromSpec<
            ApplicationTheme,
        >>::obeys_from_spec(),
        ({
            let f = <crate::logic::config::ApplicationTheme as vstd::std_specs::convert::FromSpec<
                ApplicationTheme,
            >>::from_spec(t);
            &&& (t is System <==> f is System)
            &&& (t is Dark <==> f is Dark)
            &&& (t is Light <==> f is Light)
        }),
{
}

/// `config cli-print-style S` always succeeds, stores the configuration print
/// style of the same name as `S`, and leaves every other setting as it was.
pub proof fn law_print_style_stored_by_name(c: Config, st: CliPrintStyle)
    ensures
        config_update(c, ConfigArgs::CliPrintStyle(CliPrintStyleArgs { style: st })) matches Ok(n)
            && {
            &&& (st is All <==> n.cli_print_style is All)
            &&& (st is CommandsOnly <==> n.cli_print_style is CommandsOnly)
            &&& n == Config { cli_print_style: n.cli_print_style, ..c }
        },
{
}

/// `config param-int-range` with at least one bound succeeds exactly when the
/// resulting range is in order; the bound given replaces the current one, a
/// bound left out keeps its current value, and nothing else changes.
pub proof fn law_int_range_update(c: Config, min: Option<i32>, max: Option<i32>)
    requires
        min is Some || max is Some,
    ensures
        ({
            let new_min = if min is Some { min->Some_0 } else { c.param_int_range_min };
            let new_max = if max is Some { max->Some_0 } else { c.param_int_range_max };
            let r = config_update(c, ConfigArgs::ParamIntRange(ParamIntRangeArgs { min, max }));
            &&& (r is Ok <==> new_min <= new_max)
            &&& r matches Ok(n) ==> n == Config {
                param_int_range_min: new_min,
                param_int_range_max: new_max,
                ..c
            }
        }),
{
}

/// `config param-string-length` with at least one bound, none of them 0,
/// succeeds exactly when the resulting lengths are in order; the bound given
/// replaces the current one, a bound left out keeps its current value, and
/// nothing else changes. A bound of 0 is refused.
pub proof fn law_string_length_update(c: Config, min: Option<u32>, max: Option<u32>)
    requires
        min is Some || max is Some,
    ensures
        ({
            let new_min = if min is Some { min->Some_0 } else { c.param_string_length_min };
            let new_max = if max is Some { max->Some_0 } else { c.param_string_length_max };
            let r = config_update(c, ConfigArgs::ParamStringLength(ParamStringLengthArgs { min, max }));
            &&& (min == Some(0u32) || max == Some(0u32) ==> r is Err)
            &&& (min != Some(0u32) && max != Some(0u32) ==> (r is Ok <==> new_min <= new_max))
            &&& r matches Ok(n) ==> n == Config {
                param_string_length_min: new_min,
                param_string_length_max: new_max,
                ..c
            }
        }),
{
}

} // verus!
