//! What the desktop interface shows and asks for: commands as it lists them,
//! its search, and the script that opens a command in the user's terminal.

use vstd::prelude::*;

use crate::data::models::{copy_option, option_view, Command};
use crate::logic::command::{SearchCommandArgs, SearchCommandArgsView};
use crate::logic::config::UiDefaultTerminal;
use crate::text::{push_str, string_from_str};

verus! {

/// A stored command as the interface lists it.
#[derive(Debug, Clone)]
pub struct DisplayCommand {
    pub id: i64,
    pub last_used: i64,
    pub command: String,
    pub tag: Option<String>,
    pub note: Option<String>,
    pub favourite: bool,
}

impl DisplayCommand {
    /// The command as the interface lists it: its fields, flattened.
    pub fn from(c: &Command) -> (d: DisplayCommand)
        ensures
            d.id == c.id,
            d.last_used == c.last_used,
            d.command@ == c.internal_command.command@,
            option_view(d.tag) == option_view(c.internal_command.tag),
            option_view(d.note) == option_view(c.internal_command.note),
            d.favourite == c.internal_command.favourite,
    {
        DisplayCommand {
            id: c.id,
            last_used: c.last_used,
            command: c.internal_command.command.clone(),
            tag: copy_option(&c.internal_command.tag),
            note: copy_option(&c.internal_command.note),
            favourite: c.internal_command.favourite,
        }
    }
}

/// The command that the interface asks to delete.
#[derive(Debug, Clone)]
pub struct DeleteCommand {
    pub id: i64,
}

/// The interface's search: the text typed, as a command to match (none when
/// nothing was typed), in stored order, favourites or not.
pub fn search_args_for(search: String) -> (r: SearchCommandArgs)
    ensures
        r@ == (SearchCommandArgsView {
            command: if search@.len() == 0 {
                None
            } else {
                Some(search@)
            },
            tag: None,
            order_by_recently_used: false,
            favourites_only: false,
        }),
{
    let command = if crate::text::chars_of(search.as_str()).len() == 0 {
        None
    } else {
        Some(search)
    };
    SearchCommandArgs { command, tag: None, order_by_recently_used: false, favourites_only: false }
}

/// The arguments of `osascript` that type `command` into the user's terminal.
pub open spec fn terminal_script(terminal: UiDefaultTerminal, command: Seq<char>) -> Seq<Seq<char>> {
    match terminal {
        UiDefaultTerminal::Terminal => seq![
            "-e"@,
            "tell application \"Terminal\" to activate do script \""@ + command + "\" in window 1"@,
        ],
        UiDefaultTerminal::Iterm => seq![
            "-e"@,
            "tell application \"iTerm\""@,
            "-e"@,
            "tell current session of current window"@,
            "-e"@,
            "write text \""@ + command + "\""@,
            "-e"@,
            "end tell"@,
            "-e"@,
            "activate"@,
            "-e"@,
            "end tell"@,
        ],
    }
}

/// The arguments of `osascript` that type `command` into the user's terminal.
pub fn terminal_script_args(terminal: UiDefaultTerminal, command: &str) -> (r: Vec<String>)
    ensures
        r.deep_view() == terminal_script(terminal, command@),
{
    let mut r: Vec<String> = Vec::new();
    match terminal {
        UiDefaultTerminal::Terminal => {
            r.push(string_from_str("-e"));
            let mut s = string_from_str("tell application \"Terminal\" to activate do script \"");
            push_str(&mut s, command);
            push_str(&mut s, "\" in window 1");
            r.push(s);
        },
        UiDefaultTerminal::Iterm => {
            r.push(string_from_str("-e"));
            r.push(string_from_str("tell application \"iTerm\""));
            r.push(string_from_str("-e"));
            r.push(string_from_str("tell current session of current window"));
            r.push(string_from_str("-e"));
            let mut s = string_from_str("write text \"");
            push_str(&mut s, command);
            push_str(&mut s, "\"");
            r.push(s);
            r.push(string_from_str("-e"));
            r.push(string_from_str("end tell"));
            r.push(string_from_str("-e"));
            r.push(string_from_str("activate"));
            r.push(string_from_str("-e"));
            r.push(string_from_str("end tell"));
        },
    }
    assert(r.deep_view() =~= terminal_script(terminal, command@));
    r
}

} // verus!
