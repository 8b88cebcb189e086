//! Commands as the user sees them and as the database stores them.

use vstd::prelude::*;

verus! {

/// The properties of a command that the user knows about.
#[derive(Debug, Clone)]
pub struct InternalCommand {
    pub command: String,
    pub tag: Option<String>,
    pub note: Option<String>,
    pub favourite: bool,
}

/// An [`InternalCommand`] with its texts as sequences of characters.
pub struct InternalCommandView {
    pub command: Seq<char>,
    pub tag: Option<Seq<char>>,
    pub note: Option<Seq<char>>,
    pub favourite: bool,
}

pub open spec fn option_view(o: Option<String>) -> Option<Seq<char>> {
    match o {
        Some(s) => Some(s@),
        None => None,
    }
}

impl View for InternalCommand {
    type V = InternalCommandView;

    open spec fn view(&self) -> InternalCommandView {
        InternalCommandView {
            command: self.command@,
            tag: option_view(self.tag),
            note: option_view(self.note),
            favourite: self.favourite,
        }
    }
}

/// A copy of an optional text.
pub fn copy_option(o: &Option<String>) -> (r: Option<String>)
    ensures
        option_view(r) == option_view(*o),
{
    match o {
        Some(s) => Some(s.clone()),
        None => None,
    }
}

impl InternalCommand {
    /// A copy of the command.
    pub fn duplicate(&self) -> (r: InternalCommand)
        ensures
            r@ == self@,
    {
        InternalCommand {
            command: self.command.clone(),
            tag: copy_option(&self.tag),
            note: copy_option(&self.note),
            favourite: self.favourite,
        }
    }
}

/// A command as the database stores it: with its identifier and the time it
/// was last used.
#[derive(Debug, Clone)]
pub struct Command {
    pub id: i64,
    pub last_used: i64,
    pub internal_command: InternalCommand,
}

pub struct CommandView {
    pub id: i64,
    pub last_used: i64,
    pub internal_command: InternalCommandView,
}

impl View for Command {
    type V = CommandView;

    open spec fn view(&self) -> CommandView {
        CommandView {
            id: self.id,
            last_used: self.last_used,
            internal_command: self.internal_command@,
        }
    }
}

impl Command {
    /// A copy of the command.
    pub fn duplicate(&self) -> (r: Command)
        ensures
            r@ == self@,
    {
        Command {
            id: self.id,
            last_used: self.last_used,
            internal_command: self.internal_command.duplicate(),
        }
    }
}

/// The views of a list of commands.
pub open spec fn commands_view(cs: Seq<Command>) -> Seq<CommandView> {
    cs.map_values(|c: Command| c@)
}

} // verus!
