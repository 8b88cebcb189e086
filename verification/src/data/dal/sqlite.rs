//! The schema of the table of commands.

use vstd::prelude::*;

use crate::text::string_from_chars;

verus! {

/// The table of commands and its columns.
#[derive(Debug, Clone, Copy, PartialEq, Eq, Structural)]
pub enum Command {
    Table,
    Id,
    Command,
    Tag,
    Note,
    LastUsed,
    Favourite,
}

/// The name of the table or of a column in the database.
pub open spec fn identifier(c: Command) -> Seq<char> {
    match c {
        Command::Table => seq!['c', 'o', 'm', 'm', 'a', 'n', 'd'],
        Command::Id => seq!['i', 'd'],
        Command::Command => seq!['c', 'o', 'm', 'm', 'a', 'n', 'd'],
        Command::Tag => seq!['t', 'a', 'g'],
        Command::Note => seq!['n', 'o', 't', 'e'],
        Command::LastUsed => seq!['l', 'a', 's', 't', '_', 'u', 's', 'e', 'd'],
        Command::Favourite => seq!['f', 'a', 'v', 'o', 'u', 'r', 'i', 't', 'e'],
    }
}

impl Command {
    /// The name of the table or of the column in the database: the variant's
    /// name in snake case, the table being named after the enum.
    pub fn name(&self) -> (s: String)
        ensures
            s@ == identifier(*self),
    {
        let cs = match self {
            Command::Table => vec!['c', 'o', 'm', 'm', 'a', 'n', 'd'],
            Command::Id => vec!['i', 'd'],
            Command::Command => vec!['c', 'o', 'm', 'm', 'a', 'n', 'd'],
            Command::Tag => vec!['t', 'a', 'g'],
            Command::Note => vec!['n', 'o', 't', 'e'],
            Command::LastUsed => vec!['l', 'a', 's', 't', '_', 'u', 's', 'e', 'd'],
            Command::Favourite => vec!['f', 'a', 'v', 'o', 'u', 'r', 'i', 't', 'e'],
        };
        assert(cs@ =~= identifier(*self));
        string_from_chars(&cs)
    }
}

} // verus!
