//! The first prototype's command line: which request a subcommand and its
//! values make, or why they make none.

use vstd::prelude::*;

use crate::data::models::option_view;
use crate::logic::parameters::boolean::is_exactly;
use crate::text::{chars_of, string_from_str};

verus! {

/// A request of the first prototype's command line.
#[derive(Debug)]
pub enum Cmd {
    Add { cmd: String, tag: Option<String>, note: Option<String> },
    Update { id: Option<String>, cmd: Option<String>, tag: Option<String>, note: Option<String> },
    Delete { id: Option<String> },
    Search { cmd: Option<String>, tag: Option<String>, note: Option<String>, id: Option<String> },
}

/// The values given to a subcommand, each one optional.
#[derive(Debug)]
pub struct SubcommandValues {
    pub cmd: Option<String>,
    pub tag: Option<String>,
    pub note: Option<String>,
    pub id: Option<String>,
}

/// Why a subcommand makes no request.
#[derive(Debug, Clone, Copy, PartialEq, Eq, Structural)]
pub enum ParseRefusal {
    /// An update was given no value at all.
    NoUpdateFields,
    /// An update was given only the identifier.
    NoUpdateValues,
    /// A search was given no value.
    NoSearchOption,
    /// The subcommand is not known.
    InvalidCommand,
}

pub open spec fn refusal_text(r: ParseRefusal) -> Seq<char> {
    match r {
        ParseRefusal::NoUpdateFields => "No update fields provided"@,
        ParseRefusal::NoUpdateValues => "Need at least 1 argument to update command"@,
        ParseRefusal::NoSearchOption => "At least one search option is required"@,
        ParseRefusal::InvalidCommand => "Invalid command"@,
    }
}

impl ParseRefusal {
    /// What is printed for the refusal.
    pub fn message(&self) -> (m: String)
        ensures
            m@ == refusal_text(*self),
    {
        match self {
            ParseRefusal::NoUpdateFields => string_from_str("No update fields provided"),
            ParseRefusal::NoUpdateValues => string_from_str(
                "Need at least 1 argument to update command",
            ),
            ParseRefusal::NoSearchOption => string_from_str(
                "At least one search option is required",
            ),
            ParseRefusal::InvalidCommand => string_from_str("Invalid command"),
        }
    }
}

/// The view of a request: each text as a sequence of characters.
pub enum CmdView {
    Add { cmd: Seq<char>, tag: Option<Seq<char>>, note: Option<Seq<char>> },
    Update {
        id: Option<Seq<char>>,
        cmd: Option<Seq<char>>,
        tag: Option<Seq<char>>,
        note: Option<Seq<char>>,
    },
    Delete { id: Option<Seq<char>> },
    Search {
        cmd: Option<Seq<char>>,
        tag: Option<Seq<char>>,
        note: Option<Seq<char>>,
        id: Option<Seq<char>>,
    },
}

impl View for Cmd {
    type V = CmdView;

    open spec fn view(&self) -> CmdView {
        match self {
            Cmd::Add { cmd, tag, note } => CmdView::Add {
                cmd: cmd@,
                tag: option_view(*tag),
                note: option_view(*note),
            },
            Cmd::Update { id, cmd, tag, note } => CmdView::Update {
                id: option_view(*id),
                cmd: option_view(*cmd),
                tag: option_view(*tag),
                note: option_view(*note),
            },
            Cmd::Delete { id } => CmdView::Delete { id: option_view(*id) },
            Cmd::Search { cmd, tag, note, id } => CmdView::Search {
                cmd: option_view(*cmd),
                tag: option_view(*tag),
                note: option_view(*note),
                id: option_view(*id),
            },
        }
    }
}

/// The request that subcommand `name` with `v` makes, or why it makes none.
///
/// An update needs a value besides its identifier, a search needs some
/// value; the other subcommands take what they are given.
pub open spec fn requested(name: Seq<char>, v: SubcommandValues) -> Result<CmdView, ParseRefusal> {
    let id = option_view(v.id);
    let cmd = option_view(v.cmd);
    let tag = option_view(v.tag);
    let note = option_view(v.note);
    if name == "add"@ {
        Ok(CmdView::Add { cmd: cmd->Some_0, tag, note })
    } else if name == "update"@ {
        if cmd is None && tag is None && note is None && id is None {
            Err(ParseRefusal::NoUpdateFields)
        } else if id is Some && cmd is None && tag is None && note is None {
            Err(ParseRefusal::NoUpdateValues)
        } else {
            Ok(CmdView::Update { id, cmd, tag, note })
        }
    } else if name == "delete"@ {
        Ok(CmdView::Delete { id })
    } else if name == "search"@ {
        if cmd is None && tag is None && note is None && id is None {
            Err(ParseRefusal::NoSearchOption)
        } else {
            Ok(CmdView::Search { cmd, tag, note, id })
        }
    } else {
        Err(ParseRefusal::InvalidCommand)
    }
}

/// Each value given on the command line lands in the field of the same name
/// of the request it makes: an `add` with a command is always made and carries
/// the given command, tag and note; any request made carries exactly the
/// values given for the fields it has.
pub proof fn law_request_carries_given_values(name: Seq<char>, v: SubcommandValues)
    ensures
        name == "add"@ && v.cmd is Some ==> requested(name, v) == Ok::<CmdView, ParseRefusal>(
            CmdView::Add { cmd: v.cmd->Some_0@, tag: option_view(v.tag), note: option_view(v.note) },
        ),
        requested(name, v) matches Ok(c) ==> match c {
            CmdView::Add { cmd, tag, note } => (v.cmd is Some ==> cmd == v.cmd->Some_0@) && tag
                == option_view(v.tag) && note == option_view(v.note),
            CmdView::Update { id, cmd, tag, note } => id == option_view(v.id) && cmd == option_view(
                v.cmd,
            ) && tag == option_view(v.tag) && note == option_view(v.note),
            CmdView::Delete { id } => id == option_view(v.id),
            CmdView::Search { cmd, tag, note, id } => cmd == option_view(v.cmd) && tag
                == option_view(v.tag) && note == option_view(v.note) && id == option_view(v.id),
        },
{
}

fn is_word(chars: &Vec<char>, word: &str) -> (b: bool)
    ensures
        b == (chars@ == word@),
{
    let w = chars_of(word);
    is_exactly(chars, &w)
}

/// The request that subcommand `name` with `values` makes, or why it makes
/// none. An `add` always comes with its command.
pub fn command_from_matches(name: &str, values: SubcommandValues) -> (r: Result<Cmd, ParseRefusal>)
    requires
        name@ == "add"@ ==> values.cmd is Some,
    ensures
        match requested(name@, values) {
            Ok(c) => r matches Ok(cmd) && cmd@ == c,
            Err(e) => r == Err::<Cmd, ParseRefusal>(e),
        },
{
    let n = chars_of(name);
    let SubcommandValues { cmd, tag, note, id } = values;
    if is_word(&n, "add") {
        match cmd {
            Some(cmd) => Ok(Cmd::Add { cmd, tag, note }),
            None => Err(ParseRefusal::InvalidCommand),
        }
    } else if is_word(&n, "update") {
        if cmd.is_none() && tag.is_none() && note.is_none() && id.is_none() {
            Err(ParseRefusal::NoUpdateFields)
        } else if id.is_some() && cmd.is_none() && tag.is_none() && note.is_none() {
            Err(ParseRefusal::NoUpdateValues)
        } else {
            Ok(Cmd::Update { id, cmd, tag, note })
        }
    } else if is_word(&n, "delete") {
        Ok(Cmd::Delete { id })
    } else if is_word(&n, "search") {
        if cmd.is_none() && tag.is_none() && note.is_none() && id.is_none() {
            Err(ParseRefusal::NoSearchOption)
        } else {
            Ok(Cmd::Search { cmd, tag, note, id })
        }
    } else {
        Err(ParseRefusal::InvalidCommand)
    }
}

} // verus!
