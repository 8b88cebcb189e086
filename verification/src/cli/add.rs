//! Adding a command to the stack, from the command line's arguments or from
//! what the user types.

use vstd::prelude::*;

use crate::cli::args::AddArgs;
use crate::cli::Cli;
use crate::data::models::{option_view, InternalCommand, InternalCommandView};
use crate::logic::command::AddCommandError;
use crate::logic::param::{handler_parsed, ParameterHandler};
use crate::text::{all_white_space, string_from_str};

verus! {

/// Why a command was not added.
#[derive(Debug)]
pub enum HandleAddError {
    /// A prompt failed, for the reason given.
    Inquire(String),
    /// This field was missing.
    MissingField(String),
    LogicAdd(AddCommandError),
}

/// The command that the arguments give, when they give its text.
pub open spec fn command_of_args(args: AddArgs) -> Option<InternalCommandView> {
    match args.command {
        Some(c) => Some(
            InternalCommandView {
                command: c@,
                tag: option_view(args.tag),
                note: option_view(args.note),
                favourite: args.favourite,
            },
        ),
        None => None,
    }
}

/// The command of the arguments, or `MissingField("command")` when they give
/// no text.
pub fn command_from_args(args: AddArgs) -> (r: Result<InternalCommand, HandleAddError>)
    ensures
        match command_of_args(args) {
            Some(c) => r matches Ok(ic) && ic@ == c,
            None => r matches Err(HandleAddError::MissingField(f)) && f@ == "command"@,
        },
{
    match args.command {
        Some(command) => Ok(
            InternalCommand { command, tag: args.tag, note: args.note, favourite: args.favourite },
        ),
        None => Err(HandleAddError::MissingField(string_from_str("command"))),
    }
}

/// Where the addition stands.
pub enum AddState {
    Start,
    AwaitingProperties,
    /// Waiting for the database; `show` says whether to show the command after.
    AwaitingInsert { command: InternalCommand, show: bool },
    AwaitingShown,
    Done,
}

/// What the last action brought back.
pub enum AddEvent {
    Start(AddArgs),
    /// The properties the user typed.
    PropertiesEntered(Result<InternalCommand, String>),
    /// The database stored the command, or refused it for the reason given.
    Inserted(Result<(), String>),
    Shown,
}

/// What to do next.
pub enum AddAction {
    /// Ask the user for the command's properties, offering these tag, note
    /// and favourite mark first.
    PromptProperties { tag: Option<String>, note: Option<String>, favourite: bool },
    /// Store the command.
    InsertCommand(InternalCommand),
    /// Show the stored command in a table.
    ShowCommand(InternalCommand),
    Finish(Result<(), HandleAddError>),
}

pub open spec fn add_event_fits(state: AddState, event: AddEvent) -> bool {
    match state {
        AddState::Start => event is Start,
        AddState::AwaitingProperties => event is PropertiesEntered,
        AddState::AwaitingInsert { .. } => event is Inserted,
        AddState::AwaitingShown => event is Shown,
        AddState::Done => false,
    }
}

/// The command's parameters can be checked without a panic.
pub open spec fn checkable(c: Seq<char>) -> bool {
    ParameterHandler::<rand::rngs::ThreadRng>::default_can_replace(c)
}

/// What checking a command gives: `None` when it may be stored, else why not.
pub open spec fn add_refusal(c: Seq<char>) -> Option<AddCommandError> {
    if all_white_space(c) {
        Some(AddCommandError::InvalidInput)
    } else {
        match handler_parsed(c) {
            Ok(_) => None,
            Err(e) => Some(AddCommandError::Parameter(e)),
        }
    }
}

/// After checking `c`: store it, or end with why it was refused.
pub open spec fn checked_step(c: InternalCommandView, show: bool, r: (AddState, AddAction)) -> bool {
    match add_refusal(c.command) {
        None => (r.0 matches AddState::AwaitingInsert { command, show: s } && command@ == c && s
            == show) && (r.1 matches AddAction::InsertCommand(ic) && ic@ == c),
        Some(e) => r.0 is Done && r.1 == AddAction::Finish(Err(HandleAddError::LogicAdd(e))),
    }
}

impl Cli {
    fn add_checked(&self, command: InternalCommand, show: bool) -> (r: (AddState, AddAction))
        requires
            checkable(command.command@),
        ensures
            checked_step(command@, show, r),
    {
        match self.logic.validate_add_command(&command) {
            Ok(()) => {
                let shown = command.duplicate();
                (AddState::AwaitingInsert { command, show }, AddAction::InsertCommand(shown))
            },
            Err(e) => (AddState::Done, AddAction::Finish(Err(HandleAddError::LogicAdd(e)))),
        }
    }

    /// One step of adding a command: what to do after `event`, in `state`.
    ///
    /// A command given on the command line is checked and stored, then shown;
    /// without one the user is asked for its properties first. A blank
    /// command, or one whose parameters cannot be read, is not stored.
    pub fn handle_add_command(&self, state: AddState, event: AddEvent) -> (r: (AddState, AddAction))
        requires
            add_event_fits(state, event),
            event matches AddEvent::Start(args) ==> (args.command matches Some(c) ==> checkable(c@)),
            event matches AddEvent::PropertiesEntered(Ok(c)) ==> checkable(c.command@),
        ensures
            event matches AddEvent::Start(args) ==> match command_of_args(args) {
                Some(c) => checked_step(c, true, r),
                None => r.0 is AwaitingProperties && (r.1 matches AddAction::PromptProperties {
                    tag,
                    note,
                    favourite,
                } && option_view(tag) == option_view(args.tag) && option_view(note) == option_view(
                    args.note,
                ) && favourite == args.favourite),
            },
            event matches AddEvent::PropertiesEntered(Ok(c)) ==> checked_step(c@, false, r),
            event matches AddEvent::PropertiesEntered(Err(m)) ==> r.0 is Done && (
            r.1 matches AddAction::Finish(Err(HandleAddError::Inquire(m2))) && m2@ == m@),
            state matches AddState::AwaitingInsert { command, show } ==> match event {
                AddEvent::Inserted(Ok(())) => if show {
                    r.0 is AwaitingShown && (r.1 matches AddAction::ShowCommand(c) && c@ == command@)
                } else {
                    r.0 is Done && r.1 matches AddAction::Finish(Ok(()))
                },
                AddEvent::Inserted(Err(m)) => r.0 is Done && (r.1 matches AddAction::Finish(
                    Err(HandleAddError::LogicAdd(AddCommandError::Database(m2))),
                ) && m2@ == m@),
                _ => true,
            },
            state is AwaitingShown ==> r.0 is Done && r.1 matches AddAction::Finish(Ok(())),
    {
        match state {
            AddState::Start => match event {
                AddEvent::Start(args) => {
                    if args.command.is_some() {
                        match command_from_args(args) {
                            Ok(c) => self.add_checked(c, true),
                            Err(e) => (AddState::Done, AddAction::Finish(Err(e))),
                        }
                    } else {
                        (
                            AddState::AwaitingProperties,
                            AddAction::PromptProperties {
                                tag: args.tag,
                                note: args.note,
                                favourite: args.favourite,
                            },
                        )
                    }
                },
                _ => (AddState::Done, AddAction::Finish(Ok(()))),
            },
            AddState::AwaitingProperties => match event {
                AddEvent::PropertiesEntered(Ok(c)) => self.add_checked(c, false),
                AddEvent::PropertiesEntered(Err(m)) => (
                    AddState::Done,
                    AddAction::Finish(Err(HandleAddError::Inquire(m))),
                ),
                _ => (AddState::Done, AddAction::Finish(Ok(()))),
            },
            AddState::AwaitingInsert { command, show } => match event {
                AddEvent::Inserted(Ok(())) => {
                    if show {
                        (AddState::AwaitingShown, AddAction::ShowCommand(command))
                    } else {
                        (AddState::Done, AddAction::Finish(Ok(())))
                    }
                },
                AddEvent::Inserted(Err(m)) => (
                    AddState::Done,
                    AddAction::Finish(Err(HandleAddError::LogicAdd(AddCommandError::Database(m)))),
                ),
                _ => (AddState::Done, AddAction::Finish(Ok(()))),
            },
            AddState::AwaitingShown => (AddState::Done, AddAction::Finish(Ok(()))),
            AddState::Done => (AddState::Done, AddAction::Finish(Ok(()))),
        }
    }
}

} // verus!
