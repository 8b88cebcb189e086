//! Updating a command of the stack: find it, let the user pick it, and
//! store the properties the user types.

use vstd::prelude::*;

use crate::cli::add::{add_refusal, checkable};
use crate::cli::args::SearchArgs;
use crate::cli::flow::{search_for, search_from_args, search_request};
use crate::cli::prompter::{
    check_search_args_exist, PromptUserForCommandSelectionError, SearchArgsUserInput,
};
use crate::cli::Cli;
use crate::data::models::{commands_view, option_view, Command, InternalCommand};
use crate::logic::command::{search_results, SearchCommandArgs, SearchCommandError, UpdateCommandError};

verus! {

/// Why a command was not updated.
#[derive(Debug)]
pub enum HandleUpdateError {
    /// A prompt failed, for the reason given.
    Inquire(String),
    NoCommandFound,
    Search(SearchCommandError),
    SelectCommand(PromptUserForCommandSelectionError),
    LogicUpdate(UpdateCommandError),
}

/// Where the update stands.
pub enum UpdateState {
    Start,
    AwaitingSearchArgs { order_by_recently_used: bool, favourites_only: bool },
    AwaitingCommands { search: SearchCommandArgs },
    AwaitingSelection,
    AwaitingProperties { id: i64 },
    AwaitingUpdate,
    Done,
}

/// What the last action brought back.
pub enum UpdateEvent {
    Start(SearchArgs),
    SearchArgsEntered(Result<SearchArgsUserInput, String>),
    /// The stored commands, read in the order and selection asked for.
    CommandsRead(Result<Vec<Command>, String>),
    CommandSelected(Result<Command, PromptUserForCommandSelectionError>),
    /// The new properties the user typed.
    PropertiesEntered(Result<InternalCommand, String>),
    /// The database stored the change, or refused it for the reason given.
    Updated(Result<(), String>),
}

/// What to do next.
pub enum UpdateAction {
    PromptSearchArgs,
    ReadCommands { order_by_recently_used: bool, favourites_only: bool },
    SelectCommand(Vec<Command>),
    /// Show the section title, then ask for the new properties, offering the
    /// current ones first.
    PromptProperties(InternalCommand),
    /// Store the new properties of the command with this identifier.
    UpdateCommand { id: i64, command: InternalCommand },
    Finish(Result<(), HandleUpdateError>),
}

pub open spec fn update_event_fits(state: UpdateState, event: UpdateEvent) -> bool {
    match state {
        UpdateState::Start => event is Start,
        UpdateState::AwaitingSearchArgs { .. } => event is SearchArgsEntered,
        UpdateState::AwaitingCommands { .. } => event is CommandsRead,
        UpdateState::AwaitingSelection => event is CommandSelected,
        UpdateState::AwaitingProperties { .. } => event is PropertiesEntered,
        UpdateState::AwaitingUpdate => event is Updated,
        UpdateState::Done => false,
    }
}

/// Why new properties are refused, as the update says it.
pub open spec fn update_refusal(c: Seq<char>) -> Option<UpdateCommandError> {
    match add_refusal(c) {
        None => None,
        Some(crate::logic::command::AddCommandError::Parameter(e)) => Some(
            UpdateCommandError::Parameter(e),
        ),
        Some(_) => Some(UpdateCommandError::InvalidInput),
    }
}

fn finish_with(e: HandleUpdateError) -> (r: (UpdateState, UpdateAction))
    ensures
        r.0 is Done,
        r.1 == UpdateAction::Finish(Err(e)),
{
    (UpdateState::Done, UpdateAction::Finish(Err(e)))
}

impl Cli {
    /// One step of updating a command: what to do after `event`, in `state`.
    ///
    /// The search terms are the command line's when it gives a command or a
    /// tag, else the user is asked for them; with nothing found there is
    /// nothing to select; the picked command's new properties are checked as
    /// an added command's are, then stored.
    pub fn handle_update_command(&self, state: UpdateState, event: UpdateEvent) -> (r: (
        UpdateState,
        UpdateAction,
    ))
        requires
            update_event_fits(state, event),
            event matches UpdateEvent::PropertiesEntered(Ok(c)) ==> checkable(c.command@),
        ensures
            event matches UpdateEvent::Start(args) ==> if args.command is Some || args.tag is Some {
                &&& r.0 matches UpdateState::AwaitingCommands { search } && search@ == search_for(
                    option_view(args.command),
                    option_view(args.tag),
                    args.order_by_recently_used,
                    args.favourite,
                )
                &&& r.1 == UpdateAction::ReadCommands {
                    order_by_recently_used: args.order_by_recently_used,
                    favourites_only: args.favourite,
                }
            } else {
                &&& r.0 == UpdateState::AwaitingSearchArgs {
                    order_by_recently_used: args.order_by_recently_used,
                    favourites_only: args.favourite,
                }
                &&& r.1 is PromptSearchArgs
            },
            state matches UpdateState::AwaitingSearchArgs { order_by_recently_used, favourites_only }
                ==> match event {
                UpdateEvent::SearchArgsEntered(Ok(input)) => {
                    &&& r.0 matches UpdateState::AwaitingCommands { search } && search@
                        == search_for(
                        option_view(input.command),
                        option_view(input.tag),
                        order_by_recently_used,
                        favourites_only,
                    )
                    &&& r.1 == UpdateAction::ReadCommands {
                        order_by_recently_used,
                        favourites_only,
                    }
                },
                UpdateEvent::SearchArgsEntered(Err(m)) => r.0 is Done && (r.1 matches UpdateAction::Finish(
                    Err(HandleUpdateError::Inquire(m2)),
                ) && m2@ == m@),
                _ => true,
            },
            state matches UpdateState::AwaitingCommands { search } ==> match event {
                UpdateEvent::CommandsRead(Ok(all)) => {
                    let found = search_results(
                        commands_view(all@),
                        search@,
                        all@.len() as int,
                    );
                    if found.len() == 0 {
                        r.0 is Done && r.1 matches UpdateAction::Finish(
                            Err(
                                HandleUpdateError::SelectCommand(
                                    PromptUserForCommandSelectionError::NoCommandsProvided,
                                ),
                            ),
                        )
                    } else {
                        r.0 is AwaitingSelection && (r.1 matches UpdateAction::SelectCommand(cs)
                            && commands_view(cs@) == found)
                    }
                },
                UpdateEvent::CommandsRead(Err(m)) => r.0 is Done && (r.1 matches UpdateAction::Finish(
                    Err(HandleUpdateError::Search(SearchCommandError::Database(m2))),
                ) && m2@ == m@),
                _ => true,
            },
            state is AwaitingSelection ==> match event {
                UpdateEvent::CommandSelected(Ok(c)) => r.0 == UpdateState::AwaitingProperties {
                    id: c.id,
                } && (r.1 matches UpdateAction::PromptProperties(cur) && cur@ == c.internal_command@),
                UpdateEvent::CommandSelected(Err(e)) => r.0 is Done && r.1 == UpdateAction::Finish(
                    Err(HandleUpdateError::SelectCommand(e)),
                ),
                _ => true,
            },
            state matches UpdateState::AwaitingProperties { id } ==> match event {
                UpdateEvent::PropertiesEntered(Ok(c)) => match update_refusal(c.command@) {
                    None => r.0 is AwaitingUpdate && (r.1 matches UpdateAction::UpdateCommand {
                        id: id2,
                        command,
                    } && id2 == id && command@ == c@),
                    Some(e) => r.0 is Done && r.1 == UpdateAction::Finish(
                        Err(HandleUpdateError::LogicUpdate(e)),
                    ),
                },
                UpdateEvent::PropertiesEntered(Err(m)) => r.0 is Done && (r.1 matches UpdateAction::Finish(
                    Err(HandleUpdateError::Inquire(m2)),
                ) && m2@ == m@),
                _ => true,
            },
            state is AwaitingUpdate ==> match event {
                UpdateEvent::Updated(Ok(())) => r.0 is Done && r.1 matches UpdateAction::Finish(Ok(())),
                UpdateEvent::Updated(Err(m)) => r.0 is Done && (r.1 matches UpdateAction::Finish(
                    Err(HandleUpdateError::LogicUpdate(UpdateCommandError::Database(m2))),
                ) && m2@ == m@),
                _ => true,
            },
    {
        match state {
            UpdateState::Start => match event {
                UpdateEvent::Start(args) => {
                    if !check_search_args_exist(&args.command, &args.tag) {
                        (
                            UpdateState::AwaitingSearchArgs {
                                order_by_recently_used: args.order_by_recently_used,
                                favourites_only: args.favourite,
                            },
                            UpdateAction::PromptSearchArgs,
                        )
                    } else {
                        let order_by_recently_used = args.order_by_recently_used;
                        let favourites_only = args.favourite;
                        let search = search_from_args(args);
                        (
                            UpdateState::AwaitingCommands { search },
                            UpdateAction::ReadCommands { order_by_recently_used, favourites_only },
                        )
                    }
                },
                _ => finish_with(HandleUpdateError::NoCommandFound),
            },
            UpdateState::AwaitingSearchArgs { order_by_recently_used, favourites_only } => match event {
                UpdateEvent::SearchArgsEntered(Ok(input)) => {
                    let search = search_request(input, order_by_recently_used, favourites_only);
                    (
                        UpdateState::AwaitingCommands { search },
                        UpdateAction::ReadCommands { order_by_recently_used, favourites_only },
                    )
                },
                UpdateEvent::SearchArgsEntered(Err(m)) => finish_with(HandleUpdateError::Inquire(m)),
                _ => finish_with(HandleUpdateError::NoCommandFound),
            },
            UpdateState::AwaitingCommands { search } => match event {
                UpdateEvent::CommandsRead(Ok(all)) => {
                    let found = self.logic.search_command(all, &search);
                    if found.len() == 0 {
                        finish_with(
                            HandleUpdateError::SelectCommand(
                                PromptUserForCommandSelectionError::NoCommandsProvided,
                            ),
                        )
                    } else {
                        (UpdateState::AwaitingSelection, UpdateAction::SelectCommand(found))
                    }
                },
                UpdateEvent::CommandsRead(Err(m)) => finish_with(
                    HandleUpdateError::Search(SearchCommandError::Database(m)),
                ),
                _ => finish_with(HandleUpdateError::NoCommandFound),
            },
            UpdateState::AwaitingSelection => match event {
                UpdateEvent::CommandSelected(Ok(c)) => (
                    UpdateState::AwaitingProperties { id: c.id },
                    UpdateAction::PromptProperties(c.internal_command),
                ),
                UpdateEvent::CommandSelected(Err(e)) => finish_with(
                    HandleUpdateError::SelectCommand(e),
                ),
                _ => finish_with(HandleUpdateError::NoCommandFound),
            },
            UpdateState::AwaitingProperties { id } => match event {
                UpdateEvent::PropertiesEntered(Ok(c)) => {
                    match self.logic.validate_update_command(&c) {
                        Ok(()) => (
                            UpdateState::AwaitingUpdate,
                            UpdateAction::UpdateCommand { id, command: c },
                        ),
                        Err(e) => finish_with(HandleUpdateError::LogicUpdate(e)),
                    }
                },
                UpdateEvent::PropertiesEntered(Err(m)) => finish_with(HandleUpdateError::Inquire(m)),
                _ => finish_with(HandleUpdateError::NoCommandFound),
            },
            UpdateState::AwaitingUpdate => match event {
                UpdateEvent::Updated(Ok(())) => (UpdateState::Done, UpdateAction::Finish(Ok(()))),
                UpdateEvent::Updated(Err(m)) => finish_with(
                    HandleUpdateError::LogicUpdate(UpdateCommandError::Database(m)),
                ),
                _ => finish_with(HandleUpdateError::NoCommandFound),
            },
            UpdateState::Done => finish_with(HandleUpdateError::NoCommandFound),
        }
    }
}

} // verus!
