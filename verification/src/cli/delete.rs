//! Deleting a command of the stack: find it, let the user pick it, and
//! delete it.

use vstd::prelude::*;

use crate::cli::args::SearchArgs;
use crate::cli::flow::{search_for, search_from_args, search_request};
use crate::cli::prompter::{
    check_search_args_exist, PromptUserForCommandSelectionError, SearchArgsUserInput,
};
use crate::cli::Cli;
use crate::data::models::{commands_view, option_view, Command};
use crate::logic::command::{DeleteCommandError, search_results, SearchCommandArgs, SearchCommandError};

verus! {

/// Why a command was not deleted.
#[derive(Debug)]
pub enum HandleDeleteError {
    /// A prompt failed, for the reason given.
    Inquire(String),
    NoCommandsFound,
    Search(SearchCommandError),
    SelectCommand(PromptUserForCommandSelectionError),
    LogicDelete(DeleteCommandError),
}

/// Where the deletion stands.
pub enum DeleteState {
    Start,
    AwaitingSearchArgs { order_by_recently_used: bool, favourites_only: bool },
    AwaitingCommands { search: SearchCommandArgs },
    AwaitingSelection,
    AwaitingDeletion,
    Done,
}

/// What the last action brought back.
pub enum DeleteEvent {
    Start(SearchArgs),
    SearchArgsEntered(Result<SearchArgsUserInput, String>),
    /// The stored commands, read in the order and selection asked for.
    CommandsRead(Result<Vec<Command>, String>),
    CommandSelected(Result<Command, PromptUserForCommandSelectionError>),
    /// The database deleted the command, or refused for the reason given.
    Deleted(Result<(), String>),
}

/// What to do next.
pub enum DeleteAction {
    PromptSearchArgs,
    ReadCommands { order_by_recently_used: bool, favourites_only: bool },
    SelectCommand(Vec<Command>),
    /// Delete the command with this identifier.
    DeleteCommand(i64),
    Finish(Result<(), HandleDeleteError>),
}

pub open spec fn delete_event_fits(state: DeleteState, event: DeleteEvent) -> bool {
    match state {
        DeleteState::Start => event is Start,
        DeleteState::AwaitingSearchArgs { .. } => event is SearchArgsEntered,
        DeleteState::AwaitingCommands { .. } => event is CommandsRead,
        DeleteState::AwaitingSelection => event is CommandSelected,
        DeleteState::AwaitingDeletion => event is Deleted,
        DeleteState::Done => false,
    }
}

fn finish_with(e: HandleDeleteError) -> (r: (DeleteState, DeleteAction))
    ensures
        r.0 is Done,
        r.1 == DeleteAction::Finish(Err(e)),
{
    (DeleteState::Done, DeleteAction::Finish(Err(e)))
}

impl Cli {
    /// One step of deleting a command: what to do after `event`, in `state`.
    ///
    /// The search terms are the command line's when it gives a command or a
    /// tag, else the user is asked for them; a search that finds nothing ends
    /// with `NoCommandsFound`; the picked command is deleted.
    pub fn handle_delete_command(&self, state: DeleteState, event: DeleteEvent) -> (r: (
        DeleteState,
        DeleteAction,
    ))
        requires
            delete_event_fits(state, event),
        ensures
            event matches DeleteEvent::Start(args) ==> if args.command is Some || args.tag is Some {
                &&& r.0 matches DeleteState::AwaitingCommands { search } && search@ == search_for(
                    option_view(args.command),
                    option_view(args.tag),
                    args.order_by_recently_used,
                    args.favourite,
                )
                &&& r.1 == DeleteAction::ReadCommands {
                    order_by_recently_used: args.order_by_recently_used,
                    favourites_only: args.favourite,
                }
            } else {
                &&& r.0 == DeleteState::AwaitingSearchArgs {
                    order_by_recently_used: args.order_by_recently_used,
                    favourites_only: args.favourite,
                }
                &&& r.1 is PromptSearchArgs
            },
            state matches DeleteState::AwaitingSearchArgs { order_by_recently_used, favourites_only }
                ==> match event {
                DeleteEvent::SearchArgsEntered(Ok(input)) => {
                    &&& r.0 matches DeleteState::AwaitingCommands { search } && search@
                        == search_for(
                        option_view(input.command),
                        option_view(input.tag),
                        order_by_recently_used,
                        favourites_only,
                    )
                    &&& r.1 == DeleteAction::ReadCommands {
                        order_by_recently_used,
                        favourites_only,
                    }
                },
                DeleteEvent::SearchArgsEntered(Err(m)) => r.0 is Done && (r.1 matches DeleteAction::Finish(
                    Err(HandleDeleteError::Inquire(m2)),
                ) && m2@ == m@),
                _ => true,
            },
            state matches DeleteState::AwaitingCommands { search } ==> match event {
                DeleteEvent::CommandsRead(Ok(all)) => {
                    let found = search_results(
                        commands_view(all@),
                        search@,
                        all@.len() as int,
                    );
                    if found.len() == 0 {
                        r.0 is Done && r.1 matches DeleteAction::Finish(
                            Err(HandleDeleteError::NoCommandsFound),
                        )
                    } else {
                        r.0 is AwaitingSelection && (r.1 matches DeleteAction::SelectCommand(cs)
                            && commands_view(cs@) == found)
                    }
                },
                DeleteEvent::CommandsRead(Err(m)) => r.0 is Done && (r.1 matches DeleteAction::Finish(
                    Err(HandleDeleteError::Search(SearchCommandError::Database(m2))),
                ) && m2@ == m@),
                _ => true,
            },
            state is AwaitingSelection ==> match event {
                DeleteEvent::CommandSelected(Ok(c)) => r.0 is AwaitingDeletion && r.1
                    == DeleteAction::DeleteCommand(c.id),
                DeleteEvent::CommandSelected(Err(e)) => r.0 is Done && r.1 == DeleteAction::Finish(
                    Err(HandleDeleteError::SelectCommand(e)),
                ),
                _ => true,
            },
            state is AwaitingDeletion ==> match event {
                DeleteEvent::Deleted(Ok(())) => r.0 is Done && r.1 matches DeleteAction::Finish(Ok(())),
                DeleteEvent::Deleted(Err(m)) => r.0 is Done && (r.1 matches DeleteAction::Finish(
                    Err(HandleDeleteError::LogicDelete(DeleteCommandError::Database(m2))),
                ) && m2@ == m@),
                _ => true,
            },
    {
        match state {
            DeleteState::Start => match event {
                DeleteEvent::Start(args) => {
                    if !check_search_args_exist(&args.command, &args.tag) {
                        (
                            DeleteState::AwaitingSearchArgs {
                                order_by_recently_used: args.order_by_recently_used,
                                favourites_only: args.favourite,
                            },
                            DeleteAction::PromptSearchArgs,
                        )
                    } else {
                        let order_by_recently_used = args.order_by_recently_used;
                        let favourites_only = args.favourite;
                        let search = search_from_args(args);
                        (
                            DeleteState::AwaitingCommands { search },
                            DeleteAction::ReadCommands { order_by_recently_used, favourites_only },
                        )
                    }
                },
                _ => finish_with(HandleDeleteError::NoCommandsFound),
            },
            DeleteState::AwaitingSearchArgs { order_by_recently_used, favourites_only } => match event {
                DeleteEvent::SearchArgsEntered(Ok(input)) => {
                    let search = search_request(input, order_by_recently_used, favourites_only);
                    (
                        DeleteState::AwaitingCommands { search },
                        DeleteAction::ReadCommands { order_by_recently_used, favourites_only },
                    )
                },
                DeleteEvent::SearchArgsEntered(Err(m)) => finish_with(HandleDeleteError::Inquire(m)),
                _ => finish_with(HandleDeleteError::NoCommandsFound),
            },
            DeleteState::AwaitingCommands { search } => match event {
                DeleteEvent::CommandsRead(Ok(all)) => {
                    let found = self.logic.search_command(all, &search);
                    if found.len() == 0 {
                        finish_with(HandleDeleteError::NoCommandsFound)
                    } else {
                        (DeleteState::AwaitingSelection, DeleteAction::SelectCommand(found))
                    }
                },
                DeleteEvent::CommandsRead(Err(m)) => finish_with(
                    HandleDeleteError::Search(SearchCommandError::Database(m)),
                ),
                _ => finish_with(HandleDeleteError::NoCommandsFound),
            },
            DeleteState::AwaitingSelection => match event {
                DeleteEvent::CommandSelected(Ok(c)) => (
                    DeleteState::AwaitingDeletion,
                    DeleteAction::DeleteCommand(c.id),
                ),
                DeleteEvent::CommandSelected(Err(e)) => finish_with(
                    HandleDeleteError::SelectCommand(e),
                ),
                _ => finish_with(HandleDeleteError::NoCommandsFound),
            },
            DeleteState::AwaitingDeletion => match event {
                DeleteEvent::Deleted(Ok(())) => (DeleteState::Done, DeleteAction::Finish(Ok(()))),
                DeleteEvent::Deleted(Err(m)) => finish_with(
                    HandleDeleteError::LogicDelete(DeleteCommandError::Database(m)),
                ),
                _ => finish_with(HandleDeleteError::NoCommandsFound),
            },
            DeleteState::Done => finish_with(HandleDeleteError::NoCommandsFound),
        }
    }
}

} // verus!
