//! Searching the stack: find the commands that match, let the user pick one,
//! fill in its parameters, and copy or run it.
//!
//! The handler is a machine of steps: each step takes what the last action
//! brought back and says what to do next. The caller performs the actions
//! (prompts, the database, the clipboard, the shell).

use vstd::prelude::*;

use crate::cli::args::SearchArgs;
use crate::cli::flow::{
    any_blank, blank_prompts, blank_prompts_for, filled_in, has_blank, search_for,
    search_from_args, search_request, all_generatable, missing_blank_error,
};
use crate::cli::prompter::{
    check_search_args_exist, CopyTextError, PromptUserForCommandSelectionError,
    SearchArgsUserInput,
};
use crate::cli::Cli;
use crate::data::models::{commands_view, option_view, Command};
use crate::logic::command::{
    search_results, SearchCommandArgs, SearchCommandError, UpdateCommandError,
};
use crate::logic::parameters::parser::{parameters_parsed, SerializableParameter};
use crate::logic::parameters::populator::blanks_before;
use crate::logic::parameters::ParameterError;
use crate::logic::parameters::boolean::is_exactly;
use crate::text::chars_of;

verus! {

/// Why a search ended without a command copied.
#[derive(Debug)]
pub enum HandleSearchError {
    /// A prompt failed, for the reason given.
    Inquire(String),
    NoCommandFound,
    Search(SearchCommandError),
    SelectCommand(PromptUserForCommandSelectionError),
    Copy(CopyTextError),
    LogicParam(ParameterError),
    LogicUpdate(UpdateCommandError),
    /// The shell could not be started, for the reason given.
    ExecuteCommandInTerminal(String),
}

/// Where a search stands.
pub enum SearchState {
    Start,
    AwaitingSearchArgs { order_by_recently_used: bool, favourites_only: bool },
    AwaitingCommands { search: SearchCommandArgs },
    AwaitingSelection,
    AwaitingBlanks { id: i64, texts: Vec<String>, params: Vec<SerializableParameter> },
    AwaitingEdit { id: i64 },
    AwaitingAction { id: i64, command: String },
    AwaitingCopy { id: i64 },
    AwaitingUseRecorded,
    AwaitingExecution,
    Done,
}

/// What the last action brought back.
pub enum SearchEvent {
    Start(SearchArgs),
    /// The search terms the user typed.
    SearchArgsEntered(Result<SearchArgsUserInput, String>),
    /// The stored commands, read in the order and selection asked for.
    CommandsRead(Result<Vec<Command>, String>),
    CommandSelected(Result<Command, PromptUserForCommandSelectionError>),
    /// The user's values for the blank parameters, in turn.
    BlanksFilled(Result<Vec<String>, String>),
    /// The command as the user edited it.
    CommandEdited(Result<String, String>),
    /// The action the user chose: `Copy` or `Execute`.
    ActionChosen(Result<String, String>),
    Copied(Result<(), CopyTextError>),
    UseRecorded(Result<(), String>),
    /// The shell could not run the command, for the reason given.
    ExecutionFailed(String),
}

/// What to do next.
pub enum SearchAction {
    /// Ask the user for search terms.
    PromptSearchArgs,
    /// Read the stored commands: by most recent use or not, favourites only or all.
    ReadCommands { order_by_recently_used: bool, favourites_only: bool },
    /// Let the user pick one of these commands.
    SelectCommand(Vec<Command>),
    /// Ask the user for the blank parameters' values, with these prompts.
    FillBlanks(Vec<String>),
    /// Let the user edit the command, starting from this text.
    EditCommand(String),
    /// Ask the user whether to copy or run the command.
    ChooseAction,
    /// Record that the command was used (whatever comes of it), then run the
    /// text in the shell in place of this program.
    Execute { id: i64, command: String },
    /// Copy the text to the clipboard.
    Copy(String),
    /// Record that the stored command was used now.
    RecordUse(i64),
    /// The search is over, with this outcome.
    Finish(Result<(), HandleSearchError>),
}

/// Whether the event answers the action that led to the state.
pub open spec fn search_event_fits(state: SearchState, event: SearchEvent) -> bool {
    match state {
        SearchState::Start => event is Start,
        SearchState::AwaitingSearchArgs { .. } => event is SearchArgsEntered,
        SearchState::AwaitingCommands { .. } => event is CommandsRead,
        SearchState::AwaitingSelection => event is CommandSelected,
        SearchState::AwaitingBlanks { .. } => event is BlanksFilled,
        SearchState::AwaitingEdit { .. } => event is CommandEdited,
        SearchState::AwaitingAction { .. } => event is ActionChosen,
        SearchState::AwaitingCopy { .. } => event is Copied,
        SearchState::AwaitingUseRecorded => event is UseRecorded,
        SearchState::AwaitingExecution => event is ExecutionFailed,
        SearchState::Done => false,
    }
}

/// What a state keeps is consistent: a command waiting for its blanks has
/// one text more than parameters.
pub open spec fn search_state_ok(state: SearchState) -> bool {
    state matches SearchState::AwaitingBlanks { texts, params, .. } ==> texts@.len()
        == params@.len() + 1
}

/// After the command was put back together (or not): edit it, or end with
/// the parameter's error.
pub open spec fn filled_in_step(
    id: i64,
    texts: Seq<Seq<char>>,
    params: Seq<SerializableParameter>,
    blanks: Seq<Seq<char>>,
    r: (SearchState, SearchAction),
) -> bool {
    if !all_generatable(params) {
        r.0 is Done && (r.1 matches SearchAction::Finish(Err(HandleSearchError::LogicParam(e)))
            && e is InvalidMinMax)
    } else if blanks_before(params, params.len() as int) <= blanks.len() {
        r.0 == SearchState::AwaitingEdit { id } && (r.1 matches SearchAction::EditCommand(t)
            && filled_in(texts, params, blanks, t@))
    } else {
        r.0 is Done && (r.1 matches SearchAction::Finish(Err(HandleSearchError::LogicParam(e)))
            && e@ == missing_blank_error(params, blanks))
    }
}

fn finish_with(e: HandleSearchError) -> (r: (SearchState, SearchAction))
    ensures
        r.0 is Done,
        r.1 == SearchAction::Finish(Err(e)),
{
    (SearchState::Done, SearchAction::Finish(Err(e)))
}

impl Cli {
    fn search_filled_in(
        &self,
        id: i64,
        texts: Vec<String>,
        params: Vec<SerializableParameter>,
        blanks: Vec<String>,
    ) -> (r: (SearchState, SearchAction))
        requires
            texts@.len() == params@.len() + 1,
        ensures
            filled_in_step(id, texts.deep_view(), params@, blanks.deep_view(), r),
    {
        match self.fill_in_command(texts, params, blanks) {
            Ok(t) => (SearchState::AwaitingEdit { id }, SearchAction::EditCommand(t)),
            Err(e) => finish_with(HandleSearchError::LogicParam(e)),
        }
    }

    /// One step of the search: what to do after `event`, in `state`.
    ///
    /// The search terms are the command line's when it gives a command or a
    /// tag, else the user is asked for them; a search that finds nothing ends
    /// with `NoCommandFound`; the picked command's blank parameters are asked
    /// for, the others drawn at random; the user edits the result, then copies
    /// it (and its use is recorded) or runs it.
    pub fn handle_search_command(&self, state: SearchState, event: SearchEvent) -> (r: (
        SearchState,
        SearchAction,
    ))
        requires
            search_event_fits(state, event),
            search_state_ok(state),
        ensures
            search_state_ok(r.0),
            event matches SearchEvent::Start(args) ==> if args.command is Some || args.tag is Some {
                &&& r.0 matches SearchState::AwaitingCommands { search } && search@ == search_for(
                    option_view(args.command),
                    option_view(args.tag),
                    args.order_by_recently_used,
                    args.favourite,
                )
                &&& r.1 == SearchAction::ReadCommands {
                    order_by_recently_used: args.order_by_recently_used,
                    favourites_only: args.favourite,
                }
            } else {
                &&& r.0 == SearchState::AwaitingSearchArgs {
                    order_by_recently_used: args.order_by_recently_used,
                    favourites_only: args.favourite,
                }
                &&& r.1 is PromptSearchArgs
            },
            state matches SearchState::AwaitingSearchArgs { order_by_recently_used, favourites_only }
                ==> match event {
                SearchEvent::SearchArgsEntered(Ok(input)) => {
                    &&& r.0 matches SearchState::AwaitingCommands { search } && search@
                        == search_for(
                        option_view(input.command),
                        option_view(input.tag),
                        order_by_recently_used,
                        favourites_only,
                    )
                    &&& r.1 == SearchAction::ReadCommands {
                        order_by_recently_used,
                        favourites_only,
                    }
                },
                SearchEvent::SearchArgsEntered(Err(m)) => r.0 is Done && (r.1 matches SearchAction::Finish(
                    Err(HandleSearchError::Inquire(m2)),
                ) && m2@ == m@),
                _ => true,
            },
            state matches SearchState::AwaitingCommands { search } ==> match event {
                SearchEvent::CommandsRead(Ok(all)) => {
                    let found = search_results(
                        commands_view(all@),
                        search@,
                        all@.len() as int,
                    );
                    if found.len() == 0 {
                        r.0 is Done && (r.1 matches SearchAction::Finish(
                            Err(HandleSearchError::NoCommandFound),
                        ))
                    } else {
                        r.0 is AwaitingSelection && (r.1 matches SearchAction::SelectCommand(cs)
                            && commands_view(cs@) == found)
                    }
                },
                SearchEvent::CommandsRead(Err(m)) => r.0 is Done && (r.1 matches SearchAction::Finish(
                    Err(HandleSearchError::Search(SearchCommandError::Database(m2))),
                ) && m2@ == m@),
                _ => true,
            },
            state is AwaitingSelection ==> match event {
                SearchEvent::CommandSelected(Ok(c)) => match parameters_parsed(
                    c.internal_command.command@,
                    self.logic.config,
                ) {
                    Ok((texts, params)) => if has_blank(params) {
                        &&& r.0 matches SearchState::AwaitingBlanks { id, texts: t, params: p }
                            && id == c.id && t.deep_view() == texts && p@ == params
                        &&& (r.1 matches SearchAction::FillBlanks(prompts) && prompts.deep_view()
                            == blank_prompts_for(params))
                    } else {
                        filled_in_step(c.id, texts, params, Seq::empty(), r)
                    },
                    Err(e) => r.0 is Done && (r.1 matches SearchAction::Finish(
                        Err(HandleSearchError::LogicParam(e2)),
                    ) && e2@ == e),
                },
                SearchEvent::CommandSelected(Err(e)) => r.0 is Done && r.1 == SearchAction::Finish(
                    Err(HandleSearchError::SelectCommand(e)),
                ),
                _ => true,
            },
            state matches SearchState::AwaitingBlanks { id, texts, params } ==> match event {
                SearchEvent::BlanksFilled(Ok(values)) => filled_in_step(
                    id,
                    texts.deep_view(),
                    params@,
                    values.deep_view(),
                    r,
                ),
                SearchEvent::BlanksFilled(Err(m)) => r.0 is Done && (r.1 matches SearchAction::Finish(
                    Err(
                        HandleSearchError::SelectCommand(
                            PromptUserForCommandSelectionError::Inquire(m2),
                        ),
                    ),
                ) && m2@ == m@),
                _ => true,
            },
            state matches SearchState::AwaitingEdit { id } ==> match event {
                SearchEvent::CommandEdited(Ok(t)) => r.0 matches SearchState::AwaitingAction {
                    id: id2,
                    command,
                } && id2 == id && command@ == t@ && r.1 is ChooseAction,
                SearchEvent::CommandEdited(Err(m)) => r.0 is Done && (r.1 matches SearchAction::Finish(
                    Err(HandleSearchError::Inquire(m2)),
                ) && m2@ == m@),
                _ => true,
            },
            state matches SearchState::AwaitingAction { id, command } ==> match event {
                SearchEvent::ActionChosen(Ok(a)) => if a@ == "Execute"@ {
                    r.0 is AwaitingExecution && (r.1 matches SearchAction::Execute {
                        id: id2,
                        command: c2,
                    } && id2 == id && c2@ == command@)
                } else {
                    r.0 == SearchState::AwaitingCopy { id } && (r.1 matches SearchAction::Copy(c2)
                        && c2@ == command@)
                },
                SearchEvent::ActionChosen(Err(m)) => r.0 is Done && (r.1 matches SearchAction::Finish(
                    Err(HandleSearchError::Inquire(m2)),
                ) && m2@ == m@),
                _ => true,
            },
            state matches SearchState::AwaitingCopy { id } ==> match event {
                SearchEvent::Copied(Ok(())) => r.0 is AwaitingUseRecorded && r.1
                    == SearchAction::RecordUse(id),
                SearchEvent::Copied(Err(e)) => r.0 is Done && r.1 == SearchAction::Finish(
                    Err(HandleSearchError::Copy(e)),
                ),
                _ => true,
            },
            state is AwaitingUseRecorded ==> match event {
                SearchEvent::UseRecorded(Ok(())) => r.0 is Done && (r.1 matches SearchAction::Finish(
                    Ok(()),
                )),
                SearchEvent::UseRecorded(Err(m)) => r.0 is Done && (r.1 matches SearchAction::Finish(
                    Err(HandleSearchError::LogicUpdate(UpdateCommandError::Database(m2))),
                ) && m2@ == m@),
                _ => true,
            },
            state is AwaitingExecution ==> match event {
                SearchEvent::ExecutionFailed(m) => r.0 is Done && (r.1 matches SearchAction::Finish(
                    Err(HandleSearchError::ExecuteCommandInTerminal(m2)),
                ) && m2@ == m@),
                _ => true,
            },
    {
        match state {
            SearchState::Start => match event {
                SearchEvent::Start(args) => {
                    if !check_search_args_exist(&args.command, &args.tag) {
                        (
                            SearchState::AwaitingSearchArgs {
                                order_by_recently_used: args.order_by_recently_used,
                                favourites_only: args.favourite,
                            },
                            SearchAction::PromptSearchArgs,
                        )
                    } else {
                        let order_by_recently_used = args.order_by_recently_used;
                        let favourites_only = args.favourite;
                        let search = search_from_args(args);
                        (
                            SearchState::AwaitingCommands { search },
                            SearchAction::ReadCommands { order_by_recently_used, favourites_only },
                        )
                    }
                },
                _ => finish_with(HandleSearchError::NoCommandFound),
            },
            SearchState::AwaitingSearchArgs { order_by_recently_used, favourites_only } => match event {
                SearchEvent::SearchArgsEntered(Ok(input)) => {
                    let search = search_request(input, order_by_recently_used, favourites_only);
                    (
                        SearchState::AwaitingCommands { search },
                        SearchAction::ReadCommands { order_by_recently_used, favourites_only },
                    )
                },
                SearchEvent::SearchArgsEntered(Err(m)) => finish_with(HandleSearchError::Inquire(m)),
                _ => finish_with(HandleSearchError::NoCommandFound),
            },
            SearchState::AwaitingCommands { search } => match event {
                SearchEvent::CommandsRead(Ok(all)) => {
                    let found = self.logic.search_command(all, &search);
                    if found.len() == 0 {
                        finish_with(HandleSearchError::NoCommandFound)
                    } else {
                        (SearchState::AwaitingSelection, SearchAction::SelectCommand(found))
                    }
                },
                SearchEvent::CommandsRead(Err(m)) => finish_with(
                    HandleSearchError::Search(SearchCommandError::Database(m)),
                ),
                _ => finish_with(HandleSearchError::NoCommandFound),
            },
            SearchState::AwaitingSelection => match event {
                SearchEvent::CommandSelected(Ok(c)) => {
                    let id = c.id;
                    match self.logic.parse_parameters(c.internal_command.command) {
                        Ok((texts, params)) => {
                            if any_blank(&params) {
                                let prompts = blank_prompts(&params);
                                (
                                    SearchState::AwaitingBlanks { id, texts, params },
                                    SearchAction::FillBlanks(prompts),
                                )
                            } else {
                                let no_values: Vec<String> = Vec::new();
                                assert(no_values.deep_view() =~= Seq::<Seq<char>>::empty());
                                self.search_filled_in(id, texts, params, no_values)
                            }
                        },
                        Err(e) => finish_with(HandleSearchError::LogicParam(e)),
                    }
                },
                SearchEvent::CommandSelected(Err(e)) => finish_with(
                    HandleSearchError::SelectCommand(e),
                ),
                _ => finish_with(HandleSearchError::NoCommandFound),
            },
            SearchState::AwaitingBlanks { id, texts, params } => match event {
                SearchEvent::BlanksFilled(Ok(values)) => {
                    self.search_filled_in(id, texts, params, values)
                },
                SearchEvent::BlanksFilled(Err(m)) => finish_with(
                    HandleSearchError::SelectCommand(PromptUserForCommandSelectionError::Inquire(m)),
                ),
                _ => finish_with(HandleSearchError::NoCommandFound),
            },
            SearchState::AwaitingEdit { id } => match event {
                SearchEvent::CommandEdited(Ok(t)) => (
                    SearchState::AwaitingAction { id, command: t },
                    SearchAction::ChooseAction,
                ),
                SearchEvent::CommandEdited(Err(m)) => finish_with(HandleSearchError::Inquire(m)),
                _ => finish_with(HandleSearchError::NoCommandFound),
            },
            SearchState::AwaitingAction { id, command } => match event {
                SearchEvent::ActionChosen(Ok(a)) => {
                    let chosen = chars_of(a.as_str());
                    let execute = vec!['E', 'x', 'e', 'c', 'u', 't', 'e'];
                    proof {
                        reveal_strlit("Execute");
                    }
                    assert(execute@ == "Execute"@);
                    if is_exactly(&chosen, &execute) {
                        (SearchState::AwaitingExecution, SearchAction::Execute { id, command })
                    } else {
                        (SearchState::AwaitingCopy { id }, SearchAction::Copy(command))
                    }
                },
                SearchEvent::ActionChosen(Err(m)) => finish_with(HandleSearchError::Inquire(m)),
                _ => finish_with(HandleSearchError::NoCommandFound),
            },
            SearchState::AwaitingCopy { id } => match event {
                SearchEvent::Copied(Ok(())) => (
                    SearchState::AwaitingUseRecorded,
                    SearchAction::RecordUse(id),
                ),
                SearchEvent::Copied(Err(e)) => finish_with(HandleSearchError::Copy(e)),
                _ => finish_with(HandleSearchError::NoCommandFound),
            },
            SearchState::AwaitingUseRecorded => match event {
                SearchEvent::UseRecorded(Ok(())) => (SearchState::Done, SearchAction::Finish(Ok(()))),
                SearchEvent::UseRecorded(Err(m)) => finish_with(
                    HandleSearchError::LogicUpdate(UpdateCommandError::Database(m)),
                ),
                _ => finish_with(HandleSearchError::NoCommandFound),
            },
            SearchState::AwaitingExecution => match event {
                SearchEvent::ExecutionFailed(m) => finish_with(
                    HandleSearchError::ExecuteCommandInTerminal(m),
                ),
                _ => finish_with(HandleSearchError::NoCommandFound),
            },
            SearchState::Done => finish_with(HandleSearchError::NoCommandFound),
        }
    }
}

} // verus!
