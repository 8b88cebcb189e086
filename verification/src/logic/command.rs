//! Commands: checking what the user asks to store, and searching the stored
//! commands.

use fuzzy_matcher::FuzzyMatcher;
use vstd::prelude::*;

use crate::cli::utils::is_blank_text;
use crate::data::models::{commands_view, option_view, Command, CommandView, InternalCommand};
use crate::logic::param::{handler_parsed, replaced_from, ParameterError, ParameterHandler};
use crate::logic::Logic;
use crate::text::all_white_space;

verus! {

/// Why a command could not be added.
#[derive(Debug)]
pub enum AddCommandError {
    InvalidInput,
    /// The database refused the command, for the reason given.
    Database(String),
    Parameter(ParameterError),
}

/// Why a command could not be updated.
#[derive(Debug)]
pub enum UpdateCommandError {
    InvalidInput,
    /// The database refused the change, for the reason given.
    Database(String),
    Parameter(ParameterError),
}

/// Why commands could not be searched.
#[derive(Debug)]
pub enum SearchCommandError {
    InvalidInput,
    /// The database could not be read, for the reason given.
    Database(String),
}

/// Why commands could not be listed.
#[derive(Debug)]
pub enum ListCommandError {
    InvalidInput,
    /// The database could not be read, for the reason given.
    Database(String),
}

/// Why a command could not be deleted.
#[derive(Debug)]
pub enum DeleteCommandError {
    InvalidInput,
    /// The database refused the deletion, for the reason given.
    Database(String),
}

/// What to search the stored commands for.
#[derive(Debug)]
pub struct SearchCommandArgs {
    pub command: Option<String>,
    pub tag: Option<String>,
    pub order_by_recently_used: bool,
    pub favourites_only: bool,
}

pub struct SearchCommandArgsView {
    pub command: Option<Seq<char>>,
    pub tag: Option<Seq<char>>,
    pub order_by_recently_used: bool,
    pub favourites_only: bool,
}

impl View for SearchCommandArgs {
    type V = SearchCommandArgsView;

    open spec fn view(&self) -> SearchCommandArgsView {
        SearchCommandArgsView {
            command: option_view(self.command),
            tag: option_view(self.tag),
            order_by_recently_used: self.order_by_recently_used,
            favourites_only: self.favourites_only,
        }
    }
}

/// The score that `SkimMatcherV2::default()` gives `choice` for `pattern`,
/// none when `pattern` does not match it.
pub uninterp spec fn skim_score(choice: Seq<char>, pattern: Seq<char>) -> Option<i64>;

/// `SkimMatcherV2::default().fuzzy_match(choice, pattern)`: the fuzzy score of
/// `choice` for `pattern`, named by `skim_score`; the crate's source gives 0
/// at once for an empty pattern.
#[verifier::external_body]
fn skim_fuzzy_match(choice: &str, pattern: &str) -> (r: Option<i64>)
    ensures
        r == skim_score(choice@, pattern@),
        pattern@.len() == 0 ==> r == Some(0i64),
{
    fuzzy_matcher::skim::SkimMatcherV2::default().fuzzy_match(choice, pattern)
}

/// The score a match must exceed to count.
pub open spec fn min_threshold() -> i64 {
    50
}

pub open spec fn score_passes(score: Option<i64>) -> bool {
    score matches Some(r) && r > min_threshold()
}

/// Whether a stored command answers a search: every command when the search
/// gives neither a command nor a tag, else one whose command or tag matches
/// the one given closely enough.
pub open spec fn search_matches(c: CommandView, args: SearchCommandArgsView) -> bool {
    if args.command is None && args.tag is None {
        true
    } else {
        ||| (args.command matches Some(p) && score_passes(skim_score(c.internal_command.command, p)))
        ||| (args.tag matches Some(t) && c.internal_command.tag matches Some(tag) && score_passes(
            skim_score(tag, t),
        ))
    }
}

/// The first `k` commands that answer the search, in their order.
pub open spec fn search_results(cs: Seq<CommandView>, args: SearchCommandArgsView, k: int) -> Seq<
    CommandView,
>
    decreases k,
{
    if k <= 0 {
        seq![]
    } else if search_matches(cs[k - 1], args) {
        search_results(cs, args, k - 1).push(cs[k - 1])
    } else {
        search_results(cs, args, k - 1)
    }
}


/// A search with neither a command nor a tag finds every stored command, in
/// order.
pub proof fn law_search_without_terms_finds_all(cs: Seq<CommandView>, args: SearchCommandArgsView)
    requires
        args.command is None,
        args.tag is None,
    ensures
        search_results(cs, args, cs.len() as int) == cs,
{
    lemma_search_all(cs, args, cs.len() as int);
    assert(cs.take(cs.len() as int) =~= cs);
}

proof fn lemma_search_all(cs: Seq<CommandView>, args: SearchCommandArgsView, k: int)
    requires
        args.command is None,
        args.tag is None,
        0 <= k <= cs.len(),
    ensures
        search_results(cs, args, k) == cs.take(k),
    decreases k,
{
    if k > 0 {
        lemma_search_all(cs, args, k - 1);
        assert(cs.take(k - 1).push(cs[k - 1]) =~= cs.take(k));
    } else {
        assert(cs.take(0) =~= Seq::<CommandView>::empty());
    }
}

/// Every command a search finds answers the search and is one of the stored
/// commands, and the search finds no more than are stored.
pub proof fn law_search_finds_matching_stored(cs: Seq<CommandView>, args: SearchCommandArgsView)
    ensures
        search_results(cs, args, cs.len() as int).len() <= cs.len(),
        forall|j: int|
            0 <= j < search_results(cs, args, cs.len() as int).len() ==> search_matches(
                #[trigger] search_results(cs, args, cs.len() as int)[j],
                args,
            ) && cs.contains(search_results(cs, args, cs.len() as int)[j]),
{
    lemma_search_sub(cs, args, cs.len() as int);
}

proof fn lemma_search_sub(cs: Seq<CommandView>, args: SearchCommandArgsView, k: int)
    requires
        0 <= k <= cs.len(),
    ensures
        search_results(cs, args, k).len() <= k,
        forall|j: int|
            0 <= j < search_results(cs, args, k).len() ==> search_matches(
                #[trigger] search_results(cs, args, k)[j],
                args,
            ) && cs.contains(search_results(cs, args, k)[j]),
    decreases k,
{
    if k > 0 {
        lemma_search_sub(cs, args, k - 1);
        let prev = search_results(cs, args, k - 1);
        if search_matches(cs[k - 1], args) {
            assert forall|j: int|
                0 <= j < search_results(cs, args, k).len() implies search_matches(
                #[trigger] search_results(cs, args, k)[j],
                args,
            ) && cs.contains(search_results(cs, args, k)[j]) by {
                if j < prev.len() {
                    assert(search_results(cs, args, k)[j] == prev[j]);
                } else {
                    assert(search_results(cs, args, k)[j] == cs[k - 1]);
                }
            }
        }
    }
}


/// The command's text passes the score for the command pattern given, or its
/// tag passes it for the tag pattern given, or no pattern is given at all.
pub open spec fn answers_search(c: CommandView, args: SearchCommandArgsView) -> bool {
    ||| (args.command is None && args.tag is None)
    ||| (args.command matches Some(p) && skim_score(c.internal_command.command, p) matches Some(
        r,
    ) && r > 50)
    ||| (args.tag matches Some(t) && c.internal_command.tag matches Some(tag) && skim_score(
        tag,
        t,
    ) matches Some(r) && r > 50)
}

/// A search finds exactly the stored commands that answer it: every stored
/// command whose text matches the command pattern closely enough, or whose tag
/// matches the tag pattern closely enough, is found (the two patterns are
/// alternatives, neither hides the other), and every command found is such a
/// stored command.
pub proof fn law_search_complete_and_sound(cs: Seq<CommandView>, args: SearchCommandArgsView)
    ensures
        forall|i: int|
            0 <= i < cs.len() && answers_search(#[trigger] cs[i], args) ==> search_results(
                cs,
                args,
                cs.len() as int,
            ).contains(cs[i]),
        forall|j: int|
            0 <= j < search_results(cs, args, cs.len() as int).len() ==> answers_search(
                #[trigger] search_results(cs, args, cs.len() as int)[j],
                args,
            ) && cs.contains(search_results(cs, args, cs.len() as int)[j]),
{
    lemma_search_sub(cs, args, cs.len() as int);
    assert forall|i: int| 0 <= i < cs.len() && answers_search(#[trigger] cs[i], args) implies search_results(
        cs,
        args,
        cs.len() as int,
    ).contains(cs[i]) by {
        assert(search_matches(cs[i], args));
        lemma_search_finds(cs, args, cs.len() as int, i);
    }
    assert forall|j: int|
        0 <= j < search_results(cs, args, cs.len() as int).len() implies answers_search(
        #[trigger] search_results(cs, args, cs.len() as int)[j],
        args,
    ) by {
        assert(search_matches(search_results(cs, args, cs.len() as int)[j], args));
    }
}

proof fn lemma_search_finds(cs: Seq<CommandView>, args: SearchCommandArgsView, k: int, i: int)
    requires
        0 <= i < k <= cs.len(),
        search_matches(cs[i], args),
    ensures
        search_results(cs, args, k).contains(cs[i]),
    decreases k,
{
    if i == k - 1 {
        let r = search_results(cs, args, k);
        assert(r[r.len() - 1] == cs[i]);
    } else {
        lemma_search_finds(cs, args, k - 1, i);
        let prev = search_results(cs, args, k - 1);
        let j = choose|j: int| 0 <= j < prev.len() && prev[j] == cs[i];
        if search_matches(cs[k - 1], args) {
            assert(search_results(cs, args, k)[j] == cs[i]);
        }
    }
}

/// Where in the stored commands each of the first `k` commands found stands.
pub open spec fn search_indices(cs: Seq<CommandView>, args: SearchCommandArgsView, k: int) -> Seq<int>
    decreases k,
{
    if k <= 0 {
        seq![]
    } else if search_matches(cs[k - 1], args) {
        search_indices(cs, args, k - 1).push(k - 1)
    } else {
        search_indices(cs, args, k - 1)
    }
}

proof fn lemma_search_indices(cs: Seq<CommandView>, args: SearchCommandArgsView, k: int)
    requires
        0 <= k <= cs.len(),
    ensures
        search_indices(cs, args, k).len() == search_results(cs, args, k).len(),
        forall|j: int|
            0 <= j < search_indices(cs, args, k).len() ==> 0 <= #[trigger] search_indices(
                cs,
                args,
                k,
            )[j] < k && search_results(cs, args, k)[j] == cs[search_indices(cs, args, k)[j]],
        forall|a: int, b: int|
            0 <= a < b < search_indices(cs, args, k).len() ==> #[trigger] search_indices(
                cs,
                args,
                k,
            )[a] < #[trigger] search_indices(cs, args, k)[b],
    decreases k,
{
    if k > 0 {
        lemma_search_indices(cs, args, k - 1);
    }
}

/// `found` is the commands of `cs` at the increasing positions `idx`.
pub open spec fn at_positions(cs: Seq<CommandView>, found: Seq<CommandView>, idx: Seq<int>) -> bool {
    &&& idx.len() == found.len()
    &&& forall|j: int| 0 <= j < idx.len() ==> 0 <= #[trigger] idx[j] < cs.len() && found[j] == cs[idx[j]]
    &&& forall|a: int, b: int| 0 <= a < b < idx.len() ==> #[trigger] idx[a] < #[trigger] idx[b]
}

/// The commands a search finds keep the order in which they are stored: they
/// are the stored commands at increasing positions.
pub proof fn law_search_keeps_stored_order(cs: Seq<CommandView>, args: SearchCommandArgsView)
    ensures
        exists|idx: Seq<int>| #[trigger] at_positions(cs, search_results(cs, args, cs.len() as int), idx),
{
    lemma_search_indices(cs, args, cs.len() as int);
    assert(at_positions(
        cs,
        search_results(cs, args, cs.len() as int),
        search_indices(cs, args, cs.len() as int),
    ));
}

/// Whether the score for `pattern` passes.
fn passes(choice: &str, pattern: &Option<String>) -> (b: bool)
    ensures
        b == (option_view(*pattern) matches Some(p) && score_passes(skim_score(choice@, p))),
{
    match pattern {
        Some(p) => match skim_fuzzy_match(choice, p.as_str()) {
            Some(r) => r > 50,
            None => false,
        },
        None => false,
    }
}

impl Logic {
    /// Checks a command that the user asks to add: its text must not be
    /// blank, and its parameters must be readable.
    pub fn validate_add_command(&self, command: &InternalCommand) -> (r: Result<(), AddCommandError>)
        requires
            ParameterHandler::<rand::rngs::ThreadRng>::default_can_replace(command.command@),
        ensures
            all_white_space(command.command@) ==> r matches Err(AddCommandError::InvalidInput),
            !all_white_space(command.command@) ==> match handler_parsed(command.command@) {
                Ok(_) => r is Ok,
                Err(e) => r matches Err(AddCommandError::Parameter(f)) && f == e,
            },
    {
        if is_blank_text(command.command.as_str()) {
            return Err(AddCommandError::InvalidInput);
        }
        let mut handler = ParameterHandler::<rand::rngs::ThreadRng>::default();
        match handler.validate_parameters(command.command.clone()) {
            Ok(()) => Ok(()),
            Err(e) => Err(AddCommandError::Parameter(e)),
        }
    }

    /// Checks the new properties of a command that the user asks to update:
    /// its text must not be blank, and its parameters must be readable.
    pub fn validate_update_command(&self, new_command_props: &InternalCommand) -> (r: Result<
        (),
        UpdateCommandError,
    >)
        requires
            ParameterHandler::<rand::rngs::ThreadRng>::default_can_replace(
                new_command_props.command@,
            ),
        ensures
            all_white_space(new_command_props.command@) ==> r matches Err(
                UpdateCommandError::InvalidInput,
            ),
            !all_white_space(new_command_props.command@) ==> match handler_parsed(
                new_command_props.command@,
            ) {
                Ok(_) => r is Ok,
                Err(e) => r matches Err(UpdateCommandError::Parameter(f)) && f == e,
            },
    {
        if is_blank_text(new_command_props.command.as_str()) {
            return Err(UpdateCommandError::InvalidInput);
        }
        let mut handler = ParameterHandler::<rand::rngs::ThreadRng>::default();
        match handler.validate_parameters(new_command_props.command.clone()) {
            Ok(()) => Ok(()),
            Err(e) => Err(UpdateCommandError::Parameter(e)),
        }
    }

    /// The stored commands that answer a search, in their order.
    pub fn search_command(&self, commands: Vec<Command>, params: &SearchCommandArgs) -> (r: Vec<
        Command,
    >)
        ensures
            commands_view(r@) == search_results(
                commands_view(commands@),
                params@,
                commands@.len() as int,
            ),
    {
        let ghost cs = commands_view(commands@);
        let mut filtered_commands: Vec<Command> = Vec::new();
        let mut i: usize = 0;
        while i < commands.len()
            invariant
                i <= commands@.len(),
                cs == commands_view(commands@),
                commands_view(filtered_commands@) == search_results(cs, params@, i as int),
            decreases commands.len() - i,
        {
            let command = &commands[i];
            let keep = if params.command.is_none() && params.tag.is_none() {
                true
            } else {
                let command_match = passes(command.internal_command.command.as_str(), &params.command);
                let tag_match = match &command.internal_command.tag {
                    Some(tag) => passes(tag.as_str(), &params.tag),
                    None => false,
                };
                command_match || tag_match
            };
            assert(cs[i as int] == command@);
            if keep {
                let c = command.duplicate();
                filtered_commands.push(c);
                assert(commands_view(filtered_commands@) =~= search_results(cs, params@, i as int).push(
                    cs[i as int],
                ));
            }
            i = i + 1;
        }
        filtered_commands
    }

    /// Gives the parameters of a command random values (from the thread's
    /// generator) and puts the command back together with them.
    pub fn generate_parameters(&self, command: String) -> (r: Result<(String, Vec<String>), ParameterError>)
        requires
            ParameterHandler::<rand::rngs::ThreadRng>::default_can_replace(command@),
        ensures
            ParameterHandler::<rand::rngs::ThreadRng>::replaced(command@, r),
            exists|before: rand::rngs::ThreadRng, after: rand::rngs::ThreadRng|
                replaced_from(command@, r, before, after),
    {
        let mut handler = ParameterHandler::<rand::rngs::ThreadRng>::default();
        let ghost before = handler.generator();
        let r = handler.replace_parameters(command);
        let ghost after = handler.generator();
        assert(replaced_from(command@, r, before, after));
        r
    }
}

} // verus!
