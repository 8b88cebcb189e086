//! Steps that the interactive handlers share: the search terms, the blank
//! parameters and the filled-in command.

use vstd::prelude::*;

use crate::cli::args::SearchArgs;
use crate::cli::outputs::rendered;
use crate::cli::prompter::{blank_prompt, blank_prompt_markup, SearchArgsUserInput};
use crate::cli::Cli;
use crate::data::models::option_view;
use crate::logic::command::{SearchCommandArgs, SearchCommandArgsView};
use crate::logic::parameters::parser::SerializableParameter;
use crate::logic::parameters::populator::{
    blanks_before, bounds_allow, populated_from, produced, values_needed,
};
use crate::logic::parameters::{ParameterError, ParameterErrorView};
use crate::text::{int_to_string, nat_to_decimal, nat_to_string};

verus! {

/// The search that the given terms ask for.
pub open spec fn search_for(
    command: Option<Seq<char>>,
    tag: Option<Seq<char>>,
    order_by_recently_used: bool,
    favourites_only: bool,
) -> SearchCommandArgsView {
    SearchCommandArgsView { command, tag, order_by_recently_used, favourites_only }
}

/// The search for the terms the user typed, in the order and selection that
/// the command line asked for.
pub fn search_request(
    input: SearchArgsUserInput,
    order_by_recently_used: bool,
    favourites_only: bool,
) -> (r: SearchCommandArgs)
    ensures
        r@ == search_for(
            option_view(input.command),
            option_view(input.tag),
            order_by_recently_used,
            favourites_only,
        ),
{
    SearchCommandArgs {
        command: input.command,
        tag: input.tag,
        order_by_recently_used,
        favourites_only,
    }
}

/// The search of the command line's own terms.
pub fn search_from_args(args: SearchArgs) -> (r: SearchCommandArgs)
    ensures
        r@ == search_for(
            option_view(args.command),
            option_view(args.tag),
            args.order_by_recently_used,
            args.favourite,
        ),
{
    let order = args.order_by_recently_used;
    let favourite = args.favourite;
    let input = SearchArgsUserInput::from(args);
    search_request(input, order, favourite)
}

/// Whether one of the parameters is blank.
pub open spec fn has_blank(ps: Seq<SerializableParameter>) -> bool {
    exists|i: int| 0 <= i < ps.len() && (#[trigger] ps[i]) is Blank
}

/// The prompts for the blank parameters, in turn.
pub open spec fn blank_prompts_for(ps: Seq<SerializableParameter>) -> Seq<Seq<char>> {
    Seq::new(
        blanks_before(ps, ps.len() as int),
        |k: int| rendered(blank_prompt_markup((k + 1) as nat)),
    )
}

/// `out` is the command put back together from `texts` and values for
/// `params`, the blank ones taking `blanks` in turn and the others the values
/// that the thread generator's draws make.
pub open spec fn filled_in(
    texts: Seq<Seq<char>>,
    params: Seq<SerializableParameter>,
    blanks: Seq<Seq<char>>,
    out: Seq<char>,
) -> bool {
    exists|values: Seq<Seq<char>>, before: rand::rngs::ThreadRng, after: rand::rngs::ThreadRng|
        populated_from(texts, params, blanks, out, values, before, after) && produced(params, values)
}

/// The parameters' bounds let values be drawn for each of them.
pub open spec fn all_generatable(ps: Seq<SerializableParameter>) -> bool {
    bounds_allow(ps, ps.len() as int)
}


/// Answering each prompt for the blank parameters gives exactly the values
/// that filling in the command needs: one for each blank parameter.
pub proof fn law_one_prompt_per_blank(params: Seq<SerializableParameter>, blanks: Seq<Seq<char>>)
    requires
        blanks.len() == blank_prompts_for(params).len(),
    ensures
        blanks.len() == blanks_before(params, params.len() as int),
        has_blank(params) <==> blanks.len() > 0,
{
    lemma_blank_count(params, params.len() as int);
}

proof fn lemma_blank_count(ps: Seq<SerializableParameter>, k: int)
    requires
        0 <= k <= ps.len(),
    ensures
        blanks_before(ps, k) > 0 <==> exists|i: int| 0 <= i < k && (#[trigger] ps[i]) is Blank,
    decreases k,
{
    if k > 0 {
        lemma_blank_count(ps, k - 1);
        if ps[k - 1] is Blank {
            assert(0 <= k - 1 < k && ps[k - 1] is Blank);
        }
    }
}

/// Whether one of the parameters is blank.
pub fn any_blank(ps: &Vec<SerializableParameter>) -> (b: bool)
    ensures
        b == has_blank(ps@),
{
    let mut i: usize = 0;
    while i < ps.len()
        invariant
            i <= ps@.len(),
            forall|j: int| 0 <= j < i ==> !(#[trigger] ps@[j] is Blank),
        decreases ps.len() - i,
    {
        if let SerializableParameter::Blank = ps[i] {
            assert(ps@[i as int] is Blank);
            return true;
        }
        i = i + 1;
    }
    false
}

/// The prompts for the blank parameters: `Fill in @{1}:`, `Fill in @{2}:`
/// and so on.
pub fn blank_prompts(ps: &Vec<SerializableParameter>) -> (r: Vec<String>)
    ensures
        r.deep_view() == blank_prompts_for(ps@),
{
    let mut r: Vec<String> = Vec::new();
    let mut count: u64 = 0;
    let mut i: usize = 0;
    while i < ps.len()
        invariant
            i <= ps@.len(),
            count == blanks_before(ps@, i as int),
            count <= i,
            r.deep_view() =~= Seq::new(
                count as nat,
                |k: int| rendered(blank_prompt_markup((k + 1) as nat)),
            ),
        decreases ps.len() - i,
    {
        if let SerializableParameter::Blank = ps[i] {
            let p = blank_prompt(count + 1);
            let ghost prev = r.deep_view();
            r.push(p);
            count = count + 1;
            assert(r.deep_view() =~= prev.push(rendered(blank_prompt_markup(count as nat))));
        }
        i = i + 1;
    }
    r
}

/// Whether values can be drawn for all the parameters.
pub fn can_generate_all(ps: &Vec<SerializableParameter>) -> (b: bool)
    ensures
        b == all_generatable(ps@),
{
    let mut i: usize = 0;
    while i < ps.len()
        invariant
            i <= ps@.len(),
            bounds_allow(ps@, i as int),
        decreases ps.len() - i,
    {
        let ok = match &ps[i] {
            SerializableParameter::Int(p) => p.min <= p.max,
            SerializableParameter::String(p) => p.min <= p.max && p.max <= 2147483647u32,
            SerializableParameter::Boolean(_) => true,
            SerializableParameter::Blank => true,
        };
        if !ok {
            return false;
        }
        i = i + 1;
    }
    true
}

/// The blank parameters, one more than there are values given, to name in
/// the error.
pub open spec fn missing_blank_error(
    params: Seq<SerializableParameter>,
    blanks: Seq<Seq<char>>,
) -> ParameterErrorView {
    ParameterErrorView::MissingBlankParamValues(
        nat_to_decimal((blanks.len() + 1) as nat),
        nat_to_decimal(blanks_before(params, params.len() as int)),
    )
}

impl Cli {
    /// Puts a command back together: its texts, the user's values for the
    /// blank parameters and random values for the others.
    ///
    /// Fails when a parameter's bounds do not let a value be drawn (a string
    /// longer than `i32::MAX` characters), and when the user gave fewer values
    /// than there are blank parameters.
    pub fn fill_in_command(
        &self,
        texts: Vec<String>,
        params: Vec<SerializableParameter>,
        blanks: Vec<String>,
    ) -> (r: Result<String, ParameterError>)
        requires
            texts@.len() == params@.len() + 1,
        ensures
            !all_generatable(params@) ==> (r matches Err(e) && e is InvalidMinMax),
            all_generatable(params@) && blanks_before(params@, params@.len() as int)
                <= blanks@.len() ==> (r matches Ok(out) && filled_in(
                texts.deep_view(),
                params@,
                blanks.deep_view(),
                out@,
            )),
            all_generatable(params@) && blanks_before(params@, params@.len() as int)
                > blanks@.len() ==> (r matches Err(e) && e@ == missing_blank_error(
                params@,
                blanks.deep_view(),
            )),
    {
        if !can_generate_all(&params) {
            return Err(bounds_error(&params));
        }
        let ghost k = values_needed(texts@.len() as int);
        assert(k == params@.len());
        let ghost tv = texts.deep_view();
        let ghost bv = blanks.deep_view();
        let r = self.logic.populate_parameters::<rand::rngs::ThreadRng>(texts, params, blanks, None);
        match r {
            Ok((out, values)) => {
                let ghost vs = values.deep_view();
                assert(exists|before: rand::rngs::ThreadRng, after: rand::rngs::ThreadRng|
                    populated_from(tv, params@, bv, out@, vs, before, after));
                assert(produced(params@, vs));
                Ok(out)
            },
            Err(e) => Err(e),
        }
    }
}

/// The error for a parameter whose bounds let no value be drawn: its bounds.
fn bounds_error(ps: &Vec<SerializableParameter>) -> (e: ParameterError)
    requires
        !all_generatable(ps@),
    ensures
        e is InvalidMinMax,
{
    let mut i: usize = 0;
    while i < ps.len()
        invariant
            i <= ps@.len(),
            bounds_allow(ps@, i as int),
        decreases ps.len() - i,
    {
        match &ps[i] {
            SerializableParameter::String(p) => {
                if p.min > p.max || p.max > 2147483647u32 {
                    return ParameterError::InvalidMinMax(
                        nat_to_string(p.min as u64),
                        nat_to_string(p.max as u64),
                    );
                }
            },
            SerializableParameter::Int(p) => {
                if p.min > p.max {
                    return ParameterError::InvalidMinMax(
                        int_to_string(p.min as i64),
                        int_to_string(p.max as i64),
                    );
                }
            },
            _ => {},
        }
        i = i + 1;
    }
    proof {
        assert(false);
    }
    ParameterError::InvalidParameter
}

} // verus!
