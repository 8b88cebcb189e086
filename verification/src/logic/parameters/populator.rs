//! Giving the parameters of a command their values.

use rand::Rng;
use vstd::prelude::*;

use super::parser::{param_generated, SerializableParameter};
use super::syntax::{interleave, lemma_pairs_joined_prefix, pairs_joined};
use super::{draws_all, GenerateRandomValues, ParameterError, ParameterErrorView};
use crate::logic::param::{mock_next, mock_offset_bound, MockRng};
use crate::logic::Logic;
use crate::text::{nat_to_decimal, nat_to_string, push_str};

verus! {

/// A source of numbers drawn from a range.
pub trait RandomNumberGenerator: Sized {
    /// Whether, in this state, the generator can be asked for a number of
    /// `[low, high]` without a panic.
    spec fn can_draw_within(&self, low: int, high: int) -> bool;

    /// Whether every number the generator hands out lies in the range asked
    /// for.
    spec fn stays_in_range(&self) -> bool;

    /// Asked for a number of `[low, high]` in state `before`, the generator
    /// may hand out `r` and be left in state `after`.
    spec fn drew(before: Self, after: Self, low: int, high: int, r: int) -> bool;

    /// A number drawn for `[low, high]`.
    fn generate_range(&mut self, low: i32, high: i32) -> (r: i32)
        requires
            low <= high,
            old(self).can_draw_within(low as int, high as int),
        ensures
            Self::drew(*old(self), *final(self), low as int, high as int, r as int),
            old(self).stays_in_range() ==> low <= r <= high && final(self).stays_in_range(),
            forall|l: int, h: int| #[trigger]
                old(self).can_draw_within(l, h) ==> final(self).can_draw_within(l, h),
    ;
}

/// Whatever the generator could be asked for in state `before`, it can still
/// be asked for in state `after`.
pub open spec fn keeps_draws<R: RandomNumberGenerator>(before: R, after: R) -> bool {
    forall|l: int, h: int| #[trigger] before.can_draw_within(l, h) ==> after.can_draw_within(l, h)
}

/// The generator went through `states` handing out `rs`, the `i`-th number
/// drawn from `ranges[i]`.
pub open spec fn drew_in_turn<R: RandomNumberGenerator>(
    states: Seq<R>,
    ranges: Seq<(int, int)>,
    rs: Seq<int>,
) -> bool {
    &&& states.len() == ranges.len() + 1
    &&& rs.len() == ranges.len()
    &&& forall|i: int|
        #![trigger rs[i]]
        0 <= i < ranges.len() ==> R::drew(states[i], states[i + 1], ranges[i].0, ranges[i].1, rs[i])
}

#[verifier::external_type_specification]
#[verifier::external_body]
pub struct ExThreadRng(rand::rngs::ThreadRng);

/// The generator of the current thread (`rand::thread_rng`).
#[verifier::external_body]
pub(crate) fn thread_rng() -> rand::rngs::ThreadRng {
    rand::thread_rng()
}

/// `Rng::gen_range` on `low..=high`: a number drawn at random from the range,
/// which the documentation says must not be empty.
#[verifier::external_body]
pub(crate) fn thread_rng_range(rng: &mut rand::rngs::ThreadRng, low: i32, high: i32) -> (r: i32)
    requires
        low <= high,
    ensures
        low <= r <= high,
{
    rng.gen_range(low..=high)
}

impl RandomNumberGenerator for rand::rngs::ThreadRng {
    open spec fn can_draw_within(&self, low: int, high: int) -> bool {
        true
    }

    open spec fn stays_in_range(&self) -> bool {
        true
    }

    /// Any number of the range, drawn at random.
    open spec fn drew(before: Self, after: Self, low: int, high: int, r: int) -> bool {
        low <= r <= high
    }

    fn generate_range(&mut self, low: i32, high: i32) -> (r: i32) {
        thread_rng_range(self, low, high)
    }
}

impl RandomNumberGenerator for MockRng {
    open spec fn can_draw_within(&self, low: int, high: int) -> bool {
        self.mock_can_draw_within(low, high)
    }

    open spec fn stays_in_range(&self) -> bool {
        self.mock_in_range()
    }

    /// The next of the values, reduced into the range; the generator moves on.
    open spec fn drew(before: Self, after: Self, low: int, high: int, r: int) -> bool {
        mock_next(before, after, low, high, r)
    }

    fn generate_range(&mut self, low: i32, high: i32) -> (r: i32) {
        let ghost before = *self;
        let r = self.next_in_range(low, high);
        proof {
            before.lemma_can_draw();
            mock_offset_bound(before.values()[before.index()], high - low + 1);
        }
        r
    }
}

/// How many texts get a value after them: all but the last.
pub open spec fn values_needed(n: int) -> int {
    if n <= 0 {
        0
    } else {
        n - 1
    }
}

/// How many of the first `k` parameters are blank.
pub open spec fn blanks_before(ps: Seq<SerializableParameter>, k: int) -> nat
    decreases k,
{
    if k <= 0 {
        0
    } else {
        blanks_before(ps, k - 1) + if ps[k - 1] is Blank {
            1nat
        } else {
            0nat
        }
    }
}

/// The bounds of the first `k` parameters let a value be drawn for each.
pub open spec fn bounds_allow(ps: Seq<SerializableParameter>, k: int) -> bool {
    forall|i: int| 0 <= i < k ==> (#[trigger] ps[i]).can_generate()
}

/// The generator, in state `rng`, can give values to the first `k`
/// parameters.
pub open spec fn generatable_by<R: RandomNumberGenerator>(
    rng: R,
    ps: Seq<SerializableParameter>,
    k: int,
) -> bool {
    forall|i: int|
        0 <= i < k ==> {
            &&& (#[trigger] ps[i]).can_generate()
            &&& draws_all(rng, ps[i].ranges_drawn())
            &&& ps[i].needs_in_range() ==> rng.stays_in_range()
        }
}

/// What the generator can be asked for is kept along a chain of states.
pub proof fn lemma_keeps_draws_trans<R: RandomNumberGenerator>(a: R, b: R, c: R)
    requires
        keeps_draws(a, b),
        keeps_draws(b, c),
    ensures
        keeps_draws(a, c),
{
    assert forall|l: int, h: int| #[trigger] a.can_draw_within(l, h) implies c.can_draw_within(l, h) by {
        assert(b.can_draw_within(l, h));
    }
}

/// Parameters that a state can give values to, a later state can too, as long
/// as it keeps what could be drawn and stays in range when the first did.
pub proof fn lemma_generatable_kept<R: RandomNumberGenerator>(
    a: R,
    b: R,
    ps: Seq<SerializableParameter>,
    k: int,
)
    requires
        generatable_by(a, ps, k),
        keeps_draws(a, b),
        a.stays_in_range() ==> b.stays_in_range(),
    ensures
        generatable_by(b, ps, k),
{
    assert forall|i: int| 0 <= i < k implies {
        &&& (#[trigger] ps[i]).can_generate()
        &&& draws_all(b, ps[i].ranges_drawn())
        &&& ps[i].needs_in_range() ==> b.stays_in_range()
    } by {
        let rs = ps[i].ranges_drawn();
        assert forall|m: int| 0 <= m < rs.len() implies b.can_draw_within(
            (#[trigger] rs[m]).0,
            rs[m].1,
        ) by {
            assert(a.can_draw_within(rs[m].0, rs[m].1));
        }
    }
}

/// The thread's generator, in any state, can give values to parameters whose
/// bounds allow it.
pub proof fn lemma_thread_generatable(rng: rand::rngs::ThreadRng, ps: Seq<SerializableParameter>, k: int)
    requires
        bounds_allow(ps, k),
    ensures
        generatable_by(rng, ps, k),
{
    assert forall|i: int| 0 <= i < k implies {
        &&& (#[trigger] ps[i]).can_generate()
        &&& draws_all(rng, ps[i].ranges_drawn())
        &&& ps[i].needs_in_range() ==> rng.stays_in_range()
    } by {
        let rs = ps[i].ranges_drawn();
        assert forall|m: int| 0 <= m < rs.len() implies rng.can_draw_within(
            (#[trigger] rs[m]).0,
            rs[m].1,
        ) by {}
    }
}

/// `out` and `values` are what filling in the parameters gives: one value per
/// text but the last, a blank parameter taking the next of the user's values
/// in turn, and the texts and values put back in turn.
pub open spec fn populated(
    texts: Seq<Seq<char>>,
    ps: Seq<SerializableParameter>,
    blanks: Seq<Seq<char>>,
    out: Seq<char>,
    values: Seq<Seq<char>>,
) -> bool {
    &&& values.len() == values_needed(texts.len() as int)
    &&& out == interleave(texts, values)
    &&& forall|i: int|
        0 <= i < values.len() && ps[i] is Blank ==> #[trigger] values[i]
            == blanks[blanks_before(ps, i) as int]
}

/// Each value given to a parameter other than a blank one is a value that
/// parameter can produce.
pub open spec fn produced(ps: Seq<SerializableParameter>, values: Seq<Seq<char>>) -> bool {
    forall|i: int|
        0 <= i < values.len() && !(ps[i] is Blank) ==> ps[i].can_produce(#[trigger] values[i])
}

/// The generator went through `states` giving the first `k` parameters their
/// `values` in turn: a blank parameter draws nothing, any other takes the
/// value its draws make.
pub open spec fn generated_in_turn<R: RandomNumberGenerator>(
    ps: Seq<SerializableParameter>,
    values: Seq<Seq<char>>,
    states: Seq<R>,
    k: int,
) -> bool {
    &&& states.len() == k + 1
    &&& forall|i: int|
        #![trigger values[i]]
        0 <= i < k ==> if ps[i] is Blank {
            states[i + 1] == states[i]
        } else {
            param_generated(ps[i], states[i], states[i + 1], values[i])
        }
}

/// `out` and `values` are what filling in the parameters gives (`populated`),
/// and the values of the parameters other than blanks are those that the
/// generator's draws make, in turn, from state `before` to state `after`.
pub open spec fn populated_from<R: RandomNumberGenerator>(
    texts: Seq<Seq<char>>,
    ps: Seq<SerializableParameter>,
    blanks: Seq<Seq<char>>,
    out: Seq<char>,
    values: Seq<Seq<char>>,
    before: R,
    after: R,
) -> bool {
    &&& populated(texts, ps, blanks, out, values)
    &&& exists|states: Seq<R>|
        #![trigger generated_in_turn(ps, values, states, values.len() as int)]
        {
            &&& generated_in_turn(ps, values, states, values.len() as int)
            &&& states[0] == before
            &&& states[values.len() as int] == after
        }
}

/// Counts the blank parameters among the first `k`.
fn count_blanks(ps: &Vec<SerializableParameter>, k: usize) -> (c: usize)
    requires
        k <= ps@.len(),
    ensures
        c == blanks_before(ps@, k as int),
{
    let mut c: usize = 0;
    let mut i: usize = 0;
    while i < k
        invariant
            i <= k <= ps@.len(),
            c == blanks_before(ps@, i as int),
            c <= i,
        decreases k - i,
    {
        if let SerializableParameter::Blank = ps[i] {
            c = c + 1;
        }
        i = i + 1;
    }
    c
}

fn populate_with<R: RandomNumberGenerator>(
    non_parameter_strs: &Vec<String>,
    parameters: &Vec<SerializableParameter>,
    blank_parameter_values: &Vec<String>,
    rng: &mut R,
) -> (r: Result<(String, Vec<String>), ParameterError>)
    requires
        parameters@.len() >= values_needed(non_parameter_strs@.len() as int),
        generatable_by(*old(rng), parameters@, values_needed(non_parameter_strs@.len() as int)),
    ensures
        old(rng).stays_in_range() ==> final(rng).stays_in_range(),
        ({
            let k = values_needed(non_parameter_strs@.len() as int);
            if blanks_before(parameters@, k) <= blank_parameter_values@.len() {
                r matches Ok((out, values)) && populated_from(
                    non_parameter_strs.deep_view(),
                    parameters@,
                    blank_parameter_values.deep_view(),
                    out@,
                    values.deep_view(),
                    *old(rng),
                    *final(rng),
                ) && (old(rng).stays_in_range() ==> produced(parameters@, values.deep_view()))
            } else {
                r matches Err(e) && e@ == ParameterErrorView::MissingBlankParamValues(
                    nat_to_decimal((blank_parameter_values@.len() + 1) as nat),
                    nat_to_decimal(blanks_before(parameters@, parameters@.len() as int)),
                )
            }
        }),
{
    let ghost texts = non_parameter_strs.deep_view();
    let ghost blanks = blank_parameter_values.deep_view();
    let ghost start = *rng;
    let ghost mut states: Seq<R> = seq![start];
    let n = non_parameter_strs.len();
    let mut generated_result = String::new();
    let mut generated_parameters: Vec<String> = Vec::new();
    if n == 0 {
        assert(generated_parameters.deep_view() =~= Seq::<Seq<char>>::empty());
        assert(generated_in_turn(parameters@, generated_parameters.deep_view(), states, 0));
        return Ok((generated_result, generated_parameters));
    }
    let mut blank_param_used_index: usize = 0;
    let mut i: usize = 0;
    while i < n - 1
        invariant
            n == non_parameter_strs@.len(),
            n > 0,
            i <= n - 1,
            texts == non_parameter_strs.deep_view(),
            blanks == blank_parameter_values.deep_view(),
            parameters@.len() >= n - 1,
            start == *old(rng),
            generatable_by(start, parameters@, n - 1),
            keeps_draws(start, *rng),
            start.stays_in_range() ==> rng.stays_in_range(),
            generated_parameters@.len() == i,
            blank_param_used_index == blanks_before(parameters@, i as int),
            blank_param_used_index <= blank_parameter_values@.len(),
            blank_param_used_index <= i,
            generated_in_turn(parameters@, generated_parameters.deep_view(), states, i as int),
            states[0] == start,
            states[i as int] == *rng,
            generated_result@ == pairs_joined(texts, generated_parameters.deep_view(), i as int),
            forall|j: int|
                0 <= j < i && parameters@[j] is Blank ==> #[trigger] generated_parameters.deep_view()[j]
                    == blanks[blanks_before(parameters@, j) as int],
            start.stays_in_range() ==> forall|j: int|
                0 <= j < i && !(parameters@[j] is Blank) ==> parameters@[j].can_produce(
                    #[trigger] generated_parameters.deep_view()[j],
                ),
        decreases n - 1 - i,
    {
        let ghost before = generated_parameters.deep_view();
        let ghost rng_before = *rng;
        push_str(&mut generated_result, non_parameter_strs[i].as_str());
        let generated_value = match parameters[i] {
            SerializableParameter::Blank => {
                if blank_param_used_index < blank_parameter_values.len() {
                    let user_val = blank_parameter_values[blank_param_used_index].clone();
                    blank_param_used_index = blank_param_used_index + 1;
                    user_val
                } else {
                    let total_blank_params_needed = count_blanks(parameters, parameters.len());
                    proof {
                        lemma_blanks_before_monotone(parameters@, i + 1, n - 1);
                    }
                    return Err(
                        ParameterError::MissingBlankParamValues(
                            nat_to_string((blank_param_used_index + 1) as u64),
                            nat_to_string(total_blank_params_needed as u64),
                        ),
                    );
                }
            },
            _ => {
                proof {
                    lemma_generatable_kept(start, *rng, parameters@, n - 1);
                    assert(parameters@[i as int].can_generate());
                }
                parameters[i].generate_random_value(rng)
            },
        };
        push_str(&mut generated_result, generated_value.as_str());
        let ghost gv = generated_value@;
        proof {
            if parameters@[i as int] is Blank {
                assert(gv == blanks[blanks_before(parameters@, i as int) as int]);
            } else {
                lemma_keeps_draws_trans(start, rng_before, *rng);
                if start.stays_in_range() {
                    assert(parameters@[i as int].can_produce(gv));
                }
            }
        }
        generated_parameters.push(generated_value);
        proof {
            let after = generated_parameters.deep_view();
            assert(after.drop_last() =~= before);
            assert(after[i as int] == gv);
            let old_states = states;
            states = states.push(*rng);
            assert(states[i as int] == rng_before);
            assert(states[i + 1] == *rng);
            if parameters@[i as int] is Blank {
                assert(*rng === rng_before);
                assert(states[i + 1] === states[i as int]);
            } else {
                assert(param_generated(parameters@[i as int], rng_before, *rng, gv));
            }
            assert forall|j: int| #![trigger parameters@[j]] 0 <= j < i + 1 implies if parameters@[j] is Blank {
                states[j + 1] === states[j]
            } else {
                param_generated(parameters@[j], states[j], states[j + 1], after[j])
            } by {
                if j < i {
                    assert(after[j] == before[j]);
                    assert(states[j] == old_states[j]);
                    assert(states[j + 1] == old_states[j + 1]);
                }
            }
            assert(states.len() == i + 2);
            assert(generated_in_turn(parameters@, after, states, i + 1));
            lemma_pairs_joined_prefix(texts, before, after, i as int);
            assert forall|j: int| 0 <= j < i + 1 && parameters@[j] is Blank implies #[trigger] after[j]
                == blanks[blanks_before(parameters@, j) as int] by {
                if j < i {
                    assert(after[j] == before[j]);
                }
            }
            if start.stays_in_range() {
                assert forall|j: int| 0 <= j < i + 1 && !(parameters@[j] is Blank) implies parameters@[j].can_produce(
                    #[trigger] after[j],
                ) by {
                    if j < i {
                        assert(after[j] == before[j]);
                    }
                }
            }
        }
        i = i + 1;
    }
    push_str(&mut generated_result, non_parameter_strs[n - 1].as_str());
    assert(generated_in_turn(
        parameters@,
        generated_parameters.deep_view(),
        states,
        generated_parameters.deep_view().len() as int,
    ));
    Ok((generated_result, generated_parameters))
}

/// The count of blank parameters only grows.
pub proof fn lemma_blanks_before_monotone(ps: Seq<SerializableParameter>, a: int, b: int)
    requires
        a <= b,
    ensures
        blanks_before(ps, a) <= blanks_before(ps, b),
    decreases b - a,
{
    if a < b {
        lemma_blanks_before_monotone(ps, a, b - 1);
    }
}

impl Logic {
    /// Gives the parameters their values and puts the command back together:
    /// a blank parameter takes the next of the user's values, any other a
    /// value drawn from `rng` (or from the thread's generator when there is
    /// none). Fails when there are fewer user values than blank parameters.
    pub fn populate_parameters<R: RandomNumberGenerator>(
        &self,
        non_parameter_strs: Vec<String>,
        parameters: Vec<SerializableParameter>,
        blank_parameter_values: Vec<String>,
        rng: Option<Box<R>>,
    ) -> (r: Result<(String, Vec<String>), ParameterError>)
        requires
            parameters@.len() >= values_needed(non_parameter_strs@.len() as int),
            match rng {
                Some(g) => generatable_by(*g, parameters@, values_needed(non_parameter_strs@.len() as int)),
                None => bounds_allow(parameters@, values_needed(non_parameter_strs@.len() as int)),
            },
        ensures
            ({
                let k = values_needed(non_parameter_strs@.len() as int);
                if blanks_before(parameters@, k) <= blank_parameter_values@.len() {
                    r matches Ok((out, values)) && match rng {
                        Some(g) => (exists|after: R|
                            populated_from(
                                non_parameter_strs.deep_view(),
                                parameters@,
                                blank_parameter_values.deep_view(),
                                out@,
                                values.deep_view(),
                                *g,
                                after,
                            )) && (g.stays_in_range() ==> produced(parameters@, values.deep_view())),
                        None => (exists|before: rand::rngs::ThreadRng, after: rand::rngs::ThreadRng|
                            populated_from(
                                non_parameter_strs.deep_view(),
                                parameters@,
                                blank_parameter_values.deep_view(),
                                out@,
                                values.deep_view(),
                                before,
                                after,
                            )) && produced(parameters@, values.deep_view()),
                    }
                } else {
                    r matches Err(e) && e@ == ParameterErrorView::MissingBlankParamValues(
                        nat_to_decimal((blank_parameter_values@.len() + 1) as nat),
                        nat_to_decimal(blanks_before(parameters@, parameters@.len() as int)),
                    )
                }
            }),
    {
        match rng {
            Some(g) => {
                let mut g = *g;
                let ghost start = g;
                let r = populate_with(&non_parameter_strs, &parameters, &blank_parameter_values, &mut g);
                let ghost end = g;
                assert(r is Ok ==> r matches Ok((out, values)) && populated_from(
                    non_parameter_strs.deep_view(),
                    parameters@,
                    blank_parameter_values.deep_view(),
                    out@,
                    values.deep_view(),
                    start,
                    end,
                ) || blanks_before(parameters@, values_needed(non_parameter_strs@.len() as int))
                    > blank_parameter_values@.len());
                r
            },
            None => {
                let mut g = thread_rng();
                let ghost start = g;
                proof {
                    lemma_thread_generatable(g, parameters@, values_needed(non_parameter_strs@.len() as int));
                }
                let r = populate_with(&non_parameter_strs, &parameters, &blank_parameter_values, &mut g);
                let ghost end = g;
                assert(r is Ok ==> r matches Ok((out, values)) && populated_from(
                    non_parameter_strs.deep_view(),
                    parameters@,
                    blank_parameter_values.deep_view(),
                    out@,
                    values.deep_view(),
                    start,
                    end,
                ) || blanks_before(parameters@, values_needed(non_parameter_strs@.len() as int))
                    > blank_parameter_values@.len());
                r
            },
        }
    }
}

} // verus!

