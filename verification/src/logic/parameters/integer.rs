//! Integer parameters: `@{int}` or `@{int[min, max]}`.

use vstd::prelude::*;

use super::populator::RandomNumberGenerator;
use super::syntax::{
    ascii_number, first_capture, first_capture_exec, lemma_first_capture, number_value, parse_i32_at,
    Capture,
    Found,
};
use super::{
    FromStrWithConfig, GenerateRandomValues, ParameterError, ParameterErrorView, result_view,
};
use crate::logic::config::Config;
use crate::text::{chars_of, int_to_decimal, int_to_string, string_from_chars, string_from_range};

verus! {

/// A whole number drawn from `[min, max]`.
#[derive(Debug, Clone, Copy, PartialEq, Eq, Structural)]
pub struct IntParameter {
    pub min: i32,
    pub max: i32,
}

impl Default for IntParameter {
    fn default() -> (p: Self)
        ensures
            p == (IntParameter { min: 5, max: 10 }),
    {
        IntParameter { min: 5, max: 10 }
    }
}

pub open spec fn int_head() -> Seq<char> {
    seq!['@', '{', 'i', 'n', 't', '[']
}

pub open spec fn int_plain() -> Seq<char> {
    seq!['@', '{', 'i', 'n', 't', '}']
}

pub open spec fn i32_name() -> Seq<char> {
    seq!['i', '3', '2']
}

pub open spec fn fits_i32(v: int) -> bool {
    i32::MIN <= v <= i32::MAX
}

/// An integer parameter with the bounds `min` and `max`, when they are in order.
pub open spec fn int_with_bounds(min: int, max: int) -> Result<IntParameter, ParameterErrorView> {
    if min > max {
        Err(ParameterErrorView::InvalidMinMax(int_to_decimal(min), int_to_decimal(max)))
    } else {
        Ok(IntParameter { min: min as i32, max: max as i32 })
    }
}

/// Reading an integer parameter: the leftmost `@{int[a, b]}` or `@{int}` in
/// `s`; the bare form takes its bounds from the configuration.
pub open spec fn int_parsed(s: Seq<char>, config: Config) -> Result<IntParameter, ParameterErrorView> {
    match first_capture(s, 0, int_head(), int_plain(), true, true) {
        None => Err(ParameterErrorView::InvalidParameter),
        Some(Capture::Plain) => int_with_bounds(
            config.param_int_range_min as int,
            config.param_int_range_max as int,
        ),
        Some(Capture::Ranged { min_start, min_end, max_start, max_end }) => {
            let min_text = s.subrange(min_start, min_end);
            let max_text = s.subrange(max_start, max_end);
            if !ascii_number(min_text) || !fits_i32(number_value(min_text)) {
                Err(ParameterErrorView::TypeParsing(i32_name(), min_text))
            } else if !ascii_number(max_text) || !fits_i32(number_value(max_text)) {
                Err(ParameterErrorView::TypeParsing(i32_name(), max_text))
            } else {
                int_with_bounds(number_value(min_text), number_value(max_text))
            }
        },
    }
}

fn check_int_bounds(min: i32, max: i32) -> (r: Result<IntParameter, ParameterError>)
    ensures
        result_view(r) == int_with_bounds(min as int, max as int),
{
    if min > max {
        Err(ParameterError::InvalidMinMax(int_to_string(min as i64), int_to_string(max as i64)))
    } else {
        Ok(IntParameter { min, max })
    }
}

impl FromStrWithConfig for IntParameter {
    open spec fn parsed(s: Seq<char>, config: Config) -> Result<IntParameter, ParameterErrorView> {
        int_parsed(s, config)
    }

    fn from_str(s: &str, config: &Config) -> (r: Result<IntParameter, ParameterError>) {
        let v = chars_of(s);
        let head = vec!['@', '{', 'i', 'n', 't', '['];
        let plain = vec!['@', '{', 'i', 'n', 't', '}'];
        assert(head@ =~= int_head());
        assert(plain@ =~= int_plain());
        proof {
            lemma_first_capture(v@, 0, head@, plain@, true, true);
        }
        match first_capture_exec(&v, 0, &head, &plain, true, true) {
            None => Err(ParameterError::InvalidParameter),
            Some(Found::Plain) => check_int_bounds(
                config.param_int_range_min,
                config.param_int_range_max,
            ),
            Some(Found::Ranged(a1, b1, a2, b2)) => {
                let name = vec!['i', '3', '2'];
                assert(name@ =~= i32_name());
                match parse_i32_at(&v, a1, b1) {
                    None => Err(
                        ParameterError::TypeParsing(
                            string_from_chars(&name),
                            string_from_range(&v, a1, b1),
                        ),
                    ),
                    Some(min) => match parse_i32_at(&v, a2, b2) {
                        None => Err(
                            ParameterError::TypeParsing(
                                string_from_chars(&name),
                                string_from_range(&v, a2, b2),
                            ),
                        ),
                        Some(max) => check_int_bounds(min, max),
                    },
                }
            },
        }
    }
}

/// `v` is the decimal of the number the generator handed out for
/// `[min, max]`, going from `before` to `after`.
pub open spec fn int_generated<R: RandomNumberGenerator>(
    min: int,
    max: int,
    before: R,
    after: R,
    v: Seq<char>,
) -> bool {
    exists|r: int| #[trigger] R::drew(before, after, min, max, r) && v == int_to_decimal(r)
}

impl GenerateRandomValues for IntParameter {
    open spec fn can_generate(&self) -> bool {
        self.min <= self.max
    }

    open spec fn ranges_drawn(&self) -> Seq<(int, int)> {
        seq![(self.min as int, self.max as int)]
    }

    open spec fn can_produce(&self, v: Seq<char>) -> bool {
        exists|k: int| self.min <= k <= self.max && v == #[trigger] int_to_decimal(k)
    }

    open spec fn needs_in_range(&self) -> bool {
        false
    }

    fn generate_random_value<R: RandomNumberGenerator>(&self, rng: &mut R) -> (v: String)
        ensures
            int_generated(self.min as int, self.max as int, *old(rng), *final(rng), v@),
    {
        assert(self.ranges_drawn()[0] == (self.min as int, self.max as int));
        assert(old(rng).can_draw_within(self.ranges_drawn()[0].0, self.ranges_drawn()[0].1));
        let k = rng.generate_range(self.min, self.max);
        let v = int_to_string(k as i64);
        assert(v@ == int_to_decimal(k as int));
        assert(R::drew(*old(rng), *rng, self.min as int, self.max as int, k as int));
        v
    }
}

/// A token that is exactly `@{int}` takes its bounds from the configured
/// integer range, for every configuration: the range itself when it is in
/// order, and the error naming both bounds when it is not.
pub proof fn law_bare_int_takes_config_range(config: Config)
    ensures
        config.param_int_range_min <= config.param_int_range_max ==> int_parsed(int_plain(), config)
            == Ok::<IntParameter, ParameterErrorView>(
            IntParameter { min: config.param_int_range_min, max: config.param_int_range_max },
        ),
        config.param_int_range_min > config.param_int_range_max ==> int_parsed(int_plain(), config)
            == Err::<IntParameter, ParameterErrorView>(
            ParameterErrorView::InvalidMinMax(
                int_to_decimal(config.param_int_range_min as int),
                int_to_decimal(config.param_int_range_max as int),
            ),
        ),
{
    lemma_bare_int_capture();
}

/// The leftmost match in `@{int}` is its bare form.
pub proof fn lemma_bare_int_capture()
    ensures
        first_capture(int_plain(), 0, int_head(), int_plain(), true, true) == Some(Capture::Plain),
{
    let s = int_plain();
    assert(s.subrange(0, 6)[5] != int_head()[5]);
    assert(s.subrange(0, 6) =~= s);
}

} // verus!
