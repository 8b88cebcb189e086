//! String parameters: `@{string}` or `@{string[min, max]}`, a random text of
//! letters and digits whose length is drawn from `[min, max]`.

use vstd::prelude::*;

use super::populator::{drew_in_turn, keeps_draws, RandomNumberGenerator};
use super::syntax::{
    ascii_number, first_capture, first_capture_exec, lemma_first_capture, number_value, parse_u32_at,
    Capture,
    Found,
};
use super::{
    result_view, FromStrWithConfig, GenerateRandomValues, ParameterError,
    ParameterErrorView,
};
use crate::logic::config::Config;
use crate::text::{
    chars_of, int_to_decimal, int_to_string, push_char, string_from_chars, string_from_range,
};

verus! {

/// A random text whose length is drawn from `[min, max]`.
#[derive(Debug, Clone, Copy, PartialEq, Eq, Structural)]
pub struct StringParameter {
    pub min: u32,
    pub max: u32,
}

impl Default for StringParameter {
    fn default() -> (p: Self)
        ensures
            p == (StringParameter { min: 5, max: 10 }),
    {
        StringParameter { min: 5, max: 10 }
    }
}

pub open spec fn string_head() -> Seq<char> {
    seq!['@', '{', 's', 't', 'r', 'i', 'n', 'g', '[']
}

pub open spec fn string_plain() -> Seq<char> {
    seq!['@', '{', 's', 't', 'r', 'i', 'n', 'g', '}']
}

pub open spec fn u32_name() -> Seq<char> {
    seq!['u', '3', '2']
}

/// A string parameter with the bounds `min` and `max`, when they are in order.
pub open spec fn string_with_bounds(min: int, max: int) -> Result<
    StringParameter,
    ParameterErrorView,
> {
    if min > max {
        Err(ParameterErrorView::InvalidMinMax(int_to_decimal(min), int_to_decimal(max)))
    } else {
        Ok(StringParameter { min: min as u32, max: max as u32 })
    }
}

/// Reading a string parameter: the leftmost `@{string[a, b]}` or `@{string}`
/// in `s`; the bare form takes its bounds from the configuration.
pub open spec fn string_parsed(s: Seq<char>, config: Config) -> Result<
    StringParameter,
    ParameterErrorView,
> {
    match first_capture(s, 0, string_head(), string_plain(), true, false) {
        None => Err(ParameterErrorView::InvalidParameter),
        Some(Capture::Plain) => string_with_bounds(
            config.param_string_length_min as int,
            config.param_string_length_max as int,
        ),
        Some(Capture::Ranged { min_start, min_end, max_start, max_end }) => {
            let min_text = s.subrange(min_start, min_end);
            let max_text = s.subrange(max_start, max_end);
            if !ascii_number(min_text) || number_value(min_text) > u32::MAX {
                Err(ParameterErrorView::TypeParsing(u32_name(), min_text))
            } else if !ascii_number(max_text) || number_value(max_text) > u32::MAX {
                Err(ParameterErrorView::TypeParsing(u32_name(), max_text))
            } else {
                string_with_bounds(number_value(min_text), number_value(max_text))
            }
        },
    }
}

fn check_string_bounds(min: u32, max: u32) -> (r: Result<StringParameter, ParameterError>)
    ensures
        result_view(r) == string_with_bounds(min as int, max as int),
{
    if min > max {
        Err(ParameterError::InvalidMinMax(int_to_string(min as i64), int_to_string(max as i64)))
    } else {
        Ok(StringParameter { min, max })
    }
}

impl FromStrWithConfig for StringParameter {
    open spec fn parsed(s: Seq<char>, config: Config) -> Result<
        StringParameter,
        ParameterErrorView,
    > {
        string_parsed(s, config)
    }

    fn from_str(s: &str, config: &Config) -> (r: Result<StringParameter, ParameterError>) {
        let v = chars_of(s);
        let head = vec!['@', '{', 's', 't', 'r', 'i', 'n', 'g', '['];
        let plain = vec!['@', '{', 's', 't', 'r', 'i', 'n', 'g', '}'];
        assert(head@ =~= string_head());
        assert(plain@ =~= string_plain());
        proof {
            lemma_first_capture(v@, 0, head@, plain@, true, false);
        }
        match first_capture_exec(&v, 0, &head, &plain, true, false) {
            None => Err(ParameterError::InvalidParameter),
            Some(Found::Plain) => check_string_bounds(
                config.param_string_length_min,
                config.param_string_length_max,
            ),
            Some(Found::Ranged(a1, b1, a2, b2)) => {
                let name = vec!['u', '3', '2'];
                assert(name@ =~= u32_name());
                match parse_u32_at(&v, a1, b1) {
                    None => Err(
                        ParameterError::TypeParsing(
                            string_from_chars(&name),
                            string_from_range(&v, a1, b1),
                        ),
                    ),
                    Some(min) => match parse_u32_at(&v, a2, b2) {
                        None => Err(
                            ParameterError::TypeParsing(
                                string_from_chars(&name),
                                string_from_range(&v, a2, b2),
                            ),
                        ),
                        Some(max) => check_string_bounds(min, max),
                    },
                }
            },
        }
    }
}

/// The characters that random texts are made of: `A`-`Z`, `a`-`z`, `0`-`9`.
pub open spec fn is_charset_char(c: char) -> bool {
    ('A' <= c && c <= 'Z') || ('a' <= c && c <= 'z') || ('0' <= c && c <= '9')
}

/// The character at `idx` of `ABC...XYZabc...xyz012...9`.
pub open spec fn charset_char(idx: int) -> char {
    if idx < 26 {
        (('A' as int + idx) as u32) as char
    } else if idx < 52 {
        (('a' as int + idx - 26) as u32) as char
    } else {
        (('0' as int + idx - 52) as u32) as char
    }
}

/// The character at `idx` of the charset of random texts.
pub fn charset_at(idx: i32) -> (c: char)
    requires
        0 <= idx <= 61,
    ensures
        c == charset_char(idx as int),
        is_charset_char(c),
{
    if idx < 26 {
        ((65 + idx) as u8) as char
    } else if idx < 52 {
        ((97 + idx - 26) as u8) as char
    } else {
        ((48 + idx - 52) as u8) as char
    }
}

/// A random text of `[min, max]` letters and digits.
pub open spec fn random_text_value(min: int, max: int, v: Seq<char>) -> bool {
    &&& min <= v.len() <= max
    &&& forall|j: int| 0 <= j < v.len() ==> is_charset_char(#[trigger] v[j])
}

/// The ranges drawn for a random text of `n` characters: its length from
/// `[min, max]`, then each character's index from `[0, 61]`.
pub open spec fn text_ranges(min: int, max: int, n: nat) -> Seq<(int, int)> {
    seq![(min, max)] + Seq::new(n, |j: int| (0int, 61int))
}

/// `v` is the text the generator's draws make, going from `before` to
/// `after`: first its length, drawn from `[min, max]`, then the index in the
/// charset of each character in turn.
pub open spec fn text_generated<R: RandomNumberGenerator>(
    min: int,
    max: int,
    before: R,
    after: R,
    v: Seq<char>,
) -> bool {
    exists|states: Seq<R>, rs: Seq<int>|
        #![trigger drew_in_turn(states, text_ranges(min, max, v.len()), rs)]
        {
            &&& drew_in_turn(states, text_ranges(min, max, v.len()), rs)
            &&& states[0] == before
            &&& states[v.len() + 1int] == after
            &&& rs[0] == v.len()
            &&& forall|j: int| 0 <= j < v.len() ==> v[j] == charset_char(#[trigger] rs[j + 1])
        }
}

impl GenerateRandomValues for StringParameter {
    open spec fn can_generate(&self) -> bool {
        self.min <= self.max <= i32::MAX
    }

    open spec fn ranges_drawn(&self) -> Seq<(int, int)> {
        seq![(self.min as int, self.max as int), (0, 61)]
    }

    open spec fn can_produce(&self, v: Seq<char>) -> bool {
        random_text_value(self.min as int, self.max as int, v)
    }

    open spec fn needs_in_range(&self) -> bool {
        true
    }

    fn generate_random_value<R: RandomNumberGenerator>(&self, rng: &mut R) -> (v: String)
        ensures
            text_generated(self.min as int, self.max as int, *old(rng), *final(rng), v@),
    {
        assert(self.ranges_drawn()[0] == (self.min as int, self.max as int));
        assert(self.ranges_drawn()[1] == (0int, 61int));
        let ghost start = *rng;
        assert(start.can_draw_within(self.ranges_drawn()[0].0, self.ranges_drawn()[0].1));
        assert(start.can_draw_within(self.ranges_drawn()[1].0, self.ranges_drawn()[1].1));
        let drawn = rng.generate_range(self.min as i32, self.max as i32);
        let length = drawn as usize;
        let ghost mut states: Seq<R> = seq![start, *rng];
        let ghost mut rs: Seq<int> = seq![drawn as int];
        let mut random_string = String::new();
        let mut i: usize = 0;
        proof {
            assert(text_ranges(self.min as int, self.max as int, 0) =~= seq![
                (self.min as int, self.max as int),
            ]);
            assert(R::drew(states[0], states[1], self.min as int, self.max as int, rs[0]));
        }
        while i < length
            invariant
                i <= length,
                self.min <= length <= self.max,
                length == drawn as int,
                random_string@.len() == i,
                forall|j: int| 0 <= j < i ==> is_charset_char(#[trigger] random_string@[j]),
                rng.can_draw_within(0, 61),
                rng.stays_in_range(),
                keeps_draws(start, *rng),
                drew_in_turn(states, text_ranges(self.min as int, self.max as int, i as nat), rs),
                states[0] == start,
                states[i + 1] == *rng,
                rs[0] == length,
                forall|j: int| 0 <= j < i ==> random_string@[j] == charset_char(#[trigger] rs[j + 1]),
            decreases length - i,
        {
            let ghost before = *rng;
            let idx = rng.generate_range(0, 61);
            push_char(&mut random_string, charset_at(idx));
            proof {
                assert forall|l: int, h: int| #[trigger] start.can_draw_within(l, h) implies rng.can_draw_within(l, h) by {
                    assert(before.can_draw_within(l, h));
                }
                let old_ranges = text_ranges(self.min as int, self.max as int, i as nat);
                let new_ranges = text_ranges(self.min as int, self.max as int, (i + 1) as nat);
                assert(new_ranges =~= old_ranges.push((0int, 61int)));
                let old_states = states;
                let old_rs = rs;
                states = states.push(*rng);
                rs = rs.push(idx as int);
                assert forall|k: int| #![trigger rs[k]] 0 <= k < new_ranges.len() implies R::drew(
                    states[k],
                    states[k + 1],
                    new_ranges[k].0,
                    new_ranges[k].1,
                    rs[k],
                ) by {
                    if k < old_ranges.len() {
                        assert(old_rs[k] == rs[k]);
                        assert(states[k] == old_states[k]);
                        assert(states[k + 1] == old_states[k + 1]);
                    } else {
                        assert(k == i + 1);
                        assert(states[k] == before);
                    }
                }
                assert(forall|j: int| 0 <= j < i ==> #[trigger] rs[j + 1] == old_rs[j + 1]);
            }
            i = i + 1;
        }
        assert(random_string@.len() == length);
        random_string
    }
}

/// A token that is exactly `@{string}` takes its bounds from the configured
/// string lengths, for every configuration whose lengths are in order.
pub proof fn law_bare_string_takes_config_lengths(config: Config)
    requires
        config.param_string_length_min <= config.param_string_length_max,
    ensures
        string_parsed(string_plain(), config) == Ok::<StringParameter, ParameterErrorView>(
            StringParameter {
                min: config.param_string_length_min,
                max: config.param_string_length_max,
            },
        ),
{
    let s = string_plain();
    assert(s.subrange(0, 9)[8] != string_head()[8]);
    assert(s.subrange(0, 9) =~= s);
    assert(first_capture(s, 0, string_head(), string_plain(), true, false) == Some(Capture::Plain));
}

} // verus!
