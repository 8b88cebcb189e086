//! The first form of parameters, handled by a [`ParameterHandler`] that owns
//! its random number generator: `@{}`, `@{int}`, `@{boolean}`, `@{string}` and
//! `@{string[min, max]}`.

use vstd::prelude::*;

use crate::logic::parameters::boolean::is_exactly;
use crate::logic::parameters::populator::{thread_rng, thread_rng_range};
use crate::logic::parameters::boolean::{boolean_text, boolean_text_of};
use crate::logic::parameters::string::{
    charset_at, charset_char, is_charset_char, random_text_value, string_head, string_plain,
    text_ranges,
};
use crate::logic::parameters::syntax::{
    ascii_number, first_capture, first_capture_exec, interleave, lemma_first_capture,
    lemma_pairs_joined_prefix, number_value, pairs_joined, parse_u32_at, split_parameter_tokens,
    split_parameters, Capture, Found,
};
use crate::text::{chars_of, int_to_decimal, int_to_string, push_char, push_str, string_from_chars};

verus! {

/// Why a command's parameters could not be read.
#[derive(Debug, Clone, Copy, PartialEq, Eq, Structural)]
pub enum ParameterError {
    Parsing,
    InvalidParameter,
}

/// A source of numbers drawn from a range.
pub trait RandomNumberGenerator: Sized {
    /// Whether, in this state, the generator can be asked for a number of
    /// `[low, high]` without a panic.
    spec fn can_draw_within(&self, low: int, high: int) -> bool;

    /// Whether every number the generator hands out lies in the range asked
    /// for.
    spec fn stays_in_range(&self) -> bool;

    /// Asked for a number of `[low, high]` in state `before`, the generator
    /// may hand out `r` and be left in state `after`.
    spec fn drew(before: Self, after: Self, low: int, high: int, r: int) -> bool;

    /// A number drawn for `[low, high]`.
    fn generate_range(&mut self, low: i32, high: i32) -> (r: i32)
        requires
            low <= high,
            old(self).can_draw_within(low as int, high as int),
        ensures
            Self::drew(*old(self), *final(self), low as int, high as int, r as int),
            old(self).stays_in_range() ==> low <= r <= high && final(self).stays_in_range(),
            forall|l: int, h: int| #[trigger]
                old(self).can_draw_within(l, h) ==> final(self).can_draw_within(l, h),
    ;
}

/// Whatever the generator could be asked for in state `before`, it can still
/// be asked for in state `after`.
pub open spec fn keeps_draws<R: RandomNumberGenerator>(before: R, after: R) -> bool {
    forall|l: int, h: int| #[trigger] before.can_draw_within(l, h) ==> after.can_draw_within(l, h)
}

/// The generator went through `states` handing out `rs`, the `i`-th number
/// drawn from `ranges[i]`.
pub open spec fn drew_in_turn<R: RandomNumberGenerator>(
    states: Seq<R>,
    ranges: Seq<(int, int)>,
    rs: Seq<int>,
) -> bool {
    &&& states.len() == ranges.len() + 1
    &&& rs.len() == ranges.len()
    &&& forall|i: int|
        #![trigger rs[i]]
        0 <= i < ranges.len() ==> R::drew(states[i], states[i + 1], ranges[i].0, ranges[i].1, rs[i])
}

impl RandomNumberGenerator for rand::rngs::ThreadRng {
    /// The range is taken as `low..high + 1`, so `high + 1` must not overflow.
    open spec fn can_draw_within(&self, low: int, high: int) -> bool {
        high < i32::MAX
    }

    open spec fn stays_in_range(&self) -> bool {
        true
    }

    /// Any number of the range, drawn at random.
    open spec fn drew(before: Self, after: Self, low: int, high: int, r: int) -> bool {
        low <= r <= high
    }

    fn generate_range(&mut self, low: i32, high: i32) -> (r: i32) {
        let end = high + 1;
        thread_rng_range(self, low, end - 1)
    }
}

/// `v` is the decimal of the number the generator handed out for
/// `[min, max]`, going from `before` to `after`.
pub open spec fn handler_int_generated<R: RandomNumberGenerator>(
    min: int,
    max: int,
    before: R,
    after: R,
    v: Seq<char>,
) -> bool {
    exists|r: int| #[trigger] R::drew(before, after, min, max, r) && v == int_to_decimal(r)
}

/// `v` is the text of the number the generator handed out for `[0, 1]`.
pub open spec fn handler_boolean_generated<R: RandomNumberGenerator>(
    before: R,
    after: R,
    v: Seq<char>,
) -> bool {
    exists|r: int| #[trigger] R::drew(before, after, 0, 1, r) && v == boolean_text(r)
}

/// `v` is the text the generator's draws make: first its length, drawn from
/// `[min, max]`, then the index in the charset of each character in turn.
pub open spec fn handler_text_generated<R: RandomNumberGenerator>(
    min: int,
    max: int,
    before: R,
    after: R,
    v: Seq<char>,
) -> bool {
    exists|states: Seq<R>, rs: Seq<int>|
        #![trigger drew_in_turn(states, text_ranges(min, max, v.len()), rs)]
        {
            &&& drew_in_turn(states, text_ranges(min, max, v.len()), rs)
            &&& states[0] == before
            &&& states[v.len() + 1int] == after
            &&& rs[0] == v.len()
            &&& forall|j: int| 0 <= j < v.len() ==> v[j] == charset_char(#[trigger] rs[j + 1])
        }
}

/// A generator that hands out a fixed list of numbers in turn, each reduced
/// into the range asked for.
pub struct MockRng {
    values: Vec<u32>,
    index: usize,
}

impl MockRng {
    pub closed spec fn values(&self) -> Seq<u32> {
        self.values@
    }

    pub closed spec fn index(&self) -> int {
        self.index as int
    }

    /// Whether the generator can hand out a number: it has some, and the next
    /// one is in the list.
    pub closed spec fn can_draw(&self) -> bool {
        &&& self.values@.len() > 0
        &&& self.index < self.values@.len()
    }

    /// A generator that starts at the first of `values`; it can draw when
    /// there are values.
    pub fn new(values: Vec<u32>) -> (rng: Self)
        ensures
            rng.values() == values@,
            rng.index() == 0,
            rng.can_draw() == (values@.len() > 0),
    {
        Self { values, index: 0 }
    }

    /// The next number, `low + (value as i32) % (high - low + 1)`, and the
    /// generator moves on.
    pub(crate) fn next_in_range(&mut self, low: i32, high: i32) -> (r: i32)
        requires
            low <= high,
            old(self).mock_can_draw_within(low as int, high as int),
        ensures
            final(self).can_draw(),
            final(self).values() == old(self).values(),
            final(self).index() == (old(self).index() + 1) % (old(self).values().len() as int),
            r == low + mock_offset(old(self).values()[old(self).index()], high - low + 1),
    {
        let ghost before = *self;
        let value = self.values[self.index];
        assert(value == before.values()[before.index()]);
        assert(self.index < self.values.len());
        self.index = (self.index + 1) % self.values.len();
        let length = high - low + 1;
        let size = length as u32;
        // `value as i32 % length`, worked out on the magnitude of the value
        // read as an `i32`, with the sign of the dividend.
        let m: i32 = if value <= 2147483647u32 {
            let q = value % size;
            assert(q < size);
            q as i32
        } else {
            let nv = (4294967296u64 - value as u64) as u32;
            let q = nv % size;
            assert(q < size);
            -(q as i32)
        };
        assert(m == mock_offset(value, length as int));
        proof {
            mock_offset_bound(value, length as int);
        }
        low + m
    }
}

/// `value as i32 % size`: the value read as an `i32` (wrapping above
/// `i32::MAX`), then Rust's remainder, which takes the sign of the dividend.
pub open spec fn mock_offset(value: u32, size: int) -> int {
    if value <= i32::MAX {
        (value as int) % size
    } else {
        -((0x1_0000_0000 - value) % size)
    }
}

/// The remainder lies strictly between `-size` and `size`, and is not negative
/// for a value that fits an `i32`.
pub proof fn mock_offset_bound(value: u32, size: int)
    requires
        size > 0,
    ensures
        -size < mock_offset(value, size) < size,
        value <= i32::MAX ==> 0 <= mock_offset(value, size),
{
}

/// Handing out the next value of the mock generator reduced into
/// `[low, high]`: `r` is `low` plus the value at the current index modulo the
/// range's size, and the index moves to the next value, back to the first after
/// the last.
pub open spec fn mock_next(before: MockRng, after: MockRng, low: int, high: int, r: int) -> bool {
    &&& after.values() == before.values()
    &&& after.index() == (before.index() + 1) % (before.values().len() as int)
    &&& r == low + mock_offset(before.values()[before.index()], high - low + 1)
}

/// The mock generator went through `states`, handing out `rs[i]` for
/// `ranges[i]` at each step.
pub open spec fn mock_ran(states: Seq<MockRng>, ranges: Seq<(int, int)>, rs: Seq<int>) -> bool {
    &&& states.len() == ranges.len() + 1
    &&& rs.len() == ranges.len()
    &&& forall|i: int|
        #![trigger rs[i]]
        0 <= i < ranges.len() ==> mock_next(states[i], states[i + 1], ranges[i].0, ranges[i].1, rs[i])
}

/// The mock hands out its values in a cycle: after `j` draws its index has
/// moved on by `j` places, wrapping round after the last value, and the `j`-th
/// draw reduces the value at that place into its range. A fresh mock (index 0)
/// thus uses `values[j % values.len()]` for its `j`-th draw.
pub proof fn law_mock_cycles(states: Seq<MockRng>, ranges: Seq<(int, int)>, rs: Seq<int>)
    requires
        mock_ran(states, ranges, rs),
        states[0].values().len() > 0,
        0 <= states[0].index() < states[0].values().len(),
    ensures
        forall|j: int|
            0 <= j <= ranges.len() ==> (#[trigger] states[j]).values() == states[0].values()
                && states[j].index() == (states[0].index() + j) % (states[0].values().len() as int),
        forall|j: int|
            0 <= j < ranges.len() ==> #[trigger] rs[j] == ranges[j].0 + mock_offset(
                states[0].values()[(states[0].index() + j) % (states[0].values().len() as int)],
                ranges[j].1 - ranges[j].0 + 1,
            ),
{
    lemma_mock_prefix(states, ranges, rs, ranges.len() as int);
    assert forall|j: int| 0 <= j < ranges.len() implies #[trigger] rs[j] == ranges[j].0 + mock_offset(
        states[0].values()[(states[0].index() + j) % (states[0].values().len() as int)],
        ranges[j].1 - ranges[j].0 + 1,
    ) by {
        assert(states[j].values() == states[0].values());
        assert(mock_next(states[j], states[j + 1], ranges[j].0, ranges[j].1, rs[j]));
    }
}

proof fn lemma_mock_prefix(states: Seq<MockRng>, ranges: Seq<(int, int)>, rs: Seq<int>, k: int)
    requires
        mock_ran(states, ranges, rs),
        states[0].values().len() > 0,
        0 <= states[0].index() < states[0].values().len(),
        0 <= k <= ranges.len(),
    ensures
        forall|j: int|
            0 <= j <= k ==> (#[trigger] states[j]).values() == states[0].values()
                && states[j].index() == (states[0].index() + j) % (states[0].values().len() as int),
    decreases k,
{
    let n = states[0].values().len() as int;
    let i0 = states[0].index();
    if k == 0 {
        vstd::arithmetic::div_mod::lemma_small_mod(i0 as nat, n as nat);
    } else {
        lemma_mock_prefix(states, ranges, rs, k - 1);
        assert(mock_next(states[k - 1], states[k], ranges[k - 1].0, ranges[k - 1].1, rs[k - 1]));
        vstd::arithmetic::div_mod::lemma_add_mod_noop_right(1, i0 + k - 1, n);
    }
}

impl MockRng {
    /// What it takes for a mock generator to draw: some values, and its index
    /// among them.
    pub proof fn lemma_can_draw(&self)
        ensures
            self.can_draw() == (self.values().len() > 0 && 0 <= self.index()
                < self.values().len()),
    {
    }

    /// The mock can be asked for a number of `[low, high]`: it can draw, the
    /// range's size fits an `i32`, and no value makes `low + value % size`
    /// overflow.
    pub open spec fn mock_can_draw_within(&self, low: int, high: int) -> bool {
        &&& self.can_draw()
        &&& high - low + 1 <= i32::MAX
        &&& forall|i: int|
            0 <= i < self.values().len() ==> low + mock_offset(
                #[trigger] self.values()[i],
                high - low + 1,
            ) >= i32::MIN
    }

    /// Every value fits an `i32`, so every number handed out lies in its
    /// range.
    pub open spec fn mock_in_range(&self) -> bool {
        forall|i: int| 0 <= i < self.values().len() ==> #[trigger] self.values()[i] <= i32::MAX
    }
}

impl RandomNumberGenerator for MockRng {
    open spec fn can_draw_within(&self, low: int, high: int) -> bool {
        self.mock_can_draw_within(low, high)
    }

    open spec fn stays_in_range(&self) -> bool {
        self.mock_in_range()
    }

    /// The next of the values, reduced into the range; the generator moves on.
    open spec fn drew(before: Self, after: Self, low: int, high: int, r: int) -> bool {
        mock_next(before, after, low, high, r)
    }

    fn generate_range(&mut self, low: i32, high: i32) -> (r: i32) {
        let ghost before = *self;
        let r = self.next_in_range(low, high);
        proof {
            mock_offset_bound(before.values()[before.index()], high - low + 1);
        }
        r
    }
}

/// Whether the generator, in state `rng`, can be asked for each of the ranges.
pub open spec fn draws_all<R: RandomNumberGenerator>(rng: R, ranges: Seq<(int, int)>) -> bool {
    forall|i: int|
        0 <= i < ranges.len() ==> rng.can_draw_within((#[trigger] ranges[i]).0, ranges[i].1)
}

/// Giving a parameter a random text.
pub trait RandomStringGenerator {
    /// Whether the parameter's bounds allow a value to be drawn at all.
    spec fn can_generate(&self) -> bool;

    /// The ranges that a value of this parameter is drawn from.
    spec fn ranges_drawn(&self) -> Seq<(int, int)>;

    /// Whether `v` is a value that this parameter can be given.
    spec fn can_produce(&self, v: Seq<char>) -> bool;

    /// Whether drawing a value needs every number drawn to lie in its range
    /// (else it would not end, or would index out of bounds).
    spec fn needs_in_range(&self) -> bool;

    fn generate_random<R: RandomNumberGenerator>(&self, rng: &mut R) -> (v: String)
        requires
            self.can_generate(),
            draws_all(*old(rng), self.ranges_drawn()),
            self.needs_in_range() ==> old(rng).stays_in_range(),
        ensures
            keeps_draws(*old(rng), *final(rng)),
            old(rng).stays_in_range() ==> final(rng).stays_in_range() && self.can_produce(v@),
    ;
}

/// A random text whose length is drawn from `[min, max]`.
#[derive(Debug, Clone, Copy, PartialEq, Eq, Structural)]
pub struct StringParameter {
    pub min: u32,
    pub max: u32,
}

impl StringParameter {
    pub fn new(min: u32, max: u32) -> (p: Self)
        ensures
            p == (StringParameter { min, max }),
    {
        Self { min, max }
    }
}

impl Default for StringParameter {
    fn default() -> (p: Self)
        ensures
            p == (StringParameter { min: 5, max: 10 }),
    {
        Self { min: 5, max: 10 }
    }
}

/// Reading a string parameter: the leftmost `@{string[a, b]}` anywhere in
/// `s`, or else `s` is exactly `@{string}`.
pub open spec fn string_parsed(s: Seq<char>) -> Result<StringParameter, ParameterError> {
    match first_capture(s, 0, string_head(), string_plain(), false, false) {
        Some(Capture::Ranged { min_start, min_end, max_start, max_end }) => {
            let min_text = s.subrange(min_start, min_end);
            let max_text = s.subrange(max_start, max_end);
            let min = number_value(min_text);
            let max = number_value(max_text);
            if !ascii_number(min_text) || !ascii_number(max_text) || min > u32::MAX || max > u32::MAX {
                Err(ParameterError::Parsing)
            } else if min > max {
                Err(ParameterError::InvalidParameter)
            } else {
                Ok(StringParameter { min: min as u32, max: max as u32 })
            }
        },
        _ => if s == string_plain() {
            Ok(StringParameter { min: 5, max: 10 })
        } else {
            Err(ParameterError::InvalidParameter)
        },
    }
}

impl StringParameter {
    /// Reads a string parameter from its token.
    pub fn parse(s: &str) -> (r: Result<StringParameter, ParameterError>)
        ensures
            r == string_parsed(s@),
    {
        let v = chars_of(s);
        let head = vec!['@', '{', 's', 't', 'r', 'i', 'n', 'g', '['];
        let plain = vec!['@', '{', 's', 't', 'r', 'i', 'n', 'g', '}'];
        assert(head@ =~= string_head());
        assert(plain@ =~= string_plain());
        proof {
            lemma_first_capture(v@, 0, head@, plain@, false, false);
        }
        if let Some(Found::Ranged(a1, b1, a2, b2)) = first_capture_exec(
            &v,
            0,
            &head,
            &plain,
            false,
            false,
        ) {
            let min = match parse_u32_at(&v, a1, b1) {
                Some(m) => m,
                None => {
                    return Err(ParameterError::Parsing);
                },
            };
            let max = match parse_u32_at(&v, a2, b2) {
                Some(m) => m,
                None => {
                    return Err(ParameterError::Parsing);
                },
            };
            if min > max {
                return Err(ParameterError::InvalidParameter);
            }
            return Ok(StringParameter::new(min, max));
        }
        if is_exactly(&v, &plain) {
            Ok(StringParameter::default())
        } else {
            Err(ParameterError::InvalidParameter)
        }
    }
}

impl std::str::FromStr for StringParameter {
    type Err = ParameterError;

    fn from_str(s: &str) -> (r: Result<StringParameter, ParameterError>)
        ensures
            r == string_parsed(s@),
    {
        StringParameter::parse(s)
    }
}

impl RandomStringGenerator for StringParameter {
    open spec fn can_generate(&self) -> bool {
        self.min <= self.max <= i32::MAX
    }

    open spec fn ranges_drawn(&self) -> Seq<(int, int)> {
        seq![(self.min as int, self.max as int), (0, 61)]
    }

    open spec fn can_produce(&self, v: Seq<char>) -> bool {
        random_text_value(self.min as int, self.max as int, v)
    }

    open spec fn needs_in_range(&self) -> bool {
        true
    }

    fn generate_random<R: RandomNumberGenerator>(&self, rng: &mut R) -> (v: String)
        ensures
            handler_text_generated(self.min as int, self.max as int, *old(rng), *final(rng), v@),
    {
        assert(self.ranges_drawn()[0] == (self.min as int, self.max as int));
        assert(self.ranges_drawn()[1] == (0int, 61int));
        let ghost start = *rng;
        assert(start.can_draw_within(self.ranges_drawn()[0].0, self.ranges_drawn()[0].1));
        assert(start.can_draw_within(self.ranges_drawn()[1].0, self.ranges_drawn()[1].1));
        let drawn = rng.generate_range(self.min as i32, self.max as i32);
        let length = drawn as usize;
        let ghost mut states: Seq<R> = seq![start, *rng];
        let ghost mut rs: Seq<int> = seq![drawn as int];
        let mut random_string = String::new();
        let mut i: usize = 0;
        proof {
            assert(text_ranges(self.min as int, self.max as int, 0) =~= seq![
                (self.min as int, self.max as int),
            ]);
            assert(R::drew(states[0], states[1], self.min as int, self.max as int, rs[0]));
        }
        while i < length
            invariant
                i <= length,
                self.min <= length <= self.max,
                length == drawn as int,
                random_string@.len() == i,
                forall|j: int| 0 <= j < i ==> is_charset_char(#[trigger] random_string@[j]),
                rng.can_draw_within(0, 61),
                rng.stays_in_range(),
                keeps_draws(start, *rng),
                drew_in_turn(states, text_ranges(self.min as int, self.max as int, i as nat), rs),
                states[0] == start,
                states[i + 1] == *rng,
                rs[0] == length,
                forall|j: int| 0 <= j < i ==> random_string@[j] == charset_char(#[trigger] rs[j + 1]),
            decreases length - i,
        {
            let ghost before = *rng;
            let idx = rng.generate_range(0, 61);
            push_char(&mut random_string, charset_at(idx));
            proof {
                assert forall|l: int, h: int| #[trigger] start.can_draw_within(l, h) implies rng.can_draw_within(l, h) by {
                    assert(before.can_draw_within(l, h));
                }
                let old_ranges = text_ranges(self.min as int, self.max as int, i as nat);
                let new_ranges = text_ranges(self.min as int, self.max as int, (i + 1) as nat);
                assert(new_ranges =~= old_ranges.push((0int, 61int)));
                let old_states = states;
                let old_rs = rs;
                states = states.push(*rng);
                rs = rs.push(idx as int);
                assert forall|k: int| #![trigger rs[k]] 0 <= k < new_ranges.len() implies R::drew(
                    states[k],
                    states[k + 1],
                    new_ranges[k].0,
                    new_ranges[k].1,
                    rs[k],
                ) by {
                    if k < old_ranges.len() {
                        assert(old_rs[k] == rs[k]);
                        assert(states[k] == old_states[k]);
                        assert(states[k + 1] == old_states[k + 1]);
                    } else {
                        assert(k == i + 1);
                        assert(states[k] == before);
                    }
                }
                assert(forall|j: int| 0 <= j < i ==> #[trigger] rs[j + 1] == old_rs[j + 1]);
            }
            i = i + 1;
        }
        assert(random_string@.len() == length);
        random_string
    }
}

pub open spec fn blank_token() -> Seq<char> {
    seq!['@', '{', '}']
}

pub open spec fn int_token() -> Seq<char> {
    seq!['@', '{', 'i', 'n', 't', '}']
}

pub open spec fn boolean_token() -> Seq<char> {
    seq!['@', '{', 'b', 'o', 'o', 'l', 'e', 'a', 'n', '}']
}

/// A parameter that is left as it is written, `@{}`.
#[derive(Debug, Clone, Copy)]
pub struct BlankParameter {}

impl BlankParameter {
    pub fn new() -> (p: Self)
        ensures
            p == (BlankParameter {  }),
    {
        Self {  }
    }

    /// Reads a blank parameter: the token is exactly `@{}`.
    pub fn parse(s: &str) -> (r: Result<BlankParameter, ParameterError>)
        ensures
            r is Ok <==> s@ == blank_token(),
            r is Err ==> r == Err::<BlankParameter, ParameterError>(
                ParameterError::InvalidParameter,
            ),
    {
        let v = chars_of(s);
        let token = vec!['@', '{', '}'];
        assert(token@ =~= blank_token());
        if is_exactly(&v, &token) {
            Ok(BlankParameter::new())
        } else {
            Err(ParameterError::InvalidParameter)
        }
    }
}

impl Default for BlankParameter {
    fn default() -> (p: Self)
        ensures
            p == (BlankParameter {  }),
    {
        Self::new()
    }
}

impl std::str::FromStr for BlankParameter {
    type Err = ParameterError;

    fn from_str(s: &str) -> (r: Result<BlankParameter, ParameterError>)
        ensures
            r is Ok <==> s@ == blank_token(),
            r is Err ==> r == Err::<BlankParameter, ParameterError>(
                ParameterError::InvalidParameter,
            ),
    {
        BlankParameter::parse(s)
    }
}

impl RandomStringGenerator for BlankParameter {
    open spec fn can_generate(&self) -> bool {
        true
    }

    open spec fn ranges_drawn(&self) -> Seq<(int, int)> {
        seq![]
    }

    open spec fn can_produce(&self, v: Seq<char>) -> bool {
        v == blank_token()
    }

    open spec fn needs_in_range(&self) -> bool {
        false
    }

    fn generate_random<R: RandomNumberGenerator>(&self, _rng: &mut R) -> (v: String)
        ensures
            *final(_rng) == *old(_rng),
            v@ == blank_token(),
    {
        let t = vec!['@', '{', '}'];
        assert(t@ =~= blank_token());
        string_from_chars(&t)
    }
}

/// A whole number drawn from `[min, max]`.
#[derive(Debug, Clone, Copy, PartialEq, Eq, Structural)]
pub struct IntParameter {
    pub min: i32,
    pub max: i32,
}

impl IntParameter {
    pub fn new(min: i32, max: i32) -> (p: Self)
        ensures
            p == (IntParameter { min, max }),
    {
        Self { min, max }
    }

    /// Reads an integer parameter: the token is exactly `@{int}`.
    pub fn parse(s: &str) -> (r: Result<IntParameter, ParameterError>)
        ensures
            r is Ok <==> s@ == int_token(),
            r matches Ok(p) ==> p == (IntParameter { min: 5, max: 10 }),
            r is Err ==> r == Err::<IntParameter, ParameterError>(
                ParameterError::InvalidParameter,
            ),
    {
        let v = chars_of(s);
        let token = vec!['@', '{', 'i', 'n', 't', '}'];
        assert(token@ =~= int_token());
        if is_exactly(&v, &token) {
            Ok(IntParameter::default())
        } else {
            Err(ParameterError::InvalidParameter)
        }
    }
}

impl Default for IntParameter {
    fn default() -> (p: Self)
        ensures
            p == (IntParameter { min: 5, max: 10 }),
    {
        Self { min: 5, max: 10 }
    }
}

impl std::str::FromStr for IntParameter {
    type Err = ParameterError;

    fn from_str(s: &str) -> (r: Result<IntParameter, ParameterError>)
        ensures
            r is Ok <==> s@ == int_token(),
            r matches Ok(p) ==> p == (IntParameter { min: 5, max: 10 }),
            r is Err ==> r == Err::<IntParameter, ParameterError>(
                ParameterError::InvalidParameter,
            ),
    {
        IntParameter::parse(s)
    }
}

impl RandomStringGenerator for IntParameter {
    open spec fn can_generate(&self) -> bool {
        self.min <= self.max
    }

    open spec fn ranges_drawn(&self) -> Seq<(int, int)> {
        seq![(self.min as int, self.max as int)]
    }

    open spec fn can_produce(&self, v: Seq<char>) -> bool {
        exists|k: int| self.min <= k <= self.max && v == #[trigger] int_to_decimal(k)
    }

    open spec fn needs_in_range(&self) -> bool {
        false
    }

    fn generate_random<R: RandomNumberGenerator>(&self, rng: &mut R) -> (v: String)
        ensures
            handler_int_generated(self.min as int, self.max as int, *old(rng), *final(rng), v@),
    {
        assert(self.ranges_drawn()[0] == (self.min as int, self.max as int));
        assert(old(rng).can_draw_within(self.ranges_drawn()[0].0, self.ranges_drawn()[0].1));
        let random_int = rng.generate_range(self.min, self.max);
        let v = int_to_string(random_int as i64);
        assert(v@ == int_to_decimal(random_int as int));
        assert(R::drew(*old(rng), *rng, self.min as int, self.max as int, random_int as int));
        v
    }
}

/// A parameter that becomes `true` or `false`.
#[derive(Debug, Clone, Copy)]
pub struct BooleanParameter {}

impl BooleanParameter {
    /// Reads a boolean parameter: the token is exactly `@{boolean}`.
    pub fn parse(s: &str) -> (r: Result<BooleanParameter, ParameterError>)
        ensures
            r is Ok <==> s@ == boolean_token(),
            r is Err ==> r == Err::<BooleanParameter, ParameterError>(
                ParameterError::InvalidParameter,
            ),
    {
        let v = chars_of(s);
        let token = vec!['@', '{', 'b', 'o', 'o', 'l', 'e', 'a', 'n', '}'];
        assert(token@ =~= boolean_token());
        if is_exactly(&v, &token) {
            Ok(BooleanParameter {  })
        } else {
            Err(ParameterError::InvalidParameter)
        }
    }
}

impl Default for BooleanParameter {
    fn default() -> (p: Self)
        ensures
            p == (BooleanParameter {  }),
    {
        Self {  }
    }
}

impl std::str::FromStr for BooleanParameter {
    type Err = ParameterError;

    fn from_str(s: &str) -> (r: Result<BooleanParameter, ParameterError>)
        ensures
            r is Ok <==> s@ == boolean_token(),
            r is Err ==> r == Err::<BooleanParameter, ParameterError>(
                ParameterError::InvalidParameter,
            ),
    {
        BooleanParameter::parse(s)
    }
}

pub open spec fn true_text() -> Seq<char> {
    seq!['t', 'r', 'u', 'e']
}

pub open spec fn false_text() -> Seq<char> {
    seq!['f', 'a', 'l', 's', 'e']
}

impl RandomStringGenerator for BooleanParameter {
    open spec fn can_generate(&self) -> bool {
        true
    }

    open spec fn ranges_drawn(&self) -> Seq<(int, int)> {
        seq![(0int, 1int)]
    }

    open spec fn can_produce(&self, v: Seq<char>) -> bool {
        v == true_text() || v == false_text()
    }

    open spec fn needs_in_range(&self) -> bool {
        false
    }

    fn generate_random<R: RandomNumberGenerator>(&self, rng: &mut R) -> (v: String)
        ensures
            handler_boolean_generated(*old(rng), *final(rng), v@),
    {
        assert(self.ranges_drawn()[0] == (0int, 1int));
        assert(old(rng).can_draw_within(self.ranges_drawn()[0].0, self.ranges_drawn()[0].1));
        let random_int = rng.generate_range(0, 1);
        let v = boolean_text_of(random_int);
        assert(R::drew(*old(rng), *rng, 0, 1, random_int as int));
        v
    }
}

/// A parameter of any kind, as read from its token.
#[derive(Debug, Clone, Copy)]
pub enum SerializableParameter {
    Blank(BlankParameter),
    Int(IntParameter),
    String(StringParameter),
    Boolean(BooleanParameter),
}

/// `v` is the value that `p` takes from the generator's draws, going from
/// `before` to `after`; a blank parameter draws nothing and stays `@{}`.
pub open spec fn handler_param_generated<R: RandomNumberGenerator>(
    p: SerializableParameter,
    before: R,
    after: R,
    v: Seq<char>,
) -> bool {
    match p {
        SerializableParameter::Blank(_) => after == before && v == blank_token(),
        SerializableParameter::Int(q) => handler_int_generated(
            q.min as int,
            q.max as int,
            before,
            after,
            v,
        ),
        SerializableParameter::String(q) => handler_text_generated(
            q.min as int,
            q.max as int,
            before,
            after,
            v,
        ),
        SerializableParameter::Boolean(_) => handler_boolean_generated(before, after, v),
    }
}

impl RandomStringGenerator for SerializableParameter {
    open spec fn can_generate(&self) -> bool {
        match self {
            SerializableParameter::Blank(p) => p.can_generate(),
            SerializableParameter::Int(p) => p.can_generate(),
            SerializableParameter::String(p) => p.can_generate(),
            SerializableParameter::Boolean(p) => p.can_generate(),
        }
    }

    open spec fn ranges_drawn(&self) -> Seq<(int, int)> {
        match self {
            SerializableParameter::Blank(p) => p.ranges_drawn(),
            SerializableParameter::Int(p) => p.ranges_drawn(),
            SerializableParameter::String(p) => p.ranges_drawn(),
            SerializableParameter::Boolean(p) => p.ranges_drawn(),
        }
    }

    open spec fn can_produce(&self, v: Seq<char>) -> bool {
        match self {
            SerializableParameter::Blank(p) => p.can_produce(v),
            SerializableParameter::Int(p) => p.can_produce(v),
            SerializableParameter::String(p) => p.can_produce(v),
            SerializableParameter::Boolean(p) => p.can_produce(v),
        }
    }

    open spec fn needs_in_range(&self) -> bool {
        match self {
            SerializableParameter::Blank(p) => p.needs_in_range(),
            SerializableParameter::Int(p) => p.needs_in_range(),
            SerializableParameter::String(p) => p.needs_in_range(),
            SerializableParameter::Boolean(p) => p.needs_in_range(),
        }
    }

    fn generate_random<R: RandomNumberGenerator>(&self, rng: &mut R) -> (v: String)
        ensures
            handler_param_generated(*self, *old(rng), *final(rng), v@),
    {
        match self {
            SerializableParameter::Blank(param) => param.generate_random(rng),
            SerializableParameter::Int(param) => param.generate_random(rng),
            SerializableParameter::String(param) => param.generate_random(rng),
            SerializableParameter::Boolean(param) => param.generate_random(rng),
        }
    }
}

/// Reading one token: the first kind that takes it, tried in the order blank,
/// string, integer, boolean.
pub open spec fn handler_parameter_parsed(tok: Seq<char>) -> Result<
    SerializableParameter,
    ParameterError,
> {
    if tok == blank_token() {
        Ok(SerializableParameter::Blank(BlankParameter {  }))
    } else if string_parsed(tok) is Ok {
        Ok(SerializableParameter::String(string_parsed(tok)->Ok_0))
    } else if tok == int_token() {
        Ok(SerializableParameter::Int(IntParameter { min: 5, max: 10 }))
    } else if tok == boolean_token() {
        Ok(SerializableParameter::Boolean(BooleanParameter {  }))
    } else {
        Err(ParameterError::InvalidParameter)
    }
}

/// Reading a command: its texts and its tokens, every token read as a
/// parameter; no parameter when one token is none.
pub open spec fn handler_parsed(s: Seq<char>) -> Result<
    (Seq<Seq<char>>, Seq<SerializableParameter>),
    ParameterError,
> {
    let texts = split_parameters(s).0;
    let toks = split_parameters(s).1;
    if forall|i: int| 0 <= i < toks.len() ==> (#[trigger] handler_parameter_parsed(toks[i])) is Ok {
        Ok((texts, Seq::new(toks.len(), |i: int| handler_parameter_parsed(toks[i])->Ok_0)))
    } else {
        Err(ParameterError::InvalidParameter)
    }
}

/// The generator, in state `rng`, can give values to all the parameters.
pub open spec fn handler_generatable<R: RandomNumberGenerator>(
    rng: R,
    ps: Seq<SerializableParameter>,
) -> bool {
    forall|i: int|
        0 <= i < ps.len() ==> {
            &&& (#[trigger] ps[i]).can_generate()
            &&& draws_all(rng, ps[i].ranges_drawn())
            &&& ps[i].needs_in_range() ==> rng.stays_in_range()
        }
}

/// What the generator can be asked for is kept along a chain of states.
pub proof fn lemma_keeps_draws_trans<R: RandomNumberGenerator>(a: R, b: R, c: R)
    requires
        keeps_draws(a, b),
        keeps_draws(b, c),
    ensures
        keeps_draws(a, c),
{
    assert forall|l: int, h: int| #[trigger] a.can_draw_within(l, h) implies c.can_draw_within(l, h) by {
        assert(b.can_draw_within(l, h));
    }
}

/// Parameters that a state can give values to, a later state can too, as long
/// as it keeps what could be drawn and stays in range when the first did.
pub proof fn lemma_generatable_kept<R: RandomNumberGenerator>(
    a: R,
    b: R,
    ps: Seq<SerializableParameter>,
)
    requires
        handler_generatable(a, ps),
        keeps_draws(a, b),
        a.stays_in_range() ==> b.stays_in_range(),
    ensures
        handler_generatable(b, ps),
{
    assert forall|i: int| 0 <= i < ps.len() implies {
        &&& (#[trigger] ps[i]).can_generate()
        &&& draws_all(b, ps[i].ranges_drawn())
        &&& ps[i].needs_in_range() ==> b.stays_in_range()
    } by {
        let rs = ps[i].ranges_drawn();
        assert forall|k: int| 0 <= k < rs.len() implies b.can_draw_within(
            (#[trigger] rs[k]).0,
            rs[k].1,
        ) by {
            assert(a.can_draw_within(rs[k].0, rs[k].1));
        }
    }
}

/// The generator went through `states` giving the first `k` parameters their
/// `values` in turn.
pub open spec fn handler_generated_in_turn<R: RandomNumberGenerator>(
    ps: Seq<SerializableParameter>,
    values: Seq<Seq<char>>,
    states: Seq<R>,
    k: int,
) -> bool {
    &&& states.len() == k + 1
    &&& forall|i: int|
        #![trigger ps[i]]
        0 <= i < k ==> handler_param_generated(ps[i], states[i], states[i + 1], values[i])
}

/// What giving the parameters of `s` their values did to the generator, from
/// state `before` to state `after`: nothing on an error; else each value is
/// the one its parameter's draws make, in turn.
pub open spec fn replaced_from<R: RandomNumberGenerator>(
    s: Seq<char>,
    r: Result<(String, Vec<String>), ParameterError>,
    before: R,
    after: R,
) -> bool {
    match r {
        Err(_) => after == before,
        Ok((_, values)) => exists|states: Seq<R>|
            #![trigger handler_generated_in_turn(handler_parsed(s)->Ok_0.1, values.deep_view(), states, values.deep_view().len() as int)]
            {
                &&& handler_generated_in_turn(
                    handler_parsed(s)->Ok_0.1,
                    values.deep_view(),
                    states,
                    values.deep_view().len() as int,
                )
                &&& states[0] == before
                &&& states[values.deep_view().len() as int] == after
            },
    }
}


proof fn lemma_blank_states<R: RandomNumberGenerator>(
    ps: Seq<SerializableParameter>,
    values: Seq<Seq<char>>,
    states: Seq<R>,
    k: int,
)
    requires
        0 <= k < states.len(),
        k <= ps.len(),
        forall|i: int| 0 <= i < ps.len() ==> (#[trigger] ps[i]) is Blank,
        forall|i: int|
            #![trigger ps[i]]
            0 <= i < k ==> handler_param_generated(ps[i], states[i], states[i + 1], values[i]),
    ensures
        states[k] == states[0],
    decreases k,
{
    if k > 0 {
        assert(handler_param_generated(ps[k - 1], states[k - 1], states[k], values[k - 1]));
        lemma_blank_states(ps, values, states, k - 1);
    }
}

/// Replacing the parameters of a command whose parameters draw nothing (all
/// of them blank, or none at all) leaves the generator as it was; so does a
/// refusal.
pub proof fn law_replacing_without_draws_keeps_generator<R: RandomNumberGenerator>(
    s: Seq<char>,
    r: Result<(String, Vec<String>), ParameterError>,
    before: R,
    after: R,
)
    requires
        ParameterHandler::<R>::replaced(s, r),
        replaced_from(s, r, before, after),
        handler_parsed(s) matches Ok((_, ps)) ==> forall|i: int|
            0 <= i < ps.len() ==> (#[trigger] ps[i]) is Blank,
    ensures
        after == before,
{
    if let Ok((_, values)) = r {
        let ps = handler_parsed(s)->Ok_0.1;
        let n = values.deep_view().len() as int;
        let states = choose|states: Seq<R>|
            {
                &&& handler_generated_in_turn(ps, values.deep_view(), states, n)
                &&& states[0] == before
                &&& states[n] == after
            };
        lemma_blank_states(ps, values.deep_view(), states, n);
    }
}

/// Reads the parameters of commands and gives them random values.
pub struct ParameterHandler<R: RandomNumberGenerator> {
    rng: R,
}

impl<R: RandomNumberGenerator> ParameterHandler<R> {
    /// The handler's generator.
    pub closed spec fn generator(&self) -> R {
        self.rng
    }

    /// Whether the handler can give values to the parameters of `s`: they
    /// can be read, their bounds allow values, and the generator can draw
    /// what they need.
    pub open spec fn can_replace(&self, s: Seq<char>) -> bool {
        match handler_parsed(s) {
            Err(_) => true,
            Ok((_, ps)) => handler_generatable(self.generator(), ps),
        }
    }

    /// A handler that draws from `rng`.
    pub fn new(rng: Box<R>) -> (h: Self)
        ensures
            h.generator() == *rng,
    {
        Self { rng: *rng }
    }

    fn parse_parameter(&self, s: String) -> (r: Result<SerializableParameter, ParameterError>)
        ensures
            r == handler_parameter_parsed(s@),
    {
        let ret = BlankParameter::parse(s.as_str());
        if let Ok(ph) = ret {
            return Ok(SerializableParameter::Blank(ph));
        }
        let ret = StringParameter::parse(s.as_str());
        if let Ok(ph) = ret {
            return Ok(SerializableParameter::String(ph));
        }
        let ret = IntParameter::parse(s.as_str());
        if let Ok(ph) = ret {
            return Ok(SerializableParameter::Int(ph));
        }
        let ret = BooleanParameter::parse(s.as_str());
        if let Ok(ph) = ret {
            return Ok(SerializableParameter::Boolean(ph));
        }
        Err(ParameterError::InvalidParameter)
    }

    /// Reads the parameters of a command: the texts between them (one more
    /// than the parameters) and the parameters.
    pub fn parse_parameters(&mut self, s: String) -> (r: Result<
        (Vec<String>, Vec<SerializableParameter>),
        ParameterError,
    >)
        ensures
            *final(self) == *old(self),
            match r {
                Ok((texts, params)) => handler_parsed(s@) == Ok::<
                    (Seq<Seq<char>>, Seq<SerializableParameter>),
                    ParameterError,
                >((texts.deep_view(), params@)),
                Err(e) => handler_parsed(s@) == Err::<
                    (Seq<Seq<char>>, Seq<SerializableParameter>),
                    ParameterError,
                >(e),
            },
            r matches Ok((texts, params)) ==> texts@.len() == params@.len() + 1,
    {
        let v = chars_of(s.as_str());
        let (other_strings, tokens) = split_parameter_tokens(&v);
        let ghost toks = split_parameters(s@).1;
        let mut parameters: Vec<SerializableParameter> = Vec::new();
        let mut i: usize = 0;
        while i < tokens.len()
            invariant
                i <= tokens@.len(),
                tokens.deep_view() == toks,
                toks == split_parameters(s@).1,
                parameters@.len() == i,
                forall|j: int| 0 <= j < i ==> (#[trigger] handler_parameter_parsed(toks[j])) is Ok,
                forall|j: int|
                    0 <= j < i ==> parameters@[j] == (#[trigger] handler_parameter_parsed(
                        toks[j],
                    ))->Ok_0,
            decreases tokens.len() - i,
        {
            assert(tokens.deep_view()[i as int] == tokens@[i as int]@);
            match self.parse_parameter(tokens[i].clone()) {
                Ok(param) => {
                    parameters.push(param);
                },
                Err(e) => {
                    assert(!(handler_parameter_parsed(toks[i as int]) is Ok));
                    assert(!(forall|j: int|
                        0 <= j < toks.len() ==> (#[trigger] handler_parameter_parsed(
                            toks[j],
                        )) is Ok));
                    return Err(e);
                },
            }
            i = i + 1;
        }
        assert(parameters@ =~= Seq::new(
            toks.len(),
            |j: int| handler_parameter_parsed(toks[j])->Ok_0,
        ));
        Ok((other_strings, parameters))
    }

    /// What giving the parameters of `s` their values gives: the error of
    /// reading them, or one value per parameter, and the texts and the values
    /// put back in turn.
    pub open spec fn replaced(s: Seq<char>, r: Result<(String, Vec<String>), ParameterError>) -> bool {
        match handler_parsed(s) {
            Err(e) => r == Err::<(String, Vec<String>), ParameterError>(e),
            Ok((texts, ps)) => r matches Ok((out, values)) && {
                &&& values.deep_view().len() == ps.len()
                &&& out@ == interleave(texts, values.deep_view())
            },
        }
    }

    /// Each value given is one its parameter can produce.
    pub open spec fn produced(s: Seq<char>, r: Result<(String, Vec<String>), ParameterError>) -> bool {
        r matches Ok((_, values)) ==> forall|i: int|
            0 <= i < handler_parsed(s)->Ok_0.1.len() ==> (#[trigger] handler_parsed(
                s,
            )->Ok_0.1[i]).can_produce(values.deep_view()[i])
    }

    /// Whether a handler, whatever the state of its generator of type `R`,
    /// can give values to the parameters of `s`.
    pub open spec fn default_can_replace(s: Seq<char>) -> bool {
        match handler_parsed(s) {
            Err(_) => true,
            Ok((_, ps)) => forall|g: R| #[trigger] handler_generatable(g, ps),
        }
    }

    /// Gives each parameter of `s` a random value and puts the command back
    /// together with them.
    pub fn replace_parameters(&mut self, s: String) -> (r: Result<(String, Vec<String>), ParameterError>)
        requires
            old(self).can_replace(s@),
        ensures
            keeps_draws(old(self).generator(), final(self).generator()),
            old(self).generator().stays_in_range() ==> final(self).generator().stays_in_range()
                && Self::produced(s@, r),
            Self::replaced(s@, r),
            replaced_from(s@, r, old(self).generator(), final(self).generator()),
    {
        let ghost start = self.rng;
        let ghost mut states: Seq<R> = seq![start];
        let (other_strings, parameters) = match self.parse_parameters(s) {
            Ok(p) => p,
            Err(e) => {
                return Err(e);
            },
        };
        let ghost texts = other_strings.deep_view();
        let n = other_strings.len();
        let mut generated_result = String::new();
        let mut generated_parameters: Vec<String> = Vec::new();
        let mut i: usize = 0;
        while i < n - 1
            invariant
                n == other_strings@.len(),
                n == parameters@.len() + 1,
                i <= n - 1,
                texts == other_strings.deep_view(),
                handler_generatable(start, parameters@),
                keeps_draws(start, self.rng),
                start.stays_in_range() ==> self.rng.stays_in_range(),
                generated_parameters@.len() == i,
                generated_result@ == pairs_joined(texts, generated_parameters.deep_view(), i as int),
                start.stays_in_range() ==> forall|j: int|
                    0 <= j < i ==> (#[trigger] parameters@[j]).can_produce(
                        generated_parameters.deep_view()[j],
                    ),
                handler_generated_in_turn(
                    parameters@,
                    generated_parameters.deep_view(),
                    states,
                    i as int,
                ),
                states[0] == start,
                states[i as int] == self.rng,
            decreases n - 1 - i,
        {
            let ghost before = generated_parameters.deep_view();
            let ghost rng_before = self.rng;
            push_str(&mut generated_result, other_strings[i].as_str());
            proof {
                lemma_generatable_kept(start, self.rng, parameters@);
                assert(parameters@[i as int].can_generate());
            }
            let value = parameters[i].generate_random(&mut self.rng);
            push_str(&mut generated_result, value.as_str());
            let ghost gv = value@;
            generated_parameters.push(value);
            proof {
                let after = generated_parameters.deep_view();
                assert(after.drop_last() =~= before);
                assert(after[i as int] == gv);
                let old_states = states;
                states = states.push(self.rng);
                assert(handler_param_generated(parameters@[i as int], rng_before, self.rng, gv));
                assert forall|j: int| #![trigger parameters@[j]] 0 <= j < i + 1 implies handler_param_generated(
                    parameters@[j],
                    states[j],
                    states[j + 1],
                    after[j],
                ) by {
                    if j < i {
                        assert(after[j] == before[j]);
                        assert(states[j] == old_states[j]);
                        assert(states[j + 1] == old_states[j + 1]);
                    }
                }
                lemma_keeps_draws_trans(start, rng_before, self.rng);
                lemma_pairs_joined_prefix(texts, before, after, i as int);
                if start.stays_in_range() {
                    assert forall|j: int| 0 <= j < i + 1 implies (#[trigger] parameters@[j]).can_produce(
                        after[j],
                    ) by {
                        if j < i {
                            assert(after[j] == before[j]);
                        }
                    }
                }
            }
            i = i + 1;
        }
        push_str(&mut generated_result, other_strings[n - 1].as_str());
        assert(generated_parameters.deep_view().len() == parameters@.len());
        assert(handler_generated_in_turn(
            parameters@,
            generated_parameters.deep_view(),
            states,
            generated_parameters.deep_view().len() as int,
        ));
        Ok((generated_result, generated_parameters))
    }

    /// Checks that the parameters of `s` can be read (by giving them values).
    pub fn validate_parameters(&mut self, s: String) -> (r: Result<(), ParameterError>)
        requires
            old(self).can_replace(s@),
        ensures
            keeps_draws(old(self).generator(), final(self).generator()),
            old(self).generator().stays_in_range() ==> final(self).generator().stays_in_range(),
            match handler_parsed(s@) {
                Err(e) => r == Err::<(), ParameterError>(e),
                Ok(_) => r is Ok,
            },
            r is Err ==> final(self).generator() == old(self).generator(),
    {
        let _ = self.replace_parameters(s)?;
        Ok(())
    }
}

impl Default for ParameterHandler<rand::rngs::ThreadRng> {
    fn default() -> (h: Self) {
        Self { rng: thread_rng() }
    }
}



/// A command without parameters is given back unchanged when its parameters
/// are replaced, with no values generated.
pub proof fn law_no_parameters_unchanged<R: RandomNumberGenerator>(
    s: Seq<char>,
    r: Result<(String, Vec<String>), ParameterError>,
)
    requires
        split_parameters(s).1.len() == 0,
        ParameterHandler::<R>::replaced(s, r),
    ensures
        r matches Ok((out, values)) && out@ == s && values@.len() == 0,
{
    crate::logic::parameters::syntax::law_split_round_trip(s);
    let texts = split_parameters(s).0;
    let toks = split_parameters(s).1;
    assert(handler_parsed(s) is Ok);
    if let Ok((out, values)) = r {
        assert(values.deep_view() =~= toks);
    }
}

impl ParameterHandler<rand::rngs::ThreadRng> {
    /// Whether the thread's generator can give a value to every parameter of
    /// `s` (an integer bound of `i32::MAX` cannot be drawn), so that `s` can
    /// be checked without a panic.
    pub fn can_validate(s: &String) -> (b: bool)
        ensures
            b == Self::default_can_replace(s@),
    {
        let mut handler = Self::default();
        match handler.parse_parameters(s.clone()) {
            Err(_) => true,
            Ok((_, params)) => {
                let ghost ps = params@;
                let ghost g0 = handler.generator();
                assert(handler_parsed(s@) matches Ok((_, q)) && q == ps);
                let mut i: usize = 0;
                while i < params.len()
                    invariant
                        i <= params@.len(),
                        ps == params@,
                        handler_parsed(s@) is Ok && handler_parsed(s@)->Ok_0.1 == ps,
                        g0 == handler.generator(),
                        forall|j: int|
                            0 <= j < i ==> {
                                &&& (#[trigger] params@[j]).can_generate()
                                &&& draws_all(g0, params@[j].ranges_drawn())
                                &&& params@[j].needs_in_range() ==> g0.stays_in_range()
                            },
                    decreases params.len() - i,
                {
                    let ok = match &params[i] {
                        SerializableParameter::Blank(_) => true,
                        SerializableParameter::Int(p) => p.min <= p.max && p.max < 2147483647i32,
                        SerializableParameter::String(p) => p.min <= p.max && p.max < 2147483647u32,
                        SerializableParameter::Boolean(_) => true,
                    };
                    if !ok {
                        proof {
                            let g = handler.generator();
                            let rs = params@[i as int].ranges_drawn();
                            match params@[i as int] {
                                SerializableParameter::Int(p) => {
                                    if p.min <= p.max {
                                        assert(!g.can_draw_within(rs[0].0, rs[0].1));
                                    }
                                },
                                SerializableParameter::String(p) => {
                                    if p.min <= p.max {
                                        assert(!g.can_draw_within(rs[0].0, rs[0].1));
                                    }
                                },
                                _ => {},
                            }
                            assert(!handler_generatable(g, ps));
                            assert(!Self::default_can_replace(s@));
                        }
                        return false;
                    }
                    proof {
                        assert forall|j: int|
                            0 <= j < i + 1 implies {
                                &&& (#[trigger] params@[j]).can_generate()
                                &&& draws_all(g0, params@[j].ranges_drawn())
                                &&& params@[j].needs_in_range() ==> g0.stays_in_range()
                            } by {
                            if j == i {
                                let rs = params@[j].ranges_drawn();
                                assert forall|k: int| 0 <= k < rs.len() implies g0.can_draw_within(
                                    (#[trigger] rs[k]).0,
                                    rs[k].1,
                                ) by {}
                            }
                        }
                    }
                    i = i + 1;
                }
                assert(handler_generatable(g0, ps));
                assert forall|g: rand::rngs::ThreadRng| #[trigger] handler_generatable(g, ps) by {
                    lemma_generatable_kept(g0, g, ps);
                }
                true
            },
        }
    }
}

} // verus!

