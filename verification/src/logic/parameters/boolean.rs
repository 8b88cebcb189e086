//! Boolean parameters: `@{boolean}`, which becomes `true` or `false`.

use vstd::prelude::*;

use super::populator::RandomNumberGenerator;
use super::syntax::lit_at_exec;
use super::{result_view, GenerateRandomValues, ParameterError, ParameterErrorView};
use crate::text::{chars_of, string_from_chars};

verus! {

/// A parameter that becomes `true` or `false`.
#[derive(Debug, Clone, Copy)]
pub struct BooleanParameter {}

impl Default for BooleanParameter {
    fn default() -> (p: Self)
        ensures
            p == (BooleanParameter {  }),
    {
        BooleanParameter {  }
    }
}

pub open spec fn boolean_token() -> Seq<char> {
    seq!['@', '{', 'b', 'o', 'o', 'l', 'e', 'a', 'n', '}']
}

pub open spec fn true_text() -> Seq<char> {
    seq!['t', 'r', 'u', 'e']
}

pub open spec fn false_text() -> Seq<char> {
    seq!['f', 'a', 'l', 's', 'e']
}

/// Reading a boolean parameter: `s` is exactly `@{boolean}`.
pub open spec fn boolean_parsed(s: Seq<char>) -> Result<BooleanParameter, ParameterErrorView> {
    if s == boolean_token() {
        Ok(BooleanParameter {  })
    } else {
        Err(ParameterErrorView::InvalidParameter)
    }
}

/// Whether the characters `v` are exactly `lit`.
pub fn is_exactly(v: &Vec<char>, lit: &Vec<char>) -> (b: bool)
    ensures
        b == (v@ == lit@),
{
    if v.len() != lit.len() {
        return false;
    }
    let b = lit_at_exec(v, 0, lit);
    assert(v@.subrange(0, lit@.len() as int) =~= v@);
    b
}

impl BooleanParameter {
    /// Reads a boolean parameter from its token.
    pub fn parse(s: &str) -> (r: Result<BooleanParameter, ParameterError>)
        ensures
            result_view(r) == boolean_parsed(s@),
    {
        let v = chars_of(s);
        let token = vec!['@', '{', 'b', 'o', 'o', 'l', 'e', 'a', 'n', '}'];
        assert(token@ =~= boolean_token());
        if is_exactly(&v, &token) {
            Ok(BooleanParameter {  })
        } else {
            Err(ParameterError::InvalidParameter)
        }
    }
}

impl std::str::FromStr for BooleanParameter {
    type Err = ParameterError;

    fn from_str(s: &str) -> (r: Result<BooleanParameter, ParameterError>)
        ensures
            result_view(r) == boolean_parsed(s@),
    {
        BooleanParameter::parse(s)
    }
}

/// The text of a drawn boolean: `false` for 0, `true` for any other number.
pub open spec fn boolean_text(drawn: int) -> Seq<char> {
    if drawn == 0 {
        false_text()
    } else {
        true_text()
    }
}

/// The text of a drawn boolean: `false` for 0, `true` for any other number.
pub fn boolean_text_of(drawn: i32) -> (s: String)
    ensures
        s@ == boolean_text(drawn as int),
{
    if drawn == 0 {
        let t = vec!['f', 'a', 'l', 's', 'e'];
        assert(t@ =~= false_text());
        string_from_chars(&t)
    } else {
        let t = vec!['t', 'r', 'u', 'e'];
        assert(t@ =~= true_text());
        string_from_chars(&t)
    }
}

/// `v` is the text of the number the generator handed out for `[0, 1]`,
/// going from `before` to `after`.
pub open spec fn boolean_generated<R: RandomNumberGenerator>(
    before: R,
    after: R,
    v: Seq<char>,
) -> bool {
    exists|r: int| #[trigger] R::drew(before, after, 0, 1, r) && v == boolean_text(r)
}

impl GenerateRandomValues for BooleanParameter {
    open spec fn can_generate(&self) -> bool {
        true
    }

    open spec fn ranges_drawn(&self) -> Seq<(int, int)> {
        seq![(0int, 1int)]
    }

    open spec fn can_produce(&self, v: Seq<char>) -> bool {
        v == true_text() || v == false_text()
    }

    open spec fn needs_in_range(&self) -> bool {
        false
    }

    fn generate_random_value<R: RandomNumberGenerator>(&self, rng: &mut R) -> (v: String)
        ensures
            boolean_generated(*old(rng), *final(rng), v@),
    {
        assert(self.ranges_drawn()[0] == (0int, 1int));
        assert(old(rng).can_draw_within(self.ranges_drawn()[0].0, self.ranges_drawn()[0].1));
        let drawn = rng.generate_range(0, 1);
        let v = boolean_text_of(drawn);
        assert(R::drew(*old(rng), *rng, 0, 1, drawn as int));
        v
    }
}

} // verus!
