//! Parameters: placeholders such as `@{int[1, 9]}` that a stored command
//! holds and that get a value each time the command is used.

pub mod blank;
pub mod boolean;
pub mod integer;
pub mod parser;
pub mod populator;
pub mod string;
pub mod syntax;
pub mod uuid;

use vstd::prelude::*;

use crate::logic::config::Config;
use populator::RandomNumberGenerator;

verus! {

/// Why a parameter could not be read or given a value.
#[derive(Debug)]
pub enum ParameterError {
    /// A bound did not fit its type: the type's name and the text.
    TypeParsing(String, String),
    InvalidParameter,
    /// A pattern could not be built: the pattern and the reason.
    InvalidRegex(String, String),
    /// The lower bound is above the upper one: both, written in decimal.
    InvalidMinMax(String, String),
    /// A blank parameter has no value: its number (from one) and how many
    /// blank parameters there are.
    MissingBlankParamValues(String, String),
}

/// A [`ParameterError`] with its texts as sequences of characters.
pub enum ParameterErrorView {
    TypeParsing(Seq<char>, Seq<char>),
    InvalidParameter,
    InvalidRegex(Seq<char>, Seq<char>),
    InvalidMinMax(Seq<char>, Seq<char>),
    MissingBlankParamValues(Seq<char>, Seq<char>),
}

impl View for ParameterError {
    type V = ParameterErrorView;

    open spec fn view(&self) -> ParameterErrorView {
        match self {
            ParameterError::TypeParsing(a, b) => ParameterErrorView::TypeParsing(a@, b@),
            ParameterError::InvalidParameter => ParameterErrorView::InvalidParameter,
            ParameterError::InvalidRegex(a, b) => ParameterErrorView::InvalidRegex(a@, b@),
            ParameterError::InvalidMinMax(a, b) => ParameterErrorView::InvalidMinMax(a@, b@),
            ParameterError::MissingBlankParamValues(a, b) => {
                ParameterErrorView::MissingBlankParamValues(a@, b@)
            },
        }
    }
}

/// A result with its error seen as a [`ParameterErrorView`].
pub open spec fn result_view<T>(r: Result<T, ParameterError>) -> Result<T, ParameterErrorView> {
    match r {
        Ok(v) => Ok(v),
        Err(e) => Err(e@),
    }
}

/// Reading a parameter from its token, under the user's configuration.
pub trait FromStrWithConfig: Sized {
    /// What reading `s` under `config` gives.
    spec fn parsed(s: Seq<char>, config: Config) -> Result<Self, ParameterErrorView>;

    fn from_str(s: &str, config: &Config) -> (r: Result<Self, ParameterError>)
        ensures
            result_view(r) == Self::parsed(s@, *config),
    ;
}

/// Whether the generator, in state `rng`, can be asked for each of the ranges.
pub open spec fn draws_all<R: RandomNumberGenerator>(rng: R, ranges: Seq<(int, int)>) -> bool {
    forall|i: int|
        0 <= i < ranges.len() ==> rng.can_draw_within((#[trigger] ranges[i]).0, ranges[i].1)
}

/// Giving a parameter a value drawn from a random number generator.
pub trait GenerateRandomValues {
    /// Whether the parameter's bounds allow a value to be drawn at all.
    spec fn can_generate(&self) -> bool;

    /// The ranges that a value of this parameter is drawn from.
    spec fn ranges_drawn(&self) -> Seq<(int, int)>;

    /// Whether `v` is a value that this parameter can be given.
    spec fn can_produce(&self, v: Seq<char>) -> bool;

    /// Whether drawing a value needs every number drawn to lie in its range
    /// (else it would not end, or would index out of bounds).
    spec fn needs_in_range(&self) -> bool;

    fn generate_random_value<R: RandomNumberGenerator>(&self, rng: &mut R) -> (v: String)
        requires
            self.can_generate(),
            draws_all(*old(rng), self.ranges_drawn()),
            self.needs_in_range() ==> old(rng).stays_in_range(),
        ensures
            forall|l: int, h: int| #[trigger]
                old(rng).can_draw_within(l, h) ==> final(rng).can_draw_within(l, h),
            old(rng).stays_in_range() ==> final(rng).stays_in_range() && self.can_produce(v@),
    ;
}

} // verus!
