//! Blank parameters: `@{}` (whitespace allowed inside), filled in by the user.

use vstd::prelude::*;

use super::syntax::{blank_at, has_blank_exec};
use super::{result_view, ParameterError, ParameterErrorView};
use crate::text::chars_of;

verus! {

/// A parameter whose value the user types in.
#[derive(Debug, Clone, Copy)]
pub struct BlankParameter;

/// Reading a blank parameter: `s` holds `@{`, whitespace, `}` somewhere.
pub open spec fn blank_parsed(s: Seq<char>) -> Result<BlankParameter, ParameterErrorView> {
    if exists|p: int| blank_at(s, p) {
        Ok(BlankParameter)
    } else {
        Err(ParameterErrorView::InvalidParameter)
    }
}

impl BlankParameter {
    /// Reads a blank parameter from its token.
    pub fn parse(s: &str) -> (r: Result<BlankParameter, ParameterError>)
        ensures
            result_view(r) == blank_parsed(s@),
    {
        let v = chars_of(s);
        if has_blank_exec(&v) {
            Ok(BlankParameter)
        } else {
            Err(ParameterError::InvalidParameter)
        }
    }
}

impl std::str::FromStr for BlankParameter {
    type Err = ParameterError;

    fn from_str(s: &str) -> (r: Result<BlankParameter, ParameterError>)
        ensures
            result_view(r) == blank_parsed(s@),
    {
        BlankParameter::parse(s)
    }
}

} // verus!
