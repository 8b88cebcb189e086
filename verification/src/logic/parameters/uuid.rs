//! UUID parameters: `@{uuid}`, which becomes a random version 4 UUID.

use vstd::prelude::*;

use super::syntax::{first_lit, first_lit_exec};
use super::{result_view, ParameterError, ParameterErrorView};
use crate::text::chars_of;

verus! {

/// A parameter that becomes a random UUID.
#[derive(Debug, Clone, Copy)]
pub struct UuidParameter;

pub open spec fn uuid_token() -> Seq<char> {
    seq!['@', '{', 'u', 'u', 'i', 'd', '}']
}

/// Reading a UUID parameter: `s` holds `@{uuid}` somewhere.
pub open spec fn uuid_parsed(s: Seq<char>) -> Result<UuidParameter, ParameterErrorView> {
    if first_lit(s, 0, uuid_token()) is Some {
        Ok(UuidParameter)
    } else {
        Err(ParameterErrorView::InvalidParameter)
    }
}

pub open spec fn is_lower_hex_digit(c: char) -> bool {
    ('0' <= c && c <= '9') || ('a' <= c && c <= 'f')
}

/// The text of a random (version 4) UUID: 36 characters, lower-case hex
/// digits in groups of 8, 4, 4, 4 and 12 parted by `-`, the version digit `4`
/// and a variant digit among `8`, `9`, `a`, `b`.
pub open spec fn is_v4_uuid_text(v: Seq<char>) -> bool {
    &&& v.len() == 36
    &&& forall|i: int|
        0 <= i < 36 ==> if i == 8 || i == 13 || i == 18 || i == 23 {
            #[trigger] v[i] == '-'
        } else {
            is_lower_hex_digit(v[i])
        }
    &&& v[14] == '4'
    &&& (v[19] == '8' || v[19] == '9' || v[19] == 'a' || v[19] == 'b')
}

/// `uuid::Uuid::new_v4` written with `to_string`: a random UUID, which the
/// crate writes as lower-case hyphenated hex with the version and variant
/// bits of version 4 set.
#[verifier::external_body]
fn new_v4_text() -> (s: String)
    ensures
        is_v4_uuid_text(s@),
{
    ::uuid::Uuid::new_v4().to_string()
}

impl UuidParameter {
    /// Reads a UUID parameter from its token.
    pub fn parse(s: &str) -> (r: Result<UuidParameter, ParameterError>)
        ensures
            result_view(r) == uuid_parsed(s@),
    {
        let v = chars_of(s);
        let token = vec!['@', '{', 'u', 'u', 'i', 'd', '}'];
        assert(token@ =~= uuid_token());
        match first_lit_exec(&v, 0, &token) {
            Some(_) => Ok(UuidParameter),
            None => Err(ParameterError::InvalidParameter),
        }
    }

    /// A new random UUID.
    pub fn generate_random_value(&self) -> (v: String)
        ensures
            is_v4_uuid_text(v@),
    {
        new_v4_text()
    }
}

impl std::str::FromStr for UuidParameter {
    type Err = ParameterError;

    fn from_str(s: &str) -> (r: Result<UuidParameter, ParameterError>)
        ensures
            result_view(r) == uuid_parsed(s@),
    {
        UuidParameter::parse(s)
    }
}

} // verus!
