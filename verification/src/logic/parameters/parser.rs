//! Reading the parameters of a command.

use vstd::prelude::*;

use super::blank::{blank_parsed, BlankParameter};
use super::boolean::{boolean_generated, boolean_parsed, BooleanParameter};
use super::integer::{int_generated, int_parsed, int_plain, law_bare_int_takes_config_range, IntParameter};
use super::populator::RandomNumberGenerator;
use super::string::{string_head, string_parsed, string_plain, text_generated, StringParameter};
use super::syntax::{
    blank_at, first_capture, is_open_at, lemma_skip_white, lit_at, skip_white, split_parameter_tokens,
    split_parameters,
};
use super::{FromStrWithConfig, GenerateRandomValues, ParameterError, ParameterErrorView};
use crate::logic::config::Config;
use crate::logic::Logic;
use crate::text::chars_of;

verus! {

/// A parameter of any kind, as read from its token.
#[derive(Debug, Clone, Copy)]
pub enum SerializableParameter {
    Int(IntParameter),
    String(StringParameter),
    Boolean(BooleanParameter),
    Blank,
}

/// `v` is the value that `p` takes from the generator's draws, going from
/// `before` to `after`; a blank parameter draws nothing and takes no value.
pub open spec fn param_generated<R: RandomNumberGenerator>(
    p: SerializableParameter,
    before: R,
    after: R,
    v: Seq<char>,
) -> bool {
    match p {
        SerializableParameter::Int(q) => int_generated(q.min as int, q.max as int, before, after, v),
        SerializableParameter::String(q) => text_generated(
            q.min as int,
            q.max as int,
            before,
            after,
            v,
        ),
        SerializableParameter::Boolean(_) => boolean_generated(before, after, v),
        SerializableParameter::Blank => after == before && v.len() == 0,
    }
}

impl GenerateRandomValues for SerializableParameter {
    open spec fn can_generate(&self) -> bool {
        match self {
            SerializableParameter::Int(p) => p.can_generate(),
            SerializableParameter::String(p) => p.can_generate(),
            SerializableParameter::Boolean(p) => p.can_generate(),
            SerializableParameter::Blank => true,
        }
    }

    open spec fn ranges_drawn(&self) -> Seq<(int, int)> {
        match self {
            SerializableParameter::Int(p) => p.ranges_drawn(),
            SerializableParameter::String(p) => p.ranges_drawn(),
            SerializableParameter::Boolean(p) => p.ranges_drawn(),
            SerializableParameter::Blank => seq![],
        }
    }

    open spec fn can_produce(&self, v: Seq<char>) -> bool {
        match self {
            SerializableParameter::Int(p) => p.can_produce(v),
            SerializableParameter::String(p) => p.can_produce(v),
            SerializableParameter::Boolean(p) => p.can_produce(v),
            SerializableParameter::Blank => v.len() == 0,
        }
    }

    open spec fn needs_in_range(&self) -> bool {
        match self {
            SerializableParameter::Int(p) => p.needs_in_range(),
            SerializableParameter::String(p) => p.needs_in_range(),
            SerializableParameter::Boolean(p) => p.needs_in_range(),
            SerializableParameter::Blank => false,
        }
    }

    fn generate_random_value<R: RandomNumberGenerator>(&self, rng: &mut R) -> (v: String)
        ensures
            param_generated(*self, *old(rng), *final(rng), v@),
    {
        match self {
            SerializableParameter::Int(p) => p.generate_random_value(rng),
            SerializableParameter::String(p) => p.generate_random_value(rng),
            SerializableParameter::Boolean(p) => p.generate_random_value(rng),
            SerializableParameter::Blank => String::new(),
        }
    }
}

/// Reading one token: the first kind that takes it, tried in the order blank,
/// string, integer, boolean.
pub open spec fn parameter_parsed(tok: Seq<char>, config: Config) -> Result<
    SerializableParameter,
    ParameterErrorView,
> {
    if blank_parsed(tok) is Ok {
        Ok(SerializableParameter::Blank)
    } else if string_parsed(tok, config) is Ok {
        Ok(SerializableParameter::String(string_parsed(tok, config)->Ok_0))
    } else if int_parsed(tok, config) is Ok {
        Ok(SerializableParameter::Int(int_parsed(tok, config)->Ok_0))
    } else if boolean_parsed(tok) is Ok {
        Ok(SerializableParameter::Boolean(boolean_parsed(tok)->Ok_0))
    } else {
        Err(ParameterErrorView::InvalidParameter)
    }
}

/// Reading a command: its texts and its tokens, every token read as a
/// parameter; no parameter when one token is none.
pub open spec fn parameters_parsed(s: Seq<char>, config: Config) -> Result<
    (Seq<Seq<char>>, Seq<SerializableParameter>),
    ParameterErrorView,
> {
    let texts = split_parameters(s).0;
    let toks = split_parameters(s).1;
    if forall|i: int| 0 <= i < toks.len() ==> (#[trigger] parameter_parsed(toks[i], config)) is Ok {
        Ok((texts, Seq::new(toks.len(), |i: int| parameter_parsed(toks[i], config)->Ok_0)))
    } else {
        Err(ParameterErrorView::InvalidParameter)
    }
}

impl Logic {
    /// Reads the parameters of a command: the texts between them (one more
    /// than the parameters) and the parameters.
    pub fn parse_parameters(&self, command: String) -> (r: Result<
        (Vec<String>, Vec<SerializableParameter>),
        ParameterError,
    >)
        ensures
            match r {
                Ok((texts, params)) => parameters_parsed(command@, self.config) == Ok::<
                    (Seq<Seq<char>>, Seq<SerializableParameter>),
                    ParameterErrorView,
                >((texts.deep_view(), params@)),
                Err(e) => parameters_parsed(command@, self.config) == Err::<
                    (Seq<Seq<char>>, Seq<SerializableParameter>),
                    ParameterErrorView,
                >(e@),
            },
            r matches Ok((texts, params)) ==> texts@.len() == params@.len() + 1,
    {
        let v = chars_of(command.as_str());
        let (texts, tokens) = split_parameter_tokens(&v);
        let ghost toks = split_parameters(command@).1;
        let mut params: Vec<SerializableParameter> = Vec::new();
        let mut i: usize = 0;
        while i < tokens.len()
            invariant
                i <= tokens@.len(),
                tokens.deep_view() == toks,
                toks == split_parameters(command@).1,
                params@.len() == i,
                forall|j: int| 0 <= j < i ==> (#[trigger] parameter_parsed(toks[j], self.config)) is Ok,
                forall|j: int|
                    0 <= j < i ==> params@[j] == (#[trigger] parameter_parsed(
                        toks[j],
                        self.config,
                    ))->Ok_0,
            decreases tokens.len() - i,
        {
            assert(tokens.deep_view()[i as int] == tokens@[i as int]@);
            match self.parse_parameter(tokens[i].clone()) {
                Ok(p) => {
                    params.push(p);
                },
                Err(e) => {
                    assert(!(parameter_parsed(toks[i as int], self.config) is Ok));
                    assert(e@ == ParameterErrorView::InvalidParameter);
                    assert(!(forall|j: int|
                        0 <= j < toks.len() ==> (#[trigger] parameter_parsed(
                            toks[j],
                            self.config,
                        )) is Ok));
                    assert(parameters_parsed(command@, self.config) == Err::<
                        (Seq<Seq<char>>, Seq<SerializableParameter>),
                        ParameterErrorView,
                    >(ParameterErrorView::InvalidParameter));
                    return Err(e);
                },
            }
            i = i + 1;
        }
        assert(params@ =~= Seq::new(toks.len(), |j: int| parameter_parsed(toks[j], self.config)->Ok_0));
        Ok((texts, params))
    }

    /// Reads one token as a parameter.
    pub fn parse_parameter(&self, s: String) -> (r: Result<SerializableParameter, ParameterError>)
        ensures
            match r {
                Ok(p) => parameter_parsed(s@, self.config) == Ok::<
                    SerializableParameter,
                    ParameterErrorView,
                >(p),
                Err(e) => parameter_parsed(s@, self.config) == Err::<
                    SerializableParameter,
                    ParameterErrorView,
                >(e@),
            },
    {
        if let Ok(_) = BlankParameter::parse(s.as_str()) {
            return Ok(SerializableParameter::Blank);
        }
        if let Ok(string_param) = StringParameter::from_str(s.as_str(), &self.config) {
            return Ok(SerializableParameter::String(string_param));
        }
        if let Ok(int_param) = IntParameter::from_str(s.as_str(), &self.config) {
            return Ok(SerializableParameter::Int(int_param));
        }
        if let Ok(bool_param) = BooleanParameter::parse(s.as_str()) {
            return Ok(SerializableParameter::Boolean(bool_param));
        }
        Err(ParameterError::InvalidParameter)
    }
}

/// Reading the token `@{int}` gives an integer parameter with the configured
/// integer range, for every configuration whose range is in order.
pub proof fn law_bare_int_token_reads_config_range(config: Config)
    requires
        config.param_int_range_min <= config.param_int_range_max,
    ensures
        parameter_parsed(int_plain(), config) == Ok::<SerializableParameter, ParameterErrorView>(
            SerializableParameter::Int(
                IntParameter { min: config.param_int_range_min, max: config.param_int_range_max },
            ),
        ),
{
    let s = int_plain();
    law_bare_int_takes_config_range(config);
    assert forall|p: int| !blank_at(s, p) by {
        if 0 <= p && p + 2 <= s.len() && is_open_at(s, p) {
            assert(p == 0);
            lemma_skip_white(s, 2);
            assert(skip_white(s, 2) == 2);
        }
    }
    reveal_with_fuel(first_capture, 8);
    assert(!lit_at(s, 0, string_head()) && !lit_at(s, 0, string_plain())) by {
        assert(s.subrange(0, 6) =~= s);
    }
    assert(first_capture(s, 0, string_head(), string_plain(), true, false) is None);
}

} // verus!
