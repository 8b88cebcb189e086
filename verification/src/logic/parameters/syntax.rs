//! The written form of parameters inside a command: tokens `@{...}`, and the
//! patterns that each kind of parameter accepts inside a token.

use crate::text::{
    all_ascii_digits, digit_value, digits_value, is_ascii_digit, is_decimal_digit,
    is_decimal_digit_char, is_white_space, is_white_space_char, string_from_range,
};
use vstd::prelude::*;

verus! {

// ----------------------------------------------------------------------------
// Tokens
// ----------------------------------------------------------------------------

/// `@{` starts at `i`.
pub open spec fn is_open_at(s: Seq<char>, i: int) -> bool {
    0 <= i && i + 1 < s.len() && s[i] == '@' && s[i + 1] == '{'
}

/// The first `}` at or after `from`.
pub open spec fn first_close(s: Seq<char>, from: int) -> Option<int>
    decreases s.len() - from,
{
    if from < 0 || from >= s.len() {
        None
    } else if s[from] == '}' {
        Some(from)
    } else {
        first_close(s, from + 1)
    }
}

/// The leftmost parameter token at or after `from`, as its start and its end
/// (exclusive): `@{`, then anything but `}`, then `}`.
pub open spec fn next_token(s: Seq<char>, from: int) -> Option<(int, int)>
    decreases s.len() - from,
{
    if from < 0 || from + 1 >= s.len() {
        None
    } else if is_open_at(s, from) {
        match first_close(s, from + 2) {
            Some(j) => Some((from, j + 1)),
            None => None,
        }
    } else {
        next_token(s, from + 1)
    }
}

/// Cuts `s[from..]` at its parameter tokens: the texts between the tokens
/// (one more than the tokens) and the tokens themselves.
pub open spec fn split_from(s: Seq<char>, from: int) -> (Seq<Seq<char>>, Seq<Seq<char>>)
    decreases s.len() - from,
{
    if from < 0 || from > s.len() {
        (seq![], seq![])
    } else {
        match next_token(s, from) {
            Some((a, b)) => if from <= a && a < b && b <= s.len() {
                let rest = split_from(s, b);
                (seq![s.subrange(from, a)] + rest.0, seq![s.subrange(a, b)] + rest.1)
            } else {
                (seq![], seq![])
            },
            None => (seq![s.subrange(from, s.len() as int)], seq![]),
        }
    }
}

/// The texts and the parameter tokens of a command.
pub open spec fn split_parameters(s: Seq<char>) -> (Seq<Seq<char>>, Seq<Seq<char>>) {
    split_from(s, 0)
}

/// The first `k` texts, each followed by its value: `t0 v0 ... t(k-1) v(k-1)`.
pub open spec fn pairs_joined(texts: Seq<Seq<char>>, values: Seq<Seq<char>>, k: int) -> Seq<char>
    decreases k,
{
    if k <= 0 {
        seq![]
    } else {
        pairs_joined(texts, values, k - 1) + texts[k - 1] + values[k - 1]
    }
}

/// The texts and the values put back in turn: `t0 v0 t1 v1 ... tn`.
pub open spec fn interleave(texts: Seq<Seq<char>>, values: Seq<Seq<char>>) -> Seq<char> {
    if texts.len() == 0 {
        seq![]
    } else {
        pairs_joined(texts, values, texts.len() - 1) + texts.last()
    }
}

pub proof fn lemma_pairs_joined_cons(
    x: Seq<char>,
    k: Seq<char>,
    texts: Seq<Seq<char>>,
    values: Seq<Seq<char>>,
    m: int,
)
    requires
        0 <= m <= texts.len(),
        m <= values.len(),
    ensures
        pairs_joined(seq![x] + texts, seq![k] + values, m + 1) == x + k + pairs_joined(
            texts,
            values,
            m,
        ),
    decreases m,
{
    if m > 0 {
        lemma_pairs_joined_cons(x, k, texts, values, m - 1);
        assert((seq![x] + texts)[m] == texts[m - 1]);
        assert((seq![k] + values)[m] == values[m - 1]);
    } else {
        assert(pairs_joined(seq![x] + texts, seq![k] + values, 0) == Seq::<char>::empty());
        assert(pairs_joined(texts, values, 0) == Seq::<char>::empty());
        assert((seq![x] + texts)[0] == x);
        assert((seq![k] + values)[0] == k);
    }
}

/// Only the first `k` values count.
pub proof fn lemma_pairs_joined_prefix(
    texts: Seq<Seq<char>>,
    v1: Seq<Seq<char>>,
    v2: Seq<Seq<char>>,
    k: int,
)
    requires
        k <= v1.len(),
        k <= v2.len(),
        forall|j: int| 0 <= j < k ==> v1[j] == v2[j],
    ensures
        pairs_joined(texts, v1, k) == pairs_joined(texts, v2, k),
    decreases k,
{
    if k > 0 {
        lemma_pairs_joined_prefix(texts, v1, v2, k - 1);
    }
}

/// Putting back a first text and a first value in front.
pub proof fn lemma_interleave_cons(
    x: Seq<char>,
    k: Seq<char>,
    texts: Seq<Seq<char>>,
    values: Seq<Seq<char>>,
)
    requires
        texts.len() == values.len() + 1,
    ensures
        interleave(seq![x] + texts, seq![k] + values) == x + k + interleave(texts, values),
{
    lemma_pairs_joined_cons(x, k, texts, values, texts.len() - 1);
    assert((seq![x] + texts).last() == texts.last());
}

/// No `}` in `s[from..to]`.
pub open spec fn no_close_in(s: Seq<char>, from: int, to: int) -> bool {
    forall|k: int| from <= k < to ==> s[k] != '}'
}

pub proof fn lemma_first_close(s: Seq<char>, from: int)
    requires
        0 <= from,
    ensures
        match first_close(s, from) {
            Some(j) => from <= j < s.len() && s[j] == '}' && no_close_in(s, from, j),
            None => no_close_in(s, from, s.len() as int),
        },
    decreases s.len() - from,
{
    if from < s.len() && s[from] != '}' {
        lemma_first_close(s, from + 1);
    }
}

pub proof fn lemma_next_token(s: Seq<char>, from: int)
    requires
        0 <= from,
    ensures
        match next_token(s, from) {
            Some((a, b)) => {
                &&& from <= a
                &&& a + 3 <= b <= s.len()
                &&& is_open_at(s, a)
                &&& s[b - 1] == '}'
                &&& no_close_in(s, a + 2, b - 1)
                &&& forall|k: int| from <= k < a ==> !is_open_at(s, k)
            },
            None => true,
        },
    decreases s.len() - from,
{
    if from + 1 < s.len() {
        if is_open_at(s, from) {
            lemma_first_close(s, from + 2);
        } else {
            lemma_next_token(s, from + 1);
        }
    }
}

/// Every text has no token in it, and text and tokens put back together give
/// the command again.
pub proof fn lemma_split_from(s: Seq<char>, from: int)
    requires
        0 <= from <= s.len(),
    ensures
        split_from(s, from).0.len() == split_from(s, from).1.len() + 1,
        interleave(split_from(s, from).0, split_from(s, from).1) == s.subrange(from, s.len() as int),
    decreases s.len() - from,
{
    lemma_next_token(s, from);
    match next_token(s, from) {
        Some((a, b)) => {
            lemma_split_from(s, b);
            let rest = split_from(s, b);
            lemma_interleave_cons(s.subrange(from, a), s.subrange(a, b), rest.0, rest.1);
            assert(s.subrange(from, s.len() as int) =~= s.subrange(from, a) + s.subrange(a, b)
                + s.subrange(b, s.len() as int));
        },
        None => {
            assert(pairs_joined(seq![s.subrange(from, s.len() as int)], seq![], 0)
                =~= Seq::<char>::empty());
        },
    }
}


/// Putting the parameter tokens back between the texts around them gives the
/// command again, and there is one text more than tokens.
pub proof fn law_split_round_trip(s: Seq<char>)
    ensures
        split_parameters(s).0.len() == split_parameters(s).1.len() + 1,
        interleave(split_parameters(s).0, split_parameters(s).1) == s,
{
    lemma_split_from(s, 0);
    assert(s.subrange(0, s.len() as int) =~= s);
}

/// Finds the end of the first `}` at or after `from`.
pub fn find_close(s: &Vec<char>, from: usize) -> (r: Option<usize>)
    ensures
        match r {
            Some(j) => first_close(s@, from as int) == Some(j as int),
            None => first_close(s@, from as int) is None,
        },
{
    let mut i = from;
    while i < s.len()
        invariant
            from <= i,
            first_close(s@, from as int) == first_close(s@, i as int),
        decreases s.len() - i,
    {
        if s[i] == '}' {
            return Some(i);
        }
        i = i + 1;
    }
    None
}

/// Finds the leftmost parameter token at or after `from`.
pub fn find_next_token(s: &Vec<char>, from: usize) -> (r: Option<(usize, usize)>)
    ensures
        match r {
            Some((a, b)) => next_token(s@, from as int) == Some((a as int, b as int)),
            None => next_token(s@, from as int) is None,
        },
{
    let mut i = from;
    while s.len() > 1 && i < s.len() - 1
        invariant
            from <= i,
            next_token(s@, from as int) == next_token(s@, i as int),
        decreases s.len() - i,
    {
        if s[i] == '@' && s[i + 1] == '{' {
            proof {
                lemma_first_close(s@, i + 2);
            }
            match find_close(s, i + 2) {
                Some(j) => {
                    return Some((i, j + 1));
                },
                None => {
                    return None;
                },
            }
        }
        i = i + 1;
    }
    None
}

/// Cuts a command at its parameter tokens: the texts between the tokens and
/// the tokens.
pub fn split_parameter_tokens(s: &Vec<char>) -> (r: (Vec<String>, Vec<String>))
    ensures
        r.0.deep_view() == split_parameters(s@).0,
        r.1.deep_view() == split_parameters(s@).1,
        r.0@.len() == r.1@.len() + 1,
{
    let mut texts: Vec<String> = Vec::new();
    let mut tokens: Vec<String> = Vec::new();
    let mut pos: usize = 0;
    loop
        invariant
            pos <= s@.len(),
            split_parameters(s@).0 == texts.deep_view() + split_from(s@, pos as int).0,
            split_parameters(s@).1 == tokens.deep_view() + split_from(s@, pos as int).1,
            texts@.len() == tokens@.len(),
        decreases s@.len() - pos,
    {
        proof {
            lemma_next_token(s@, pos as int);
        }
        match find_next_token(s, pos) {
            Some((a, b)) => {
                let ghost rest = split_from(s@, b as int);
                let t = string_from_range(s, pos, a);
                let k = string_from_range(s, a, b);
                texts.push(t);
                tokens.push(k);
                assert(texts.deep_view() + rest.0 =~= texts.deep_view().drop_last() + (seq![
                    s@.subrange(pos as int, a as int),
                ] + rest.0));
                assert(tokens.deep_view() + rest.1 =~= tokens.deep_view().drop_last() + (seq![
                    s@.subrange(a as int, b as int),
                ] + rest.1));
                pos = b;
            },
            None => {
                let t = string_from_range(s, pos, s.len());
                texts.push(t);
                assert(texts.deep_view() =~= texts.deep_view().drop_last() + split_from(
                    s@,
                    pos as int,
                ).0);
                assert(tokens.deep_view() =~= tokens.deep_view() + split_from(s@, pos as int).1);
                return (texts, tokens);
            },
        }
    }
}

// ----------------------------------------------------------------------------
// Patterns inside a token
// ----------------------------------------------------------------------------

/// `lit` is written at `p`.
pub open spec fn lit_at(s: Seq<char>, p: int, lit: Seq<char>) -> bool {
    0 <= p && p + lit.len() <= s.len() && s.subrange(p, p + lit.len()) == lit
}

/// The end of the run of decimal digits (of any script) that starts at
/// `from`.
pub open spec fn digits_end(s: Seq<char>, from: int) -> int
    decreases s.len() - from,
{
    if from < 0 || from >= s.len() || !is_decimal_digit(s[from]) {
        from
    } else {
        digits_end(s, from + 1)
    }
}

/// The end of a number (`-` when `signed`, then one digit or more) that starts
/// at `from`.
pub open spec fn number_end(s: Seq<char>, from: int, signed: bool) -> Option<int> {
    let start = if signed && 0 <= from < s.len() && s[from] == '-' {
        from + 1
    } else {
        from
    };
    if digits_end(s, start) > start {
        Some(digits_end(s, start))
    } else {
        None
    }
}

/// The first position at or after `from` that is not whitespace.
pub open spec fn skip_white(s: Seq<char>, from: int) -> int
    decreases s.len() - from,
{
    if from < 0 || from >= s.len() || !is_white_space(s[from]) {
        from
    } else {
        skip_white(s, from + 1)
    }
}

pub open spec fn close_range_lit() -> Seq<char> {
    seq![']', '}']
}

/// `head`, a number, `,`, whitespace, a number and `]}`, written at `p`: the
/// bounds of the two numbers.
pub open spec fn range_at(s: Seq<char>, p: int, head: Seq<char>, signed: bool) -> Option<
    (int, int, int, int),
> {
    if !lit_at(s, p, head) {
        None
    } else {
        let a1 = p + head.len();
        match number_end(s, a1, signed) {
            None => None,
            Some(b1) => if b1 < s.len() && s[b1] == ',' {
                let a2 = skip_white(s, b1 + 1);
                match number_end(s, a2, signed) {
                    None => None,
                    Some(b2) => if lit_at(s, b2, close_range_lit()) {
                        Some((a1, b1, a2, b2))
                    } else {
                        None
                    },
                }
            } else {
                None
            },
        }
    }
}

/// What the leftmost match of a parameter pattern holds.
pub enum Capture {
    /// The bare form, such as `@{int}`.
    Plain,
    /// The form with a range, and where its two numbers are written.
    Ranged { min_start: int, min_end: int, max_start: int, max_end: int },
}

/// The leftmost match at or after `from` of the pattern `head` + range, or,
/// when `has_plain`, of the bare form `plain`; at one position the form with
/// a range is tried first.
pub open spec fn first_capture(
    s: Seq<char>,
    from: int,
    head: Seq<char>,
    plain: Seq<char>,
    has_plain: bool,
    signed: bool,
) -> Option<Capture>
    decreases s.len() - from,
{
    if from < 0 || from >= s.len() {
        None
    } else {
        match range_at(s, from, head, signed) {
            Some((a1, b1, a2, b2)) => Some(
                Capture::Ranged { min_start: a1, min_end: b1, max_start: a2, max_end: b2 },
            ),
            None => if has_plain && lit_at(s, from, plain) {
                Some(Capture::Plain)
            } else {
                first_capture(s, from + 1, head, plain, has_plain, signed)
            },
        }
    }
}

pub proof fn lemma_first_capture(
    s: Seq<char>,
    from: int,
    head: Seq<char>,
    plain: Seq<char>,
    has_plain: bool,
    signed: bool,
)
    requires
        0 <= from,
    ensures
        first_capture(s, from, head, plain, has_plain, signed) matches Some(
            Capture::Ranged { min_start, min_end, max_start, max_end },
        ) ==> {
            &&& min_start < min_end < max_start < max_end
            &&& max_end + 2 <= s.len()
            &&& number_end(s, min_start, signed) == Some(min_end)
            &&& number_end(s, max_start, signed) == Some(max_end)
        },
    decreases s.len() - from,
{
    if from < s.len() {
        lemma_range_at(s, from, head, signed);
        if range_at(s, from, head, signed) is None {
            lemma_first_capture(s, from + 1, head, plain, has_plain, signed);
        }
    }
}

/// The first position at or after `from` where `lit` is written.
pub open spec fn first_lit(s: Seq<char>, from: int, lit: Seq<char>) -> Option<int>
    decreases s.len() - from,
{
    if from < 0 || from >= s.len() {
        None
    } else if lit_at(s, from, lit) {
        Some(from)
    } else {
        first_lit(s, from + 1, lit)
    }
}

/// `@{`, whitespace, `}` written at `p`.
pub open spec fn blank_at(s: Seq<char>, p: int) -> bool {
    is_open_at(s, p) && skip_white(s, p + 2) < s.len() && s[skip_white(s, p + 2)] == '}'
}

/// Whether the digits of a number as written (after its `-`, if any) are
/// all ASCII ones, the only ones that `str::parse` reads.
pub open spec fn ascii_number(t: Seq<char>) -> bool {
    if t.len() > 0 && t[0] == '-' {
        all_ascii_digits(t.drop_first())
    } else {
        all_ascii_digits(t)
    }
}

/// The value of a number as written: an optional `-`, then digits.
pub open spec fn number_value(t: Seq<char>) -> int {
    if t.len() > 0 && t[0] == '-' {
        -digits_value(t.drop_first())
    } else {
        digits_value(t) as int
    }
}

pub proof fn lemma_digits_end(s: Seq<char>, from: int)
    requires
        0 <= from <= s.len(),
    ensures
        from <= digits_end(s, from) <= s.len(),
        forall|k: int| from <= k < digits_end(s, from) ==> is_decimal_digit(#[trigger] s[k]),
    decreases s.len() - from,
{
    if from < s.len() && is_decimal_digit(s[from]) {
        lemma_digits_end(s, from + 1);
    }
}

pub proof fn lemma_skip_white(s: Seq<char>, from: int)
    requires
        0 <= from <= s.len(),
    ensures
        from <= skip_white(s, from) <= s.len(),
        skip_white(s, from) < s.len() ==> !is_white_space(s[skip_white(s, from)]),
    decreases s.len() - from,
{
    if from < s.len() && is_white_space(s[from]) {
        lemma_skip_white(s, from + 1);
    }
}

/// Whether `lit` is written at `p`.
pub fn lit_at_exec(s: &Vec<char>, p: usize, lit: &Vec<char>) -> (b: bool)
    ensures
        b == lit_at(s@, p as int, lit@),
{
    if p > s.len() || lit.len() > s.len() - p {
        return false;
    }
    let mut k: usize = 0;
    while k < lit.len()
        invariant
            p + lit@.len() <= s@.len(),
            k <= lit@.len(),
            forall|j: int| 0 <= j < k ==> s@[p + j] == lit@[j],
        decreases lit.len() - k,
    {
        assert(p + k < s.len());
        if s[p + k] != lit[k] {
            assert(s@.subrange(p as int, p + lit@.len())[k as int] != lit@[k as int]);
            return false;
        }
        k = k + 1;
    }
    assert(s@.subrange(p as int, p + lit@.len()) =~= lit@);
    true
}

/// The end of the run of decimal digits that starts at `from`.
pub fn digits_end_exec(s: &Vec<char>, from: usize) -> (e: usize)
    requires
        from <= s@.len(),
    ensures
        e == digits_end(s@, from as int),
{
    let mut i = from;
    while i < s.len() && is_decimal_digit_char(s[i])
        invariant
            from <= i <= s@.len(),
            digits_end(s@, from as int) == digits_end(s@, i as int),
        decreases s.len() - i,
    {
        i = i + 1;
    }
    i
}

/// The end of the number that starts at `from`, if one does.
pub fn number_end_exec(s: &Vec<char>, from: usize, signed: bool) -> (r: Option<usize>)
    requires
        from <= s@.len(),
    ensures
        match r {
            Some(e) => number_end(s@, from as int, signed) == Some(e as int),
            None => number_end(s@, from as int, signed) is None,
        },
{
    let start = if signed && from < s.len() && s[from] == '-' {
        from + 1
    } else {
        from
    };
    let e = digits_end_exec(s, start);
    if e > start {
        Some(e)
    } else {
        None
    }
}

/// The first position at or after `from` that is not whitespace.
pub fn skip_white_exec(s: &Vec<char>, from: usize) -> (e: usize)
    requires
        from <= s@.len(),
    ensures
        e == skip_white(s@, from as int),
{
    let mut i = from;
    while i < s.len() && is_white_space_char(s[i])
        invariant
            from <= i <= s@.len(),
            skip_white(s@, from as int) == skip_white(s@, i as int),
        decreases s.len() - i,
    {
        i = i + 1;
    }
    i
}

/// Where the two numbers of a range form at `p` are written, if it is there.
pub fn range_at_exec(s: &Vec<char>, p: usize, head: &Vec<char>, signed: bool) -> (r: Option<
    (usize, usize, usize, usize),
>)
    ensures
        match r {
            Some((a1, b1, a2, b2)) => range_at(s@, p as int, head@, signed) == Some(
                (a1 as int, b1 as int, a2 as int, b2 as int),
            ),
            None => range_at(s@, p as int, head@, signed) is None,
        },
{
    if !lit_at_exec(s, p, head) {
        return None;
    }
    assert(p + head.len() <= s.len());
    let a1 = p + head.len();
    proof {
        lemma_digits_end(s@, a1 as int);
        if a1 < s@.len() {
            lemma_digits_end(s@, a1 + 1);
        }
    }
    match number_end_exec(s, a1, signed) {
        None => None,
        Some(b1) => {
            if b1 < s.len() && s[b1] == ',' {
                let a2 = skip_white_exec(s, b1 + 1);
                proof {
                    lemma_skip_white(s@, b1 + 1);
                    lemma_digits_end(s@, a2 as int);
                    if a2 < s@.len() {
                        lemma_digits_end(s@, a2 + 1);
                    }
                }
                match number_end_exec(s, a2, signed) {
                    None => None,
                    Some(b2) => {
                        let close = vec![']', '}'];
                        assert(close@ =~= close_range_lit());
                        if lit_at_exec(s, b2, &close) {
                            Some((a1, b1, a2, b2))
                        } else {
                            None
                        }
                    },
                }
            } else {
                None
            }
        },
    }
}

/// What the leftmost match of a parameter pattern holds, where the numbers
/// are written.
pub enum Found {
    Plain,
    Ranged(usize, usize, usize, usize),
}

pub open spec fn found_is(f: Found, c: Capture) -> bool {
    match (f, c) {
        (Found::Plain, Capture::Plain) => true,
        (
            Found::Ranged(a1, b1, a2, b2),
            Capture::Ranged { min_start, min_end, max_start, max_end },
        ) => a1 == min_start && b1 == min_end && a2 == max_start && b2 == max_end,
        _ => false,
    }
}

pub proof fn lemma_range_at(s: Seq<char>, p: int, head: Seq<char>, signed: bool)
    requires
        0 <= p,
    ensures
        match range_at(s, p, head, signed) {
            Some((a1, b1, a2, b2)) => {
                &&& a1 == p + head.len()
                &&& a1 < b1 < a2 < b2
                &&& b2 + 2 <= s.len()
                &&& number_end(s, a1, signed) == Some(b1)
                &&& number_end(s, a2, signed) == Some(b2)
            },
            None => true,
        },
{
    if lit_at(s, p, head) {
        let a1 = p + head.len();
        lemma_digits_end(s, a1);
        if a1 < s.len() {
            lemma_digits_end(s, a1 + 1);
        }
        match number_end(s, a1, signed) {
            Some(b1) => if b1 < s.len() && s[b1] == ',' {
                lemma_skip_white(s, b1 + 1);
                let a2 = skip_white(s, b1 + 1);
                lemma_digits_end(s, a2);
                if a2 < s.len() {
                    lemma_digits_end(s, a2 + 1);
                }
            },
            None => {},
        }
    }
}

/// The leftmost match at or after `from` of a parameter pattern.
pub fn first_capture_exec(
    s: &Vec<char>,
    from: usize,
    head: &Vec<char>,
    plain: &Vec<char>,
    has_plain: bool,
    signed: bool,
) -> (r: Option<Found>)
    ensures
        match r {
            Some(f) => first_capture(s@, from as int, head@, plain@, has_plain, signed) matches Some(
                c,
            ) && found_is(f, c),
            None => first_capture(s@, from as int, head@, plain@, has_plain, signed) is None,
        },
{
    let mut p = from;
    while p < s.len()
        invariant
            from <= p,
            first_capture(s@, from as int, head@, plain@, has_plain, signed) == first_capture(
                s@,
                p as int,
                head@,
                plain@,
                has_plain,
                signed,
            ),
        decreases s.len() - p,
    {
        match range_at_exec(s, p, head, signed) {
            Some((a1, b1, a2, b2)) => {
                return Some(Found::Ranged(a1, b1, a2, b2));
            },
            None => {
                if has_plain && lit_at_exec(s, p, plain) {
                    return Some(Found::Plain);
                }
            },
        }
        p = p + 1;
    }
    None
}

/// The first position at or after `from` where `lit` is written.
pub fn first_lit_exec(s: &Vec<char>, from: usize, lit: &Vec<char>) -> (r: Option<usize>)
    ensures
        match r {
            Some(p) => first_lit(s@, from as int, lit@) == Some(p as int),
            None => first_lit(s@, from as int, lit@) is None,
        },
{
    let mut p = from;
    while p < s.len()
        invariant
            from <= p,
            first_lit(s@, from as int, lit@) == first_lit(s@, p as int, lit@),
        decreases s.len() - p,
    {
        if lit_at_exec(s, p, lit) {
            return Some(p);
        }
        p = p + 1;
    }
    None
}

/// Whether a blank token (`@{`, whitespace, `}`) is written anywhere in `s`.
pub fn has_blank_exec(s: &Vec<char>) -> (b: bool)
    ensures
        b == exists|p: int| blank_at(s@, p),
{
    let mut p: usize = 0;
    while p < s.len()
        invariant
            forall|q: int| 0 <= q < p ==> !blank_at(s@, q),
        decreases s.len() - p,
    {
        if p + 1 < s.len() && s[p] == '@' && s[p + 1] == '{' {
            let e = skip_white_exec(s, p + 2);
            proof {
                lemma_skip_white(s@, p + 2);
            }
            if e < s.len() && s[e] == '}' {
                assert(blank_at(s@, p as int));
                return true;
            }
        }
        p = p + 1;
    }
    assert forall|q: int| blank_at(s@, q) implies false by {
        assert(0 <= q < s@.len());
    }
    false
}

/// A value kept below a cap, so that a number of any length can be read
/// without overflow and still be compared with the bounds of 32-bit integers.
pub open spec fn capped(v: nat) -> nat {
    if v < 0x1_0000_0000 {
        v
    } else {
        0x1_0000_0000
    }
}

/// The value of the digits `s[a..b]`, capped.
pub fn digits_value_capped(s: &Vec<char>, a: usize, b: usize) -> (v: u64)
    requires
        a <= b <= s@.len(),
        forall|k: int| a <= k < b ==> is_ascii_digit(#[trigger] s@[k]),
    ensures
        v == capped(digits_value(s@.subrange(a as int, b as int))),
{
    let mut acc: u64 = 0;
    let mut k = a;
    assert(s@.subrange(a as int, a as int) =~= Seq::<char>::empty());
    while k < b
        invariant
            a <= k <= b <= s@.len(),
            forall|j: int| a <= j < b ==> is_ascii_digit(#[trigger] s@[j]),
            acc == capped(digits_value(s@.subrange(a as int, k as int))),
        decreases b - k,
    {
        let ghost prev = digits_value(s@.subrange(a as int, k as int));
        let c = s[k];
        assert(is_ascii_digit(s@[k as int]));
        let d: u64 = ((c as u32) - 48u32) as u64;
        assert(d == digit_value(c));
        assert(s@.subrange(a as int, k + 1).drop_last() =~= s@.subrange(a as int, k as int));
        assert(digits_value(s@.subrange(a as int, k + 1)) == prev * 10 + d);
        if acc >= 0x1_0000_0000 {
            assert(prev * 10 + d >= 0x1_0000_0000) by (nonlinear_arith)
                requires
                    prev >= 0x1_0000_0000,
            ;
        } else {
            let t = acc * 10 + d;
            if t >= 0x1_0000_0000 {
                acc = 0x1_0000_0000;
            } else {
                acc = t;
            }
        }
        k = k + 1;
    }
    acc
}

pub proof fn lemma_number_text(s: Seq<char>, a: int, b: int, signed: bool)
    requires
        0 <= a,
        number_end(s, a, signed) == Some(b),
    ensures
        b <= s.len(),
        a < b,
        signed && s[a] == '-' ==> {
            &&& a + 1 < b
            &&& forall|k: int| a + 1 <= k < b ==> is_decimal_digit(#[trigger] s[k])
            &&& number_value(s.subrange(a, b)) == -digits_value(s.subrange(a + 1, b))
            &&& ascii_number(s.subrange(a, b)) == all_ascii_digits(s.subrange(a + 1, b))
        },
        !(signed && s[a] == '-') ==> {
            &&& forall|k: int| a <= k < b ==> is_decimal_digit(#[trigger] s[k])
            &&& s[a] != '-'
            &&& number_value(s.subrange(a, b)) == digits_value(s.subrange(a, b))
            &&& ascii_number(s.subrange(a, b)) == all_ascii_digits(s.subrange(a, b))
        },
{
    if a <= s.len() {
        lemma_digits_end(s, a);
    }
    if a + 1 <= s.len() {
        lemma_digits_end(s, a + 1);
    }
    if signed && a < s.len() && s[a] == '-' {
        assert(s.subrange(a, b).drop_first() =~= s.subrange(a + 1, b));
    } else {
        assert(is_decimal_digit(s[a]));
    }
}

/// Whether the characters `s[a..b]` are all ASCII digits.
pub fn ascii_digits_at(s: &Vec<char>, a: usize, b: usize) -> (r: bool)
    requires
        a <= b <= s@.len(),
    ensures
        r == all_ascii_digits(s@.subrange(a as int, b as int)),
        r ==> forall|k: int| a <= k < b ==> is_ascii_digit(#[trigger] s@[k]),
{
    let mut k = a;
    while k < b
        invariant
            a <= k <= b <= s@.len(),
            forall|j: int| a <= j < k ==> is_ascii_digit(#[trigger] s@[j]),
        decreases b - k,
    {
        if !('0' <= s[k] && s[k] <= '9') {
            assert(!is_ascii_digit(s@.subrange(a as int, b as int)[k - a]));
            return false;
        }
        k = k + 1;
    }
    assert forall|i: int| 0 <= i < b - a implies is_ascii_digit(
        #[trigger] s@.subrange(a as int, b as int)[i],
    ) by {
        assert(s@.subrange(a as int, b as int)[i] == s@[a + i]);
    }
    true
}

/// Reads the number `s[a..b]` as an `i32` (as `str::parse::<i32>` does):
/// nothing when its value does not fit.
pub fn parse_i32_at(s: &Vec<char>, a: usize, b: usize) -> (r: Option<i32>)
    requires
        number_end(s@, a as int, true) == Some(b as int),
    ensures
        match r {
            Some(v) => ascii_number(s@.subrange(a as int, b as int)) && v == number_value(
                s@.subrange(a as int, b as int),
            ),
            None => !ascii_number(s@.subrange(a as int, b as int)) || !(i32::MIN <= number_value(
                s@.subrange(a as int, b as int),
            ) <= i32::MAX),
        },
{
    proof {
        lemma_number_text(s@, a as int, b as int, true);
    }
    if s[a] == '-' {
        if !ascii_digits_at(s, a + 1, b) {
            return None;
        }
        let v = digits_value_capped(s, a + 1, b);
        if v <= 0x8000_0000 {
            Some((0 - (v as i64)) as i32)
        } else {
            None
        }
    } else {
        if !ascii_digits_at(s, a, b) {
            return None;
        }
        let v = digits_value_capped(s, a, b);
        if v <= 0x7fff_ffff {
            Some(v as i32)
        } else {
            None
        }
    }
}

/// Reads the digits `s[a..b]` as a `u32` (as `str::parse::<u32>` does):
/// nothing when the value does not fit.
pub fn parse_u32_at(s: &Vec<char>, a: usize, b: usize) -> (r: Option<u32>)
    requires
        number_end(s@, a as int, false) == Some(b as int),
    ensures
        match r {
            Some(v) => ascii_number(s@.subrange(a as int, b as int)) && v == number_value(
                s@.subrange(a as int, b as int),
            ),
            None => !ascii_number(s@.subrange(a as int, b as int)) || number_value(
                s@.subrange(a as int, b as int),
            ) > u32::MAX,
        },
{
    proof {
        lemma_number_text(s@, a as int, b as int, false);
    }
    if !ascii_digits_at(s, a, b) {
        return None;
    }
    let v = digits_value_capped(s, a, b);
    if v <= 0xffff_ffff {
        Some(v as u32)
    } else {
        None
    }
}

} // verus!


