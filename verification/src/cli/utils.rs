//! Small text helpers of the command line interface.

use vstd::prelude::*;

use crate::text::{all_white_space, chars_of, is_white_space_char, push_str, string_from_range};

verus! {

pub open spec fn ellipsis() -> Seq<char> {
    seq!['.', '.', '.']
}

/// `s` cut to `width` characters: when it is longer, its first `width - 3`
/// characters followed by `...` (only `...` when `width` is below 3).
pub open spec fn truncated(s: Seq<char>, width: int) -> Seq<char> {
    if s.len() > width {
        if width < 3 {
            ellipsis()
        } else {
            s.take(width - 3) + ellipsis()
        }
    } else {
        s
    }
}


/// A cut text is no longer than `width` (or than the `...` when `width` is
/// below 3); a text that fits is left as it is, and a cut one keeps its
/// beginning.
pub proof fn law_truncated_fits(s: Seq<char>, width: int)
    requires
        width >= 0,
    ensures
        truncated(s, width).len() <= if width < 3 {
            3
        } else {
            width
        },
        s.len() <= width ==> truncated(s, width) == s,
        s.len() > width >= 3 ==> truncated(s, width).take(width - 3) == s.take(width - 3),
{
    if s.len() > width >= 3 {
        assert(truncated(s, width).take(width - 3) =~= s.take(width - 3));
    }
}

/// Cuts `s` to `width` characters, marking the cut with `...`.
pub fn truncate_string(s: &str, width: usize) -> (r: String)
    ensures
        r@ == truncated(s@, width as int),
{
    let cs = chars_of(s);
    let dots = vec!['.', '.', '.'];
    assert(dots@ =~= ellipsis());
    if cs.len() > width {
        if width < 3 {
            string_from_range(&dots, 0, 3)
        } else {
            let mut r = string_from_range(&cs, 0, width - 3);
            let d = string_from_range(&dots, 0, 3);
            push_str(&mut r, d.as_str());
            assert(cs@.subrange(0, width - 3) =~= cs@.take(width - 3));
            assert(dots@.subrange(0, 3) =~= ellipsis());
            r
        }
    } else {
        let r = string_from_range(&cs, 0, cs.len());
        assert(cs@.subrange(0, cs@.len() as int) =~= cs@);
        r
    }
}

/// Whether `s` is empty once its leading and trailing whitespace is trimmed.
pub fn is_blank_text(s: &str) -> (b: bool)
    ensures
        b == all_white_space(s@),
{
    let cs = chars_of(s);
    let mut i: usize = 0;
    while i < cs.len()
        invariant
            i <= cs@.len(),
            cs@ == s@,
            forall|j: int| 0 <= j < i ==> crate::text::is_white_space(#[trigger] cs@[j]),
        decreases cs.len() - i,
    {
        if !is_white_space_char(cs[i]) {
            return false;
        }
        i = i + 1;
    }
    true
}

/// `None` when `s` is empty or only whitespace, else `s` itself.
pub fn none_if_empty(s: String) -> (r: Option<String>)
    ensures
        all_white_space(s@) ==> r is None,
        !all_white_space(s@) ==> r == Some(s),
{
    if !is_blank_text(s.as_str()) {
        Some(s)
    } else {
        None
    }
}

} // verus!
