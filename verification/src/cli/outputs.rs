//! What the command line interface prints: messages written with a small
//! markup that becomes ANSI escape codes.

use vstd::prelude::*;

use crate::logic::parameters::syntax::{lit_at, lit_at_exec};
use crate::text::{chars_of, nat_to_decimal, nat_to_string, push_char, push_str, string_from_str};

verus! {

/// The markup tags and the escape codes they become: bold, italics and
/// section titles (bold and underlined), each opened and closed.
pub open spec fn markup_tag(k: int) -> Seq<char> {
    if k == 0 {
        seq!['<', 'b', 'o', 'l', 'd', '>']
    } else if k == 1 {
        seq!['<', '/', 'b', 'o', 'l', 'd', '>']
    } else if k == 2 {
        seq!['<', 'i', 't', 'a', 'l', 'i', 'c', 's', '>']
    } else if k == 3 {
        seq!['<', '/', 'i', 't', 'a', 'l', 'i', 'c', 's', '>']
    } else if k == 4 {
        seq!['<', 's', 'e', 'c', 't', 'i', 'o', 'n', '>']
    } else {
        seq!['<', '/', 's', 'e', 'c', 't', 'i', 'o', 'n', '>']
    }
}

pub open spec fn escape_code(k: int) -> Seq<char> {
    if k == 0 {
        seq!['\u{1b}', '[', '1', 'm']
    } else if k == 1 {
        seq!['\u{1b}', '[', '2', '2', 'm']
    } else if k == 2 {
        seq!['\u{1b}', '[', '3', 'm']
    } else if k == 3 {
        seq!['\u{1b}', '[', '2', '3', 'm']
    } else if k == 4 {
        seq!['\u{1b}', '[', '1', 'm', '\u{1b}', '[', '4', 'm']
    } else {
        seq!['\u{1b}', '[', '2', '2', 'm', '\u{1b}', '[', '2', '4', 'm']
    }
}

/// The tag that starts at `i`, if any.
pub open spec fn tag_at(s: Seq<char>, i: int) -> Option<int> {
    if lit_at(s, i, markup_tag(0)) {
        Some(0)
    } else if lit_at(s, i, markup_tag(1)) {
        Some(1)
    } else if lit_at(s, i, markup_tag(2)) {
        Some(2)
    } else if lit_at(s, i, markup_tag(3)) {
        Some(3)
    } else if lit_at(s, i, markup_tag(4)) {
        Some(4)
    } else if lit_at(s, i, markup_tag(5)) {
        Some(5)
    } else {
        None
    }
}

/// `s[i..]` with every tag replaced by its escape code.
pub open spec fn rendered_from(s: Seq<char>, i: int) -> Seq<char>
    decreases s.len() - i,
{
    if i < 0 || i >= s.len() {
        seq![]
    } else {
        match tag_at(s, i) {
            Some(k) => escape_code(k) + rendered_from(s, i + markup_tag(k).len()),
            None => seq![s[i]] + rendered_from(s, i + 1),
        }
    }
}

/// The text with every tag replaced by its escape code.
pub open spec fn rendered(s: Seq<char>) -> Seq<char> {
    rendered_from(s, 0)
}


/// No tag starts anywhere in `t`.
pub open spec fn no_tag(t: Seq<char>) -> bool {
    forall|q: int| 0 <= q < t.len() ==> #[trigger] tag_at(t, q) is None
}

proof fn lemma_tag_free_from(s: Seq<char>, i: int)
    requires
        0 <= i <= s.len(),
        no_tag(s),
    ensures
        rendered_from(s, i) == s.subrange(i, s.len() as int),
    decreases s.len() - i,
{
    if i < s.len() {
        assert(tag_at(s, i) is None);
        lemma_tag_free_from(s, i + 1);
        assert(s.subrange(i, s.len() as int) =~= seq![s[i]] + s.subrange(i + 1, s.len() as int));
    } else {
        assert(s.subrange(i, s.len() as int) =~= Seq::<char>::empty());
    }
}

/// A text in which no tag starts is printed as it is.
pub proof fn law_tag_free_text_unchanged(s: Seq<char>)
    requires
        no_tag(s),
    ensures
        rendered(s) == s,
{
    lemma_tag_free_from(s, 0);
    assert(s.subrange(0, s.len() as int) =~= s);
}

/// A text without `<` is printed as it is.
pub proof fn law_plain_text_unchanged(s: Seq<char>)
    requires
        forall|j: int| 0 <= j < s.len() ==> s[j] != '<',
    ensures
        rendered(s) == s,
{
    assert forall|q: int| 0 <= q < s.len() implies #[trigger] tag_at(s, q) is None by {
        assert forall|k: int| 0 <= k < 6 implies !lit_at(s, q, #[trigger] markup_tag(k)) by {
            if lit_at(s, q, markup_tag(k)) {
                assert(s.subrange(q, q + markup_tag(k).len())[0] == s[q]);
            }
        }
    }
    law_tag_free_text_unchanged(s);
}

proof fn lemma_tag_shape(k: int)
    requires
        0 <= k < 6,
    ensures
        markup_tag(k)[0] == '<',
        markup_tag(k).len() > 0,
        forall|t: int| 0 <= t < markup_tag(k).len() ==> #[trigger] markup_tag(k)[t] != '\u{1b}',
        escape_code(k).len() > 0,
        escape_code(k)[0] == '\u{1b}',
        forall|t: int| 0 <= t < escape_code(k).len() ==> #[trigger] escape_code(k)[t] != '<',
{
}

/// A tag starting past the first `a.len()` characters of `a + b` is one
/// starting in `b`.
proof fn lemma_tag_at_shift(a: Seq<char>, b: Seq<char>, q: int)
    requires
        a.len() <= q,
    ensures
        tag_at(a + b, q) == tag_at(b, q - a.len()),
{
    assert forall|k: int| 0 <= k < 6 implies lit_at(a + b, q, #[trigger] markup_tag(k)) == lit_at(
        b,
        q - a.len(),
        markup_tag(k),
    ) by {
        let l = markup_tag(k).len() as int;
        if q + l <= (a + b).len() {
            assert((a + b).subrange(q, q + l) =~= b.subrange(q - a.len(), q - a.len() + l));
        }
    }
}

/// The first `m` characters of `t` hold no escape character.
pub open spec fn escape_free_prefix(t: Seq<char>, m: int) -> bool {
    0 <= m <= t.len() && forall|j: int| 0 <= j < m ==> t[j] != '\u{1b}'
}

/// Where the printed text of `s[i..]` has no escape character among its first
/// `m` characters, those are `s[i..i + m]`; and no tag starts in it.
proof fn lemma_rendered_no_tag(s: Seq<char>, i: int)
    requires
        0 <= i <= s.len(),
    ensures
        no_tag(rendered_from(s, i)),
        forall|m: int|
            #[trigger] escape_free_prefix(rendered_from(s, i), m) ==> m <= s.len() - i
                && rendered_from(s, i).subrange(0, m) == s.subrange(i, i + m),
    decreases s.len() - i,
{
    let out = rendered_from(s, i);
    if i >= s.len() {
        assert forall|m: int|
            #[trigger] escape_free_prefix(rendered_from(s, i), m) implies m
            <= s.len() - i && out.subrange(0, m) == s.subrange(i, i + m) by {
            assert(out.len() == 0);
            assert(m <= s.len() - i);
            assert(out.subrange(0, m) =~= s.subrange(i, i + m));
        }
    } else {
        match tag_at(s, i) {
            Some(k) => {
                lemma_tag_shape(k);
                let piece = escape_code(k);
                let next = i + markup_tag(k).len();
                let rest = rendered_from(s, next);
                lemma_rendered_no_tag(s, next);
                assert(out == piece + rest);
                assert forall|q: int| 0 <= q < out.len() implies #[trigger] tag_at(out, q) is None by {
                    if q < piece.len() {
                        assert(out[q] == piece[q]);
                        assert forall|j: int| 0 <= j < 6 implies !lit_at(out, q, #[trigger] markup_tag(j)) by {
                            lemma_tag_shape(j);
                            if lit_at(out, q, markup_tag(j)) {
                                assert(out.subrange(q, q + markup_tag(j).len())[0] == out[q]);
                            }
                        }
                    } else {
                        lemma_tag_at_shift(piece, rest, q);
                        assert(tag_at(rest, q - piece.len()) is None);
                    }
                }
                assert forall|m: int|
                    #[trigger] escape_free_prefix(rendered_from(s, i), m) implies m
                    <= s.len() - i && out.subrange(0, m) == s.subrange(i, i + m) by {
                    if m > 0 {
                        assert(out[0] == piece[0]);
                        assert(out[0] == '\u{1b}');
                        assert(false);
                    }
                    assert(m <= s.len() - i);
                    assert(out.subrange(0, m) =~= s.subrange(i, i + m));
                }
            },
            None => {
                let piece = seq![s[i]];
                let rest = rendered_from(s, i + 1);
                lemma_rendered_no_tag(s, i + 1);
                assert(out == piece + rest);
                assert forall|m: int|
                    #[trigger] escape_free_prefix(rendered_from(s, i), m) implies m
                    <= s.len() - i && out.subrange(0, m) == s.subrange(i, i + m) by {
                    if m > 0 {
                        assert forall|t: int| 0 <= t < m - 1 implies rest[t] != '\u{1b}' by {
                            assert(out[t + 1] == rest[t]);
                        }
                        assert(escape_free_prefix(rest, m - 1));
                        assert(rest.subrange(0, m - 1) == s.subrange(i + 1, i + m));
                        assert(m - 1 <= s.len() - (i + 1));
                        assert(out.subrange(0, m) =~= seq![s[i]] + rest.subrange(0, m - 1));
                        assert(out.subrange(0, m) =~= s.subrange(i, i + m));
                    } else {
                        assert(out.subrange(0, m) =~= s.subrange(i, i + m));
                    }
                }
                assert forall|q: int| 0 <= q < out.len() implies #[trigger] tag_at(out, q) is None by {
                    if q == 0 {
                        assert forall|j: int| 0 <= j < 6 implies !lit_at(out, 0, #[trigger] markup_tag(j)) by {
                            lemma_tag_shape(j);
                            let l = markup_tag(j).len() as int;
                            if lit_at(out, 0, markup_tag(j)) {
                                assert(out.subrange(0, l) == markup_tag(j));
                                assert forall|t: int| 0 <= t < l implies out[t] != '\u{1b}' by {
                                    assert(out[t] == out.subrange(0, l)[t]);
                                }
                                assert(escape_free_prefix(rendered_from(s, i), l));
                                assert(rendered_from(s, i).subrange(0, l) == s.subrange(i, i + l));
                                assert(lit_at(s, i, markup_tag(j)));
                                assert(tag_at(s, i) is Some);
                            }
                        }
                    } else {
                        lemma_tag_at_shift(piece, rest, q);
                        assert(tag_at(rest, q - 1) is None);
                    }
                }
            },
        }
    }
}

/// No tag is left in what `format_output` prints.
pub proof fn law_rendered_has_no_tag(s: Seq<char>)
    ensures
        no_tag(rendered(s)),
{
    lemma_rendered_no_tag(s, 0);
}

/// Formatting twice is formatting once.
pub proof fn law_rendered_idempotent(s: Seq<char>)
    ensures
        rendered(rendered(s)) == rendered(s),
{
    law_rendered_has_no_tag(s);
    law_tag_free_text_unchanged(rendered(s));
}

fn tag_chars(k: usize) -> (v: Vec<char>)
    requires
        k < 6,
    ensures
        v@ == markup_tag(k as int),
{
    let v = if k == 0 {
        vec!['<', 'b', 'o', 'l', 'd', '>']
    } else if k == 1 {
        vec!['<', '/', 'b', 'o', 'l', 'd', '>']
    } else if k == 2 {
        vec!['<', 'i', 't', 'a', 'l', 'i', 'c', 's', '>']
    } else if k == 3 {
        vec!['<', '/', 'i', 't', 'a', 'l', 'i', 'c', 's', '>']
    } else if k == 4 {
        vec!['<', 's', 'e', 'c', 't', 'i', 'o', 'n', '>']
    } else {
        vec!['<', '/', 's', 'e', 'c', 't', 'i', 'o', 'n', '>']
    };
    assert(v@ =~= markup_tag(k as int));
    v
}

fn code_chars(k: usize) -> (v: Vec<char>)
    requires
        k < 6,
    ensures
        v@ == escape_code(k as int),
{
    let v = if k == 0 {
        vec!['\u{1b}', '[', '1', 'm']
    } else if k == 1 {
        vec!['\u{1b}', '[', '2', '2', 'm']
    } else if k == 2 {
        vec!['\u{1b}', '[', '3', 'm']
    } else if k == 3 {
        vec!['\u{1b}', '[', '2', '3', 'm']
    } else if k == 4 {
        vec!['\u{1b}', '[', '1', 'm', '\u{1b}', '[', '4', 'm']
    } else {
        vec!['\u{1b}', '[', '2', '2', 'm', '\u{1b}', '[', '2', '4', 'm']
    };
    assert(v@ =~= escape_code(k as int));
    v
}

/// The tag that starts at `i`, if any.
fn tag_at_exec(s: &Vec<char>, i: usize) -> (r: Option<usize>)
    ensures
        match r {
            Some(k) => tag_at(s@, i as int) == Some(k as int) && k < 6,
            None => tag_at(s@, i as int) is None,
        },
{
    let mut k: usize = 0;
    while k < 6
        invariant
            k <= 6,
            forall|j: int| 0 <= j < k ==> !lit_at(s@, i as int, #[trigger] markup_tag(j)),
        decreases 6 - k,
    {
        let t = tag_chars(k);
        if lit_at_exec(s, i, &t) {
            return Some(k);
        }
        k = k + 1;
    }
    assert(!lit_at(s@, i as int, markup_tag(0)));
    assert(!lit_at(s@, i as int, markup_tag(1)));
    assert(!lit_at(s@, i as int, markup_tag(2)));
    assert(!lit_at(s@, i as int, markup_tag(3)));
    assert(!lit_at(s@, i as int, markup_tag(4)));
    assert(!lit_at(s@, i as int, markup_tag(5)));
    None
}

/// Turns the markup tags of `text` into ANSI escape codes.
pub fn format_output(text: &str) -> (r: String)
    ensures
        r@ == rendered(text@),
{
    let s = chars_of(text);
    let mut out = String::new();
    let mut i: usize = 0;
    while i < s.len()
        invariant
            i <= s@.len(),
            s@ == text@,
            out@ + rendered_from(s@, i as int) == rendered(s@),
        decreases s.len() - i,
    {
        match tag_at_exec(&s, i) {
            Some(k) => {
                let code = code_chars(k);
                let ghost before = out@;
                let mut j: usize = 0;
                while j < code.len()
                    invariant
                        j <= code@.len(),
                        out@ == before + code@.take(j as int),
                    decreases code.len() - j,
                {
                    push_char(&mut out, code[j]);
                    j = j + 1;
                    assert(out@ =~= before + code@.take(j as int));
                }
                assert(code@.take(code@.len() as int) =~= code@);
                assert(out@ + rendered_from(s@, i + markup_tag(k as int).len()) =~= before + (
                escape_code(k as int) + rendered_from(s@, i + markup_tag(k as int).len())));
                i = i + tag_chars(k).len();
            },
            None => {
                let ghost before = out@;
                push_char(&mut out, s[i]);
                assert(out@ + rendered_from(s@, i + 1) =~= before + (seq![s@[i as int]]
                    + rendered_from(s@, i + 1)));
                i = i + 1;
            },
        }
    }
    assert(out@ =~= out@ + rendered_from(s@, i as int));
    out
}

/// How `{:?}` writes a path: `format!("{:?}", Path::new(path))`.
pub uninterp spec fn path_debug_text(path: Seq<char>) -> Seq<char>;

/// `format!("{:?}", Path::new(path))`: the path as `Debug` writes it, named
/// by `path_debug_text`.
#[verifier::external_body]
fn path_debug(path: &str) -> (s: String)
    ensures
        s@ == path_debug_text(path@),
{
    format!("{:?}", std::path::Path::new(path))
}

/// The messages of success.
pub enum Output {
    NoCommandsFound,
    UpdateCommandSectionTitle,
    UpdateCommandSuccess,
    AddCommandSuccess,
    DeleteCommandSuccess,
    /// The commands were written to the file at this path.
    ExportCommandsSuccess(String),
    /// This many commands were read from the file at this path.
    ImportCommandsSuccess(u64, String),
    CommandCopiedToClipboard,
    ConfigCommandSuccess,
}

/// The message of an [`Output`], with its markup.
pub open spec fn output_markup(o: Output) -> Seq<char> {
    match o {
        Output::NoCommandsFound => "<bold>No commands found</bold>\n"@,
        Output::UpdateCommandSectionTitle => "<section>Update Command:</section>"@,
        Output::UpdateCommandSuccess => "\u{2705} <bold>Command updated</bold>\n"@,
        Output::AddCommandSuccess => "\u{2705} <bold>Command added</bold>\n"@,
        Output::DeleteCommandSuccess => "\u{2705} <bold>Command deleted</bold>\n"@,
        Output::ExportCommandsSuccess(file) => "\u{2705} <bold>Commands exported to "@
            + path_debug_text(file@) + "</bold>\n"@,
        Output::ImportCommandsSuccess(num_cmds, file) => "\u{2705} <bold>"@ + nat_to_decimal(
            num_cmds as nat,
        ) + " commands imported from "@ + path_debug_text(file@) + "</bold>\n"@,
        Output::CommandCopiedToClipboard => "\u{2705} <bold>Command copied to clipboard</bold>\n"@,
        Output::ConfigCommandSuccess => "\u{2705} <bold>Config updated</bold>\n"@,
    }
}

impl Output {
    /// The message as it is printed: its markup turned into escape codes.
    pub fn message(&self) -> (m: String)
        ensures
            m@ == rendered(output_markup(*self)),
    {
        let text = match self {
            Output::NoCommandsFound => string_from_str("<bold>No commands found</bold>\n"),
            Output::UpdateCommandSectionTitle => string_from_str(
                "<section>Update Command:</section>",
            ),
            Output::UpdateCommandSuccess => string_from_str(
                "\u{2705} <bold>Command updated</bold>\n",
            ),
            Output::AddCommandSuccess => string_from_str("\u{2705} <bold>Command added</bold>\n"),
            Output::DeleteCommandSuccess => string_from_str(
                "\u{2705} <bold>Command deleted</bold>\n",
            ),
            Output::ExportCommandsSuccess(file) => {
                let mut t = string_from_str("\u{2705} <bold>Commands exported to ");
                let p = path_debug(file.as_str());
                push_str(&mut t, p.as_str());
                push_str(&mut t, "</bold>\n");
                t
            },
            Output::ImportCommandsSuccess(num_cmds, file) => {
                let mut t = string_from_str("\u{2705} <bold>");
                let n = nat_to_string(*num_cmds);
                push_str(&mut t, n.as_str());
                push_str(&mut t, " commands imported from ");
                let p = path_debug(file.as_str());
                push_str(&mut t, p.as_str());
                push_str(&mut t, "</bold>\n");
                t
            },
            Output::CommandCopiedToClipboard => string_from_str(
                "\u{2705} <bold>Command copied to clipboard</bold>\n",
            ),
            Output::ConfigCommandSuccess => string_from_str(
                "\u{2705} <bold>Config updated</bold>\n",
            ),
        };
        format_output(text.as_str())
    }
}

/// The messages of failure.
#[derive(Debug, Clone, Copy, PartialEq, Eq, Structural)]
pub enum ErrorOutput {
    UserInput,
    AddCommand,
    UpdateCommand,
    DeleteCommand,
    SearchCommand,
    Export,
    Import,
    Logger,
    LoadConfig,
    ConfigCommand,
}

/// What went wrong, in words.
pub open spec fn error_text(e: ErrorOutput) -> Seq<char> {
    match e {
        ErrorOutput::UserInput => "Failed to get input"@,
        ErrorOutput::AddCommand => "Failed to add command"@,
        ErrorOutput::UpdateCommand => "Failed to update command"@,
        ErrorOutput::DeleteCommand => "Failed to delete command"@,
        ErrorOutput::SearchCommand => "Failed to search command"@,
        ErrorOutput::Export => "Failed to export stack"@,
        ErrorOutput::Import => "Failed to import stack"@,
        ErrorOutput::Logger => "Failed to initialize the logger"@,
        ErrorOutput::LoadConfig => "Failed to load user config"@,
        ErrorOutput::ConfigCommand => "Failed to update config"@,
    }
}

impl ErrorOutput {
    /// The message as it is printed: a cross, then the words in bold.
    pub fn message(&self) -> (m: String)
        ensures
            m@ == rendered("\u{274c} <bold>"@ + error_text(*self) + "</bold>"@),
    {
        let words = match self {
            ErrorOutput::UserInput => "Failed to get input",
            ErrorOutput::AddCommand => "Failed to add command",
            ErrorOutput::UpdateCommand => "Failed to update command",
            ErrorOutput::DeleteCommand => "Failed to delete command",
            ErrorOutput::SearchCommand => "Failed to search command",
            ErrorOutput::Export => "Failed to export stack",
            ErrorOutput::Import => "Failed to import stack",
            ErrorOutput::Logger => "Failed to initialize the logger",
            ErrorOutput::LoadConfig => "Failed to load user config",
            ErrorOutput::ConfigCommand => "Failed to update config",
        };
        let mut t = string_from_str("\u{274c} <bold>");
        push_str(&mut t, words);
        push_str(&mut t, "</bold>");
        format_output(t.as_str())
    }
}

} // verus!

