//! What the prompts of the command line decide: which search terms the user
//! gave, what to ask for blank parameters, how the candidates are shown.

use vstd::prelude::*;

use crate::cli::args::SearchArgs;
use crate::cli::outputs::{format_output, rendered};
use crate::cli::utils::{none_if_empty, truncate_string, truncated};
use crate::cli::Cli;
use crate::data::models::{option_view, Command, InternalCommand};
use crate::logic::config::CliPrintStyle;
use crate::text::{all_white_space, nat_to_decimal, nat_to_string, push_str, string_from_str};

verus! {

/// The search terms the user gave.
#[derive(Debug)]
pub struct SearchArgsUserInput {
    pub command: Option<String>,
    pub tag: Option<String>,
}

impl From<SearchArgs> for SearchArgsUserInput {
    fn from(args: SearchArgs) -> (input: Self) {
        SearchArgsUserInput { command: args.command, tag: args.tag }
    }
}

impl vstd::std_specs::convert::FromSpecImpl<SearchArgs> for SearchArgsUserInput {
    open spec fn obeys_from_spec() -> bool {
        true
    }

    open spec fn from_spec(v: SearchArgs) -> Self {
        SearchArgsUserInput { command: v.command, tag: v.tag }
    }
}


/// Checks what the user types as a command.
#[derive(Clone)]
pub struct CommandInputValidator;

/// What a check of the user's input says.
#[derive(Debug)]
pub enum Validation {
    Valid,
    /// The input is refused, with this message.
    Invalid(String),
}

impl CommandInputValidator {
    /// A command must not be empty once trimmed.
    pub fn validate(&self, input: &str) -> (r: Validation)
        ensures
            !all_white_space(input@) ==> r is Valid,
            all_white_space(input@) ==> (r matches Validation::Invalid(m) && m@
                == "Command must not be empty"@),
    {
        if !crate::cli::utils::is_blank_text(input) {
            Validation::Valid
        } else {
            Validation::Invalid(string_from_str("Command must not be empty"))
        }
    }
}

/// Given the user input for `command` and `tag`, determine if the user
/// provided search arguments.
pub fn check_search_args_exist(command: &Option<String>, tag: &Option<String>) -> (b: bool)
    ensures
        b == (command is Some || tag is Some),
{
    command.is_some() || tag.is_some()
}

/// Why no command was selected.
#[derive(Debug)]
pub enum PromptUserForCommandSelectionError {
    /// There was nothing to select from.
    NoCommandsProvided,
    /// The prompt failed, for the reason given.
    Inquire(String),
}

/// Why a text could not be copied.
#[derive(Debug)]
pub enum CopyTextError {
    /// The clipboard could not be opened, for the reason given.
    ClipboardInit(String),
    /// The clipboard refused the text, for the reason given.
    Copy(String),
}

/// The prompt for the `n`-th blank parameter (counted from 1), with its markup.
pub open spec fn blank_prompt_markup(n: nat) -> Seq<char> {
    "<bold>Fill in @{"@ + nat_to_decimal(n) + "}:</bold>"@
}

/// The prompt for the `n`-th blank parameter (counted from 1).
pub fn blank_prompt(n: u64) -> (s: String)
    ensures
        s@ == rendered(blank_prompt_markup(n as nat)),
{
    let mut t = string_from_str("<bold>Fill in @{");
    let k = nat_to_string(n);
    push_str(&mut t, k.as_str());
    push_str(&mut t, "}:</bold>");
    format_output(t.as_str())
}


/// An optional text as the prompts give it: none when it is blank.
pub open spec fn typed_text(t: Seq<char>) -> Option<Seq<char>> {
    if all_white_space(t) {
        None
    } else {
        Some(t)
    }
}

/// The command that the user typed into the prompts: its text, its tag and
/// note (none when left blank), and whether `Yes` was chosen as favourite.
pub fn command_from_prompts(command: String, tag: String, note: String, favourite_choice: &str) -> (c:
    InternalCommand)
    ensures
        c.command@ == command@,
        option_view(c.tag) == typed_text(tag@),
        option_view(c.note) == typed_text(note@),
        c.favourite == (favourite_choice@ == "Yes"@),
{
    let choice = crate::text::chars_of(favourite_choice);
    let yes = vec!['Y', 'e', 's'];
    proof {
        reveal_strlit("Yes");
    }
    assert(yes@ == "Yes"@);
    let favourite = crate::logic::parameters::boolean::is_exactly(&choice, &yes);
    InternalCommand { command, tag: none_if_empty(tag), note: none_if_empty(note), favourite }
}

/// The text of an optional field, empty when there is none.
pub open spec fn text_or_empty(o: Option<Seq<char>>) -> Seq<char> {
    match o {
        Some(t) => t,
        None => Seq::empty(),
    }
}

/// The widths of the columns command, tag and note on a terminal `width`
/// characters wide: the tag gets 5% of it but at least 8, the favourite mark 5,
/// and what is left after 12 more for the borders goes three quarters to the
/// command and the rest to the note.
pub open spec fn column_widths(width: int) -> (int, int, int) {
    let tag = if width * 5 / 100 > 8 {
        width * 5 / 100
    } else {
        8
    };
    let rest = if width - tag - 5 - 12 > 0 {
        width - tag - 5 - 12
    } else {
        0
    };
    let command = rest * 75 / 100;
    (command, tag, rest - command)
}

/// The widths of the columns command, tag and note, as `column_widths` says.
pub fn column_widths_exec(width: u16) -> (r: (usize, usize, usize))
    requires
        width * 5 <= u16::MAX,
    ensures
        r.0 as int == column_widths(width as int).0,
        r.1 as int == column_widths(width as int).1,
        r.2 as int == column_widths(width as int).2,
{
    let w: u64 = width as u64;
    let tag: u64 = if w * 5 / 100 > 8 {
        w * 5 / 100
    } else {
        8
    };
    let rest: u64 = if w > tag + 5 + 12 {
        w - tag - 5 - 12
    } else {
        0
    };
    let command: u64 = rest * 75 / 100;
    (command as usize, tag as usize, (rest - command) as usize)
}

/// The cells of one candidate in the table: the command, tag and note cut to
/// their columns, and `*` for a favourite.
pub open spec fn candidate_cells(c: Command, width: int) -> Seq<Seq<char>> {
    let (cw, tw, nw) = column_widths(width);
    seq![
        truncated(c.internal_command.command@, cw),
        truncated(text_or_empty(option_view(c.internal_command.tag)), tw),
        truncated(text_or_empty(option_view(c.internal_command.note)), nw),
        if c.internal_command.favourite {
            seq!['*']
        } else {
            Seq::empty()
        },
    ]
}

/// The text of a table of these rows, as `prettytable` lays it out without
/// borders or line separators.
pub uninterp spec fn table_text(rows: Seq<Seq<Seq<char>>>) -> Seq<char>;

/// `prettytable`'s `Table` of these rows with the format
/// `FORMAT_NO_BORDER_LINE_SEPARATOR`, written out with `to_string`.
#[verifier::external_body]
fn render_table(rows: &Vec<Vec<String>>) -> (s: String)
    ensures
        s@ == table_text(rows.deep_view()),
{
    let mut table = prettytable::Table::new();
    table.set_format(*prettytable::format::consts::FORMAT_NO_BORDER_LINE_SEPARATOR);
    for row in rows {
        table.add_row(prettytable::Row::new(row.iter().map(|c| prettytable::Cell::new(c)).collect()));
    }
    table.to_string()
}

/// The lines of a text as `str::lines` gives them: cut at each `\n`, a `\r`
/// just before a `\n` dropped, and no last line when the text ends with `\n`
/// (a last line without `\n` is kept whole).
pub open spec fn text_lines(s: Seq<char>) -> Seq<Seq<char>>
    decreases s.len(),
{
    if s.len() == 0 {
        Seq::empty()
    } else {
        let i = first_newline(s);
        proof {
            lemma_first_newline(s);
        }
        if i < s.len() {
            seq![strip_cr(s.take(i))] + text_lines(s.skip(i + 1))
        } else {
            seq![s]
        }
    }
}

/// The index of the first `\n` of `s`, or its length when there is none.
pub open spec fn first_newline(s: Seq<char>) -> int
    decreases s.len(),
{
    if s.len() == 0 {
        0
    } else if s[0] == '\n' {
        0
    } else {
        1 + first_newline(s.skip(1))
    }
}

/// A line without the `\r` that ends it, if any.
pub open spec fn strip_cr(l: Seq<char>) -> Seq<char> {
    if l.len() > 0 && l.last() == '\r' {
        l.drop_last()
    } else {
        l
    }
}

pub proof fn lemma_first_newline(s: Seq<char>)
    ensures
        0 <= first_newline(s) <= s.len(),
        first_newline(s) < s.len() ==> s[first_newline(s)] == '\n',
        forall|j: int| 0 <= j < first_newline(s) ==> s[j] != '\n',
    decreases s.len(),
{
    if s.len() > 0 && s[0] != '\n' {
        lemma_first_newline(s.skip(1));
        assert forall|j: int| 0 <= j < first_newline(s) implies s[j] != '\n' by {
            if j > 0 {
                assert(s[j] == s.skip(1)[j - 1]);
            }
        }
    }
}

proof fn lemma_first_newline_at(s: Seq<char>, i: int)
    requires
        0 <= i <= s.len(),
        i < s.len() ==> s[i] == '\n',
        forall|j: int| 0 <= j < i ==> s[j] != '\n',
    ensures
        first_newline(s) == i,
    decreases s.len(),
{
    if s.len() > 0 && i > 0 {
        assert forall|j: int| 0 <= j < i - 1 implies s.skip(1)[j] != '\n' by {
            assert(s.skip(1)[j] == s[j + 1]);
        }
        lemma_first_newline_at(s.skip(1), i - 1);
    }
}

fn strip_cr_exec(v: &Vec<char>, from: usize, to: usize) -> (s: String)
    requires
        from <= to <= v@.len(),
    ensures
        s@ == strip_cr(v@.subrange(from as int, to as int)),
{
    if to > from && v[to - 1] == '\r' {
        let s = crate::text::string_from_range(v, from, to - 1);
        assert(v@.subrange(from as int, to - 1) =~= v@.subrange(from as int, to as int).drop_last());
        s
    } else {
        crate::text::string_from_range(v, from, to)
    }
}

/// The lines of `s`, as `str::lines` gives them.
pub fn lines_of(s: &str) -> (r: Vec<String>)
    ensures
        r.deep_view() == text_lines(s@),
{
    let v = crate::text::chars_of(s);
    let mut r: Vec<String> = Vec::new();
    let mut start: usize = 0;
    let mut i: usize = 0;
    assert(v@.skip(0) =~= v@);
    assert(r.deep_view() + text_lines(v@) =~= text_lines(v@));
    while i < v.len()
        invariant
            start <= i <= v@.len(),
            v@ == s@,
            forall|j: int| start <= j < i ==> v@[j] != '\n',
            r.deep_view() + text_lines(v@.skip(start as int)) == text_lines(s@),
        decreases v.len() - i,
    {
        if v[i] == '\n' {
            let line = strip_cr_exec(&v, start, i);
            proof {
                let t = v@.skip(start as int);
                assert forall|j: int| 0 <= j < i - start implies t[j] != '\n' by {
                    assert(t[j] == v@[start + j]);
                }
                lemma_first_newline_at(t, i - start);
                assert(t.take(i - start) =~= v@.subrange(start as int, i as int));
                assert(t.skip(i - start + 1) =~= v@.skip(i + 1));
                assert(text_lines(t) == seq![strip_cr(t.take(i - start))] + text_lines(
                    t.skip(i - start + 1),
                ));
            }
            let ghost prev = r.deep_view();
            let ghost rest = text_lines(v@.skip(i + 1));
            r.push(line);
            proof {
                assert(r.deep_view() =~= prev.push(line@));
                assert(prev + (seq![line@] + rest) =~= prev.push(line@) + rest);
            }
            start = i + 1;
        }
        i = i + 1;
    }
    if start < v.len() {
        let line = crate::text::string_from_range(&v, start, v.len());
        proof {
            let t = v@.skip(start as int);
            assert forall|j: int| 0 <= j < t.len() implies t[j] != '\n' by {
                assert(t[j] == v@[start + j]);
            }
            lemma_first_newline_at(t, t.len() as int);
            assert(t =~= v@.subrange(start as int, v@.len() as int));
        }
        let ghost prev = r.deep_view();
        r.push(line);
        proof {
            assert(r.deep_view() =~= prev.push(line@));
            assert(prev + seq![line@] =~= prev.push(line@));
        }
    } else {
        assert(v@.skip(start as int).len() == 0);
        assert(r.deep_view() + Seq::<Seq<char>>::empty() =~= r.deep_view());
    }
    r
}


/// The rows of the table of candidates on a terminal `width` wide.
pub open spec fn candidate_rows(cs: Seq<Command>, width: int) -> Seq<Seq<Seq<char>>> {
    Seq::new(cs.len(), |i: int| candidate_cells(cs[i], width))
}

/// Each row of the candidate table belongs to the stored command at the same
/// place and has four cells: its command, its tag (empty when it has none) and
/// its note (empty when it has none), each cut to the width of its column, and
/// a mark that is `*` exactly when the command is a favourite and empty
/// otherwise.
pub proof fn law_candidate_row_cells(cs: Seq<Command>, width: int)
    ensures
        candidate_rows(cs, width).len() == cs.len(),
        forall|i: int|
            0 <= i < cs.len() ==> {
                let row = #[trigger] candidate_rows(cs, width)[i];
                let c = cs[i].internal_command;
                &&& row.len() == 4
                &&& row[0] == truncated(c.command@, column_widths(width).0)
                &&& row[1] == truncated(text_or_empty(option_view(c.tag)), column_widths(width).1)
                &&& row[2] == truncated(text_or_empty(option_view(c.note)), column_widths(width).2)
                &&& (row[3] == seq!['*'] <==> c.favourite)
                &&& (!c.favourite ==> row[3].len() == 0)
            },
{
    assert forall|i: int| 0 <= i < cs.len() implies {
        let row = #[trigger] candidate_rows(cs, width)[i];
        let c = cs[i].internal_command;
        &&& row.len() == 4
        &&& row[0] == truncated(c.command@, column_widths(width).0)
        &&& row[1] == truncated(text_or_empty(option_view(c.tag)), column_widths(width).1)
        &&& row[2] == truncated(text_or_empty(option_view(c.note)), column_widths(width).2)
        &&& (row[3] == seq!['*'] <==> c.favourite)
        &&& (!c.favourite ==> row[3].len() == 0)
    } by {
        let row = candidate_rows(cs, width)[i];
        assert(row == candidate_cells(cs[i], width));
        if !cs[i].internal_command.favourite {
            assert(row[3].len() == 0);
            assert(seq!['*'].len() == 1);
        }
    }
}

/// The commands of the candidates, in order.
pub open spec fn candidate_commands(cs: Seq<Command>) -> Seq<Seq<char>> {
    Seq::new(cs.len(), |i: int| cs[i].internal_command.command@)
}

fn optional_text(o: &Option<String>) -> (s: &str)
    ensures
        s@ == text_or_empty(option_view(*o)),
{
    match o {
        Some(t) => t.as_str(),
        None => {
            proof {
                reveal_strlit("");
            }
            ""
        },
    }
}

impl Cli {
    /// The candidates as the lines of a table fitted to a terminal `width`
    /// characters wide: command, tag, note and favourite mark.
    ///
    /// The width is at most 13107, so that 5% of it is computed without
    /// overflow.
    pub fn format_internal_commands(&self, commands: &Vec<Command>, width: u16) -> (r: Vec<String>)
        requires
            width * 5 <= u16::MAX,
        ensures
            r.deep_view() == text_lines(table_text(candidate_rows(commands@, width as int))),
    {
        let (command_width, tag_width, note_width) = column_widths_exec(width);
        let mut rows: Vec<Vec<String>> = Vec::new();
        let mut i: usize = 0;
        while i < commands.len()
            invariant
                i <= commands@.len(),
                command_width as int == column_widths(width as int).0,
                tag_width as int == column_widths(width as int).1,
                note_width as int == column_widths(width as int).2,
                rows.deep_view() =~= candidate_rows(commands@.take(i as int), width as int),
            decreases commands.len() - i,
        {
            let c = &commands[i];
            let truncated_tag = truncate_string(optional_text(&c.internal_command.tag), tag_width);
            let truncated_command = truncate_string(c.internal_command.command.as_str(), command_width);
            let truncated_note = truncate_string(optional_text(&c.internal_command.note), note_width);
            let mark = if c.internal_command.favourite {
                string_from_str("*")
            } else {
                String::new()
            };
            proof {
                reveal_strlit("*");
            }
            assert(mark@ == candidate_cells(commands@[i as int], width as int)[3]);
            let mut row: Vec<String> = Vec::new();
            row.push(truncated_command);
            row.push(truncated_tag);
            row.push(truncated_note);
            row.push(mark);
            assert(row.deep_view() =~= candidate_cells(commands@[i as int], width as int));
            let ghost prev = rows.deep_view();
            rows.push(row);
            i = i + 1;
            assert(rows.deep_view() =~= prev.push(candidate_cells(commands@[i - 1], width as int)));
        }
        assert(commands@.take(commands@.len() as int) =~= commands@);
        let table = render_table(&rows);
        lines_of(table.as_str())
    }

    /// The candidates as they are listed for selection, in the user's print
    /// style, with the names of the columns shown.
    pub fn format_commands_for_printing(&self, commands: &Vec<Command>, width: u16) -> (r: (
        Vec<String>,
        &'static str,
    ))
        requires
            self.logic.config.cli_print_style == CliPrintStyle::All ==> width * 5 <= u16::MAX,
        ensures
            self.logic.config.cli_print_style == CliPrintStyle::All ==> {
                &&& r.0.deep_view() == text_lines(table_text(candidate_rows(commands@, width as int)))
                &&& r.1@ == "(Command | Tag | Note | Favourite [*])"@
            },
            self.logic.config.cli_print_style == CliPrintStyle::CommandsOnly ==> {
                &&& r.0.deep_view() == candidate_commands(commands@)
                &&& r.1@ == "(Command)"@
            },
    {
        match self.logic.config.cli_print_style {
            CliPrintStyle::All => (
                self.format_internal_commands(commands, width),
                "(Command | Tag | Note | Favourite [*])",
            ),
            CliPrintStyle::CommandsOnly => {
                let mut v: Vec<String> = Vec::new();
                let mut i: usize = 0;
                while i < commands.len()
                    invariant
                        i <= commands@.len(),
                        v.deep_view() =~= candidate_commands(commands@.take(i as int)),
                    decreases commands.len() - i,
                {
                    let t = string_from_str(commands[i].internal_command.command.as_str());
                    let ghost prev = v.deep_view();
                    v.push(t);
                    i = i + 1;
                    assert(v.deep_view() =~= prev.push(commands@[i - 1].internal_command.command@));
                }
                assert(commands@.take(commands@.len() as int) =~= commands@);
                (v, "(Command)")
            },
        }
    }
}

} // verus!
