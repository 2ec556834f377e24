//! Choosing a shortcut: by its exact name, or through an interactive finder
//! that is handed one line for each shortcut and hands back the line that the
//! user picked.

use vstd::prelude::*;
use vstd::string::*;
use crate::platform::opt_text;
use crate::portable::{expand_with_home, expanded};
use crate::store::{entries_for, entries_of, Entry, Shortcut, Store};
use crate::text::{
    after_first, decimal, decimal_string, decimal_width, digit, find, lemma_decimal_len,
    lemma_first_occurrence_unique, occurs_at, pad_to, padded, to_chars, trim, trimmed,
};

verus! {

/// Why no path was chosen.
#[derive(Clone, Copy, Debug, PartialEq, Eq, Structural)]
pub enum SelectError {
    /// No shortcut has the name that was asked for.
    NotFound,
    /// There is no shortcut to pick from.
    Empty,
    /// The user left the finder without picking.
    Cancelled,
    /// The finder could not be started.
    FinderUnavailable,
    /// What the finder handed back is no line of the kind it was given.
    Unparsable,
}

/// How the finder ended.
#[derive(Debug, PartialEq, Eq)]
pub enum FinderResult {
    /// It ended successfully, with this on its standard output.
    Selected(String),
    /// It ended unsuccessfully: the user left it without picking.
    Cancelled,
    /// It could not be started.
    Unavailable,
}

/// The model of a [`FinderResult`].
pub enum FinderResultView {
    Selected(Seq<char>),
    Cancelled,
    Unavailable,
}

impl View for FinderResult {
    type V = FinderResultView;

    open spec fn view(&self) -> FinderResultView {
        match self {
            FinderResult::Selected(output) => FinderResultView::Selected(output@),
            FinderResult::Cancelled => FinderResultView::Cancelled,
            FinderResult::Unavailable => FinderResultView::Unavailable,
        }
    }
}

/// The text of a chosen path, or why none was chosen.
pub open spec fn choice_view(r: Result<String, SelectError>) -> Result<Seq<char>, SelectError> {
    match r {
        Ok(path) => Ok(path@),
        Err(e) => Err(e),
    }
}

/// The name of the finder.
pub open spec fn finder_name() -> Seq<char> {
    "fzf"@
}

/// The program that is run as the finder.
pub fn finder_program() -> (name: &'static str)
    ensures
        name@ == finder_name(),
{
    "fzf"
}

/// What stands between a shortcut's name and its path in a line.
pub open spec fn separator() -> Seq<char> {
    " -> "@
}

/// The absolute path of the shortcut `name`: found by the exact name, character
/// for character, and expanded for the home directory `home`.
pub open spec fn resolved(
    store: Map<Seq<char>, Seq<char>>,
    name: Seq<char>,
    home: Option<Seq<char>>,
) -> Result<Seq<char>, SelectError> {
    if store.contains_key(name) {
        Ok(expanded(store[name], home))
    } else {
        Err(SelectError::NotFound)
    }
}

/// The absolute path of the shortcut `name`, or `NotFound`. Only the shortcut
/// with exactly this name is found.
pub fn resolve(store: &Store, name: &str, home: &Option<String>) -> (r: Result<
    String,
    SelectError,
>)
    ensures
        choice_view(r) == resolved(store@, name@, opt_text(*home)),
{
    match store.get(name) {
        Some(path) => Ok(expand_with_home(path.as_str(), home)),
        None => Err(SelectError::NotFound),
    }
}

/// How much wider than the greatest number the column of numbers is: a dot
/// and at least one space follow each number.
pub const INDEX_WIDTH_BASE: usize = 2;

/// The width of the column of numbers before the names, for `count` lines.
pub open spec fn index_width(count: nat) -> nat {
    decimal_width(count) + INDEX_WIDTH_BASE as nat
}

/// The number of the line at `index`, counted from one, with a dot, filled up
/// with spaces to the width of the column for `count` lines.
pub open spec fn choice_label(index: nat, count: nat) -> Seq<char> {
    padded(decimal(index + 1) + seq!['.'], index_width(count))
}

/// The line for the shortcut at `index` of `count`: its number in the column
/// of numbers; the name; the separator; the portable path.
pub open spec fn choice_line(index: nat, count: nat, entry: Entry) -> Seq<char> {
    choice_label(index, count) + entry.0 + separator() + entry.1
}

/// The lines for `entries`, one for each, in their order.
pub open spec fn choice_lines(entries: Seq<Entry>) -> Seq<Seq<char>> {
    Seq::new(entries.len(), |i: int| choice_line(i as nat, entries.len(), entries[i]))
}

/// `lines` with a line feed between each two.
pub open spec fn joined_lines(lines: Seq<Seq<char>>) -> Seq<char>
    decreases lines.len(),
{
    if lines.len() == 0 {
        Seq::empty()
    } else if lines.len() == 1 {
        lines[0]
    } else {
        joined_lines(lines.drop_last()) + seq!['\n'] + lines.last()
    }
}

/// What the finder is given to pick from: the lines for the entries of `store`
/// in the order of the names; `Empty` where there is none.
pub open spec fn finder_input(store: Map<Seq<char>, Seq<char>>) -> Result<Seq<char>, SelectError> {
    let entries = entries_for(store);
    if entries.len() == 0 {
        Err(SelectError::Empty)
    } else {
        Ok(joined_lines(choice_lines(entries)))
    }
}

/// The number of a `usize` has at most twenty digits.
proof fn lemma_width_of_usize(n: usize)
    ensures
        decimal_width(n as nat) <= 20,
{
    reveal_with_fuel(decimal_width, 21);
}

/// The line for the shortcut at `index` of `count`. The number of the line is
/// `index + 1`, which has to be a `usize`.
pub fn render_choice(index: usize, count: usize, shortcut: &Shortcut) -> (line: String)
    requires
        index < usize::MAX,
    ensures
        line@ == choice_line(index as nat, count as nat, shortcut@),
{
    proof {
        lemma_width_of_usize(count);
        lemma_decimal_len(count as nat);
        reveal_strlit(".");
    }
    let width: usize = decimal_string(count).as_str().unicode_len() + INDEX_WIDTH_BASE;
    let label = decimal_string(index + 1).concat(".");
    pad_to(label, width).concat(shortcut.name.as_str()).concat(" -> ").concat(
        shortcut.path.as_str(),
    )
}

/// What the finder is given to pick from: one line for each shortcut, in the
/// order of the names; `Empty` where the store holds none.
pub fn fuzzy_input(store: &Store) -> (r: Result<String, SelectError>)
    ensures
        choice_view(r) == finder_input(store@),
{
    let shortcuts = store.shortcuts();
    let count: usize = shortcuts.len();
    if count == 0 {
        return Err(SelectError::Empty);
    }
    let ghost lines = choice_lines(entries_for(store@));
    let mut input = render_choice(0, count, &shortcuts[0]);
    let mut i: usize = 1;
    while i < count
        invariant
            1 <= i <= count == shortcuts@.len(),
            entries_of(shortcuts@) == entries_for(store@),
            lines == choice_lines(entries_for(store@)),
            input@ == joined_lines(lines.take(i as int)),
        decreases count - i,
    {
        proof {
            reveal_strlit("\n");
        }
        let line = render_choice(i, count, &shortcuts[i]);
        input.append("\n");
        input.append(line.as_str());
        assert(lines.take(i + 1).drop_last() == lines.take(i as int));
        i = i + 1;
    }
    assert(lines.take(i as int) == lines);
    Ok(input)
}

/// The portable path in what the finder handed back: the output without the
/// whitespace around it, from behind the first separator on. `None` where the
/// output holds no separator.
pub open spec fn selected_path(output: Seq<char>) -> Option<Seq<char>> {
    after_first(trimmed(output), separator())
}

/// The portable path in what the finder handed back.
pub fn parse_selection(output: &str) -> (r: Option<String>)
    ensures
        opt_text(r) == selected_path(output@),
{
    let line = trim(output);
    let chars = to_chars(line);
    let mark = to_chars(" -> ");
    let end: usize = chars.len();
    match find(chars.as_slice(), mark.as_slice()) {
        Some(at) => {
            let path = line.substring_char(at + mark.len(), end);
            Some(String::from_str(path))
        },
        None => None,
    }
}

/// The absolute path that a run of the finder chose, for the home directory
/// `home`, or why it chose none.
pub open spec fn picked(result: FinderResultView, home: Option<Seq<char>>) -> Result<
    Seq<char>,
    SelectError,
> {
    match result {
        FinderResultView::Selected(output) => match selected_path(output) {
            Some(path) => Ok(expanded(path, home)),
            None => Err(SelectError::Unparsable),
        },
        FinderResultView::Cancelled => Err(SelectError::Cancelled),
        FinderResultView::Unavailable => Err(SelectError::FinderUnavailable),
    }
}

/// The absolute path that a run of the finder chose, or why it chose none.
pub fn fuzzy_result(result: &FinderResult, home: &Option<String>) -> (r: Result<
    String,
    SelectError,
>)
    ensures
        choice_view(r) == picked(result@, opt_text(*home)),
{
    match result {
        FinderResult::Selected(output) => match parse_selection(output.as_str()) {
            Some(path) => Ok(expand_with_home(path.as_str(), home)),
            None => Err(SelectError::Unparsable),
        },
        FinderResult::Cancelled => Err(SelectError::Cancelled),
        FinderResult::Unavailable => Err(SelectError::FinderUnavailable),
    }
}

/// A numeral is made of digits: no `>` is among them.
proof fn lemma_decimal_has_no_mark(n: nat)
    ensures
        forall|k: int| 0 <= k < decimal(n).len() ==> decimal(n)[k] != '>',
    decreases n,
{
    if n >= 10 {
        lemma_decimal_has_no_mark(n / 10);
    }
    assert forall|k: int| 0 <= k < decimal(n).len() implies decimal(n)[k] != '>' by {
        if n >= 10 && k < decimal(n / 10).len() {
            assert(decimal(n)[k] == decimal(n / 10)[k]);
        } else {
            assert(decimal(n)[k] == digit((n % 10) as int));
        }
    }
}

/// No character of the column of numbers is `>`.
proof fn lemma_label_has_no_mark(index: nat, count: nat)
    ensures
        forall|k: int|
            0 <= k < choice_label(index, count).len() ==> choice_label(index, count)[k] != '>',
{
    lemma_decimal_has_no_mark(index + 1);
}

/// In the line of a shortcut whose name holds no `>`, the first separator is
/// the one behind the name: what follows it is the shortcut's path, whatever
/// the path holds.
pub proof fn lemma_choice_is_parsed_back(index: nat, count: nat, entry: Entry)
    requires
        forall|k: int| 0 <= k < entry.0.len() ==> entry.0[k] != '>',
    ensures
        after_first(choice_line(index, count, entry), separator()) == Some(entry.1),
{
    reveal_strlit(" -> ");
    let label = choice_label(index, count);
    let line = choice_line(index, count, entry);
    let at: int = (label.len() + entry.0.len()) as int;
    lemma_label_has_no_mark(index, count);
    assert(line.subrange(at, at + 4) =~= separator());
    assert forall|j: int| occurs_at(line, separator(), j) implies at <= j by {
        if j < at {
            assert(line.subrange(j, j + 4)[2] == '>');
        }
    }
    lemma_first_occurrence_unique(line, separator(), at);
}

} // verus!
