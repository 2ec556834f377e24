//! The list of all shortcuts: one line for each, the names filled up to one
//! width so that the paths stand in a column.

use vstd::prelude::*;
use vstd::string::*;
use vstd::utf8::encode_utf8;
use crate::output::{plain, plain_line, LineView, Span, Style};
use crate::store::{entries_for, entries_of, Entry, Shortcut, Store};
use crate::text::{pad_to, padded};

verus! {

/// The width of the column of names: the greatest length of a name, counted in
/// the bytes of its UTF-8 encoding.
pub open spec fn name_width(entries: Seq<Entry>) -> nat
    decreases entries.len(),
{
    if entries.len() == 0 {
        0
    } else {
        let rest = name_width(entries.drop_last());
        let last = encode_utf8(entries.last().0).len();
        if last > rest {
            last
        } else {
            rest
        }
    }
}

/// What is shown where there is no shortcut.
pub open spec fn no_shortcuts_hint() -> Seq<char> {
    "No shortcuts yet. Use `hop add <name>` to add one."@
}

/// The line for `entry` in a list whose names are filled up to `width`
/// characters: the name, an arrow, the path.
pub open spec fn list_line(entry: Entry, width: nat) -> LineView {
    seq![
        (padded(entry.0, width), Style::Name),
        (" -> "@, Style::Plain),
        (entry.1, Style::Path),
    ]
}

/// The lines that list `store`: one for each shortcut in the order of the
/// names, or a hint where there is none.
pub open spec fn list_lines(store: Map<Seq<char>, Seq<char>>) -> Seq<LineView> {
    let entries = entries_for(store);
    if entries.len() == 0 {
        seq![plain_line(no_shortcuts_hint())]
    } else {
        Seq::new(entries.len(), |i: int| list_line(entries[i], name_width(entries)))
    }
}

/// The width of the column of names.
pub fn column_width(shortcuts: &Vec<Shortcut>) -> (width: usize)
    ensures
        width == name_width(entries_of(shortcuts@)),
{
    let ghost entries = entries_of(shortcuts@);
    let mut width: usize = 0;
    let mut i: usize = 0;
    while i < shortcuts.len()
        invariant
            i <= shortcuts@.len(),
            entries == entries_of(shortcuts@),
            width == name_width(entries.take(i as int)),
        decreases shortcuts@.len() - i,
    {
        let len: usize = shortcuts[i].name.as_str().as_bytes().len();
        assert(entries.take(i + 1).drop_last() == entries.take(i as int));
        if len > width {
            width = len;
        }
        i = i + 1;
    }
    assert(entries.take(i as int) == entries);
    width
}

/// The line for `shortcut` in a list whose names are filled up to `width`
/// characters.
pub fn render_row(shortcut: &Shortcut, width: usize) -> (line: Vec<Span>)
    ensures
        line.deep_view() == list_line(shortcut@, width as nat),
{
    let mut line: Vec<Span> = Vec::new();
    line.push(Span { text: pad_to(shortcut.name.clone(), width), style: Style::Name });
    line.push(Span { text: String::from_str(" -> "), style: Style::Plain });
    line.push(Span { text: shortcut.path.clone(), style: Style::Path });
    line
}

/// The lines that list `store`.
pub fn list_shortcuts(store: &Store) -> (lines: Vec<Vec<Span>>)
    ensures
        lines.deep_view() == list_lines(store@),
{
    let shortcuts = store.shortcuts();
    let mut lines: Vec<Vec<Span>> = Vec::new();
    if shortcuts.len() == 0 {
        lines.push(
            plain(String::from_str("No shortcuts yet. Use `hop add <name>` to add one.")),
        );
        return lines;
    }
    let width = column_width(shortcuts);
    let ghost entries = entries_for(store@);
    let mut i: usize = 0;
    while i < shortcuts.len()
        invariant
            i <= shortcuts@.len(),
            entries == entries_of(shortcuts@),
            width == name_width(entries),
            lines.deep_view() == Seq::new(i as nat, |k: int| list_line(entries[k], width as nat)),
        decreases shortcuts@.len() - i,
    {
        let ghost before = lines.deep_view();
        let line = render_row(&shortcuts[i], width);
        lines.push(line);
        assert(lines.deep_view() =~= before.push(list_line(entries[i as int], width as nat)));
        i = i + 1;
    }
    lines
}

} // verus!
