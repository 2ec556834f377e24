//! What an invocation leaves behind: lines on standard output, lines on
//! standard error, and the exit code. A line on standard output is made of
//! spans, each with the role of its text, so that names and paths can be set
//! off from the rest.

use vstd::prelude::*;
use vstd::string::*;

verus! {

/// The exit code of an invocation that did what was asked, or had nothing to do.
pub const EXIT_OK: i32 = 0;

/// The exit code of an invocation that failed.
pub const EXIT_FAILURE: i32 = 1;

/// The exit code that tells the calling shell to change to the directory
/// printed on standard output.
pub const EXIT_CD: i32 = 42;

/// The role of a piece of text in a line.
#[derive(Clone, Copy, Debug, PartialEq, Eq, Structural)]
pub enum Style {
    /// Text of the program.
    Plain,
    /// The name of a shortcut.
    Name,
    /// The path of a shortcut.
    Path,
}

/// A piece of a line.
#[derive(Debug, PartialEq, Eq)]
pub struct Span {
    pub text: String,
    pub style: Style,
}

/// The model of a [`Span`]: its text and its role.
pub type SpanView = (Seq<char>, Style);

/// The model of a line: its spans.
pub type LineView = Seq<SpanView>;

impl View for Span {
    type V = SpanView;

    open spec fn view(&self) -> SpanView {
        (self.text@, self.style)
    }
}

impl DeepView for Span {
    type V = SpanView;

    open spec fn deep_view(&self) -> SpanView {
        (self.text@, self.style)
    }
}

/// What is printed, and the exit code.
#[derive(Debug, PartialEq, Eq)]
pub struct Outcome {
    /// The lines for standard output.
    pub stdout: Vec<Vec<Span>>,
    /// The lines for standard error.
    pub stderr: Vec<String>,
    /// The exit code.
    pub code: i32,
}

/// The model of an [`Outcome`].
pub struct OutcomeView {
    pub stdout: Seq<LineView>,
    pub stderr: Seq<Seq<char>>,
    pub code: int,
}

impl View for Outcome {
    type V = OutcomeView;

    open spec fn view(&self) -> OutcomeView {
        OutcomeView {
            stdout: self.stdout.deep_view(),
            stderr: self.stderr.deep_view(),
            code: self.code as int,
        }
    }
}

/// The line that holds `text` and nothing else.
pub open spec fn plain_line(text: Seq<char>) -> LineView {
    seq![(text, Style::Plain)]
}

/// The text of a line: that of its spans, one after the other.
pub open spec fn line_text(line: LineView) -> Seq<char>
    decreases line.len(),
{
    if line.len() == 0 {
        Seq::empty()
    } else {
        line_text(line.drop_last()) + line.last().0
    }
}

/// Nothing is printed, and the exit code is `code`.
pub open spec fn silent(code: int) -> OutcomeView {
    OutcomeView { stdout: Seq::empty(), stderr: Seq::empty(), code }
}

/// `lines` on standard output, and the exit code for success.
pub open spec fn shown(lines: Seq<LineView>) -> OutcomeView {
    OutcomeView { stdout: lines, stderr: Seq::empty(), code: EXIT_OK as int }
}

/// `text` as one line on standard output, and the exit code for success.
pub open spec fn told(text: Seq<char>) -> OutcomeView {
    shown(seq![plain_line(text)])
}

/// `lines` on standard error, and the exit code `code`.
pub open spec fn complained(lines: Seq<Seq<char>>, code: int) -> OutcomeView {
    OutcomeView { stdout: Seq::empty(), stderr: lines, code }
}

/// `text` as one line on standard error, and the exit code `code`.
pub open spec fn failed(text: Seq<char>, code: int) -> OutcomeView {
    complained(seq![text], code)
}

/// `path` as the one line on standard output, and the exit code that makes the
/// calling shell change to it.
pub open spec fn went_to(path: Seq<char>) -> OutcomeView {
    OutcomeView { stdout: seq![plain_line(path)], stderr: Seq::empty(), code: EXIT_CD as int }
}

/// The line that holds `text` and nothing else.
pub fn plain(text: String) -> (line: Vec<Span>)
    ensures
        line.deep_view() == plain_line(text@),
{
    let mut line: Vec<Span> = Vec::new();
    line.push(Span { text, style: Style::Plain });
    line
}

/// The text of `line`, without the roles of its spans.
pub fn text_of_line(line: &Vec<Span>) -> (text: String)
    ensures
        text@ == line_text(line.deep_view()),
{
    let ghost all = line.deep_view();
    let mut text = String::new();
    let mut i: usize = 0;
    while i < line.len()
        invariant
            i <= line@.len(),
            all == line.deep_view(),
            text@ == line_text(all.take(i as int)),
        decreases line@.len() - i,
    {
        text.append(line[i].text.as_str());
        assert(all.take(i + 1).drop_last() == all.take(i as int));
        i = i + 1;
    }
    assert(all.take(i as int) == all);
    text
}

impl Outcome {
    /// Nothing is printed, and the exit code is `code`.
    pub fn silent(code: i32) -> (outcome: Outcome)
        ensures
            outcome@ == silent(code as int),
    {
        let outcome = Outcome { stdout: Vec::new(), stderr: Vec::new(), code };
        assert(outcome.stdout.deep_view() =~= Seq::<LineView>::empty());
        assert(outcome.stderr.deep_view() =~= Seq::<Seq<char>>::empty());
        outcome
    }

    /// `lines` on standard output, and the exit code for success.
    pub fn show(lines: Vec<Vec<Span>>) -> (outcome: Outcome)
        ensures
            outcome@ == shown(lines.deep_view()),
    {
        let outcome = Outcome { stdout: lines, stderr: Vec::new(), code: EXIT_OK };
        assert(outcome.stderr.deep_view() =~= Seq::<Seq<char>>::empty());
        outcome
    }

    /// `text` as one line on standard output, and the exit code for success.
    pub fn tell(text: String) -> (outcome: Outcome)
        ensures
            outcome@ == told(text@),
    {
        let mut lines: Vec<Vec<Span>> = Vec::new();
        lines.push(plain(text));
        assert(lines.deep_view() =~= seq![plain_line(text@)]);
        Outcome::show(lines)
    }

    /// `text` as one line on standard error, and the exit code `code`.
    pub fn fail(text: String, code: i32) -> (outcome: Outcome)
        ensures
            outcome@ == failed(text@, code as int),
    {
        let mut stderr: Vec<String> = Vec::new();
        stderr.push(text);
        let outcome = Outcome { stdout: Vec::new(), stderr, code };
        assert(outcome.stdout.deep_view() =~= Seq::<LineView>::empty());
        assert(outcome.stderr.deep_view() =~= seq![text@]);
        outcome
    }

    /// `path` as the one line on standard output, and the exit code that makes
    /// the calling shell change to it.
    pub fn go_to(path: String) -> (outcome: Outcome)
        ensures
            outcome@ == went_to(path@),
    {
        let mut stdout: Vec<Vec<Span>> = Vec::new();
        stdout.push(plain(path));
        let outcome = Outcome { stdout, stderr: Vec::new(), code: EXIT_CD };
        assert(outcome.stdout.deep_view() =~= seq![plain_line(path@)]);
        assert(outcome.stderr.deep_view() =~= Seq::<Seq<char>>::empty());
        outcome
    }
}

} // verus!
