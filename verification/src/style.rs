//! Styled text: colours, runs of uniformly styled characters, and lines of runs.

use vstd::prelude::*;
use vstd::seq_lib::lemma_flatten_concat;

verus! {

/// The display colours that the interface uses.
#[derive(Clone, Copy, Debug, PartialEq, Eq)]
pub enum Color {
    DarkGray,
    Blue,
    Yellow,
    Cyan,
    Magenta,
    Green,
    Red,
    White,
    LightYellow,
    LightRed,
    LightGreen,
}

/// How a run is drawn: its foreground colour, if it has one of its own, and its weight.
#[derive(Clone, Copy, Debug, PartialEq, Eq)]
pub struct Style {
    pub fg: Option<Color>,
    pub bold: bool,
}

impl Style {
    /// The style of text that carries no colour and no weight of its own.
    pub open spec fn spec_plain() -> Style {
        Style { fg: None, bold: false }
    }

    /// The style of text drawn in `color`.
    pub open spec fn spec_colored(color: Color) -> Style {
        Style { fg: Some(color), bold: false }
    }

    /// The style of bold text without a colour of its own.
    pub open spec fn spec_bold() -> Style {
        Style { fg: None, bold: true }
    }

    /// The style of text that carries no colour and no weight of its own.
    #[verifier::when_used_as_spec(spec_plain)]
    pub fn plain() -> (s: Style)
        ensures
            s == Style::spec_plain(),
    {
        Style { fg: None, bold: false }
    }

    /// The style of text drawn in `color`.
    #[verifier::when_used_as_spec(spec_colored)]
    pub fn colored(color: Color) -> (s: Style)
        ensures
            s == Style::spec_colored(color),
    {
        Style { fg: Some(color), bold: false }
    }

    /// The style of bold text without a colour of its own.
    #[verifier::when_used_as_spec(spec_bold)]
    pub fn bold() -> (s: Style)
        ensures
            s == Style::spec_bold(),
    {
        Style { fg: None, bold: true }
    }
}

/// A run, as contracts speak of it: its characters and its style.
pub struct RunView {
    pub text: Seq<char>,
    pub style: Style,
}

/// A span of text drawn in one style.
#[derive(Clone, Debug, PartialEq, Eq)]
pub struct StyledRun {
    pub text: String,
    pub style: Style,
}

impl View for StyledRun {
    type V = RunView;

    open spec fn view(&self) -> RunView {
        RunView { text: self.text@, style: self.style }
    }
}

impl StyledRun {
    /// A run of `text` in `style`.
    pub fn styled(text: String, style: Style) -> (run: StyledRun)
        ensures
            run@ == (RunView { text: text@, style }),
    {
        StyledRun { text, style }
    }

    /// A run of `text` in the plain style.
    pub fn raw(text: String) -> (run: StyledRun)
        ensures
            run@ == (RunView { text: text@, style: Style::plain() }),
    {
        StyledRun { text, style: Style::plain() }
    }
}

/// The views of a sequence of runs, in order.
pub open spec fn run_views(runs: Seq<StyledRun>) -> Seq<RunView> {
    runs.map_values(|r: StyledRun| r@)
}

/// One display line: runs drawn one after another.
#[derive(Clone, Debug, PartialEq, Eq)]
pub struct StyledLine {
    pub runs: Vec<StyledRun>,
}

impl View for StyledLine {
    type V = Seq<RunView>;

    open spec fn view(&self) -> Seq<RunView> {
        run_views(self.runs@)
    }
}

/// The views of a sequence of lines, in order.
pub open spec fn line_views(lines: Seq<StyledLine>) -> Seq<Seq<RunView>> {
    lines.map_values(|l: StyledLine| l@)
}

/// The characters of a line, without their styles.
pub open spec fn line_text(line: Seq<RunView>) -> Seq<char> {
    line.map_values(|r: RunView| r.text).flatten()
}

/// A line without runs has no characters.
pub proof fn lemma_empty_line_text()
    ensures
        line_text(Seq::<RunView>::empty()) == Seq::<char>::empty(),
{
}

/// The characters of a line with one more run are those of the line,
/// followed by those of the run.
pub proof fn lemma_line_text_push(line: Seq<RunView>, run: RunView)
    ensures
        line_text(line.push(run)) == line_text(line) + run.text,
{
    let texts = line.map_values(|r: RunView| r.text);
    assert(line.push(run).map_values(|r: RunView| r.text) =~= texts.push(run.text));
    texts.lemma_flatten_push(run.text);
}

/// The characters of two lines joined are those of the first, followed by
/// those of the second.
pub proof fn lemma_line_text_concat(first: Seq<RunView>, second: Seq<RunView>)
    ensures
        line_text(first + second) == line_text(first) + line_text(second),
{
    let f = first.map_values(|r: RunView| r.text);
    let s = second.map_values(|r: RunView| r.text);
    assert((first + second).map_values(|r: RunView| r.text) =~= f + s);
    lemma_flatten_concat(f, s);
}

} // verus!
