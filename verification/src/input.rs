//! The input panel: the draft of the next message, broken into lines of the
//! panel's width, and the place of the cursor in it.

use vstd::prelude::*;
use vstd::string::*;
use crate::layout::Rect;
use crate::panel::{Panel, PanelView};
use crate::state::{ApplicationState, StateView};
use crate::style::{Color, RunView, Style, StyledLine, StyledRun};
use crate::text::collect_range;

verus! {

/// Columns of a panel that its border takes, one on each side.
pub const BORDER_COLUMNS: u16 = 2;

/// The columns for text in a panel of the given width: what the border
/// leaves, and none in a panel too narrow for its border.
pub open spec fn usable_width(panel_width: u16) -> nat {
    if panel_width >= BORDER_COLUMNS {
        (panel_width - BORDER_COLUMNS) as nat
    } else {
        0
    }
}

/// The number of lines that `len` characters fill at `width` characters a
/// line. At a width of zero there is no line.
pub open spec fn chunk_count(len: nat, width: nat) -> nat {
    if width == 0 {
        0
    } else {
        (len + width - 1) as nat / width
    }
}

/// Line `i` of `input` at `width` characters a line.
pub open spec fn chunk(input: Seq<char>, width: nat, i: int) -> Seq<char> {
    let end = if (i + 1) * width <= input.len() {
        (i + 1) * width
    } else {
        input.len() as int
    };
    input.subrange(i * width, end)
}

/// The lines of `input` at `width` characters a line: each line but the last
/// is full, and the last holds what is left.
pub open spec fn chunks(input: Seq<char>, width: nat) -> Seq<Seq<char>> {
    Seq::new(chunk_count(input.len(), width), |i: int| chunk(input, width, i))
}

/// The lines of a text, joined again, are the text.
pub proof fn lemma_chunks_rejoin(input: Seq<char>, width: nat)
    requires
        width > 0,
    ensures
        chunks(input, width).flatten() == input,
    decreases input.len(),
{
    let lines = chunks(input, width);
    let len = input.len();
    if len == 0 {
        assert(chunk_count(0, width) == 0) by (nonlinear_arith)
            requires
                width > 0,
                chunk_count(0, width) == (width - 1) / (width as int),
        ;
    } else {
        let head: int = if width <= len { width as int } else { len as int };
        let rest = input.skip(head);
        let count = chunk_count(len, width) as int;
        let count_rest = chunk_count(rest.len(), width) as int;
        assert(count == count_rest + 1) by (nonlinear_arith)
            requires
                width > 0,
                len > 0,
                head == (if width <= len { width as int } else { len as int }),
                count == (len + width - 1) / (width as int),
                count_rest == (len - head + width - 1) / (width as int),
        ;
        assert(lines.drop_first() =~= chunks(rest, width)) by {
            assert forall|i: int| 0 <= i < count_rest implies lines.drop_first()[i] == chunk(
                rest,
                width,
                i,
            ) by {
                assert((i + 1 + 1) * width == (i + 1) * width + width) by (nonlinear_arith);
                assert((i + 1) * width == i * width + width) by (nonlinear_arith);
                assert(rest.len() > 0) by (nonlinear_arith)
                    requires
                        count_rest > 0,
                        width > 0,
                        count_rest == (rest.len() + width - 1) / (width as int),
                ;
                assert(i * width <= rest.len()) by (nonlinear_arith)
                    requires
                        0 <= i < count_rest,
                        width > 0,
                        count_rest == (rest.len() + width - 1) / (width as int),
                ;
            }
        }
        lemma_chunks_rejoin(rest, width);
    }
}

/// The texts of a sequence of strings, in order.
pub open spec fn texts(rows: Seq<String>) -> Seq<Seq<char>> {
    rows.map_values(|row: String| row@)
}

/// Breaks `input` into lines of `width` characters; the last line may be
/// shorter. At a width of zero there is no line.
pub fn split_each(input: &[char], width: usize) -> (rows: Vec<String>)
    ensures
        texts(rows@) == chunks(input@, width as nat),
        rows@.len() == chunk_count(input@.len(), width as nat),
        forall|i: int|
            0 <= i < rows@.len() ==> (#[trigger] rows@[i])@ == chunk(input@, width as nat, i),
{
    let mut rows: Vec<String> = Vec::new();
    let len = input.len();
    if width == 0 {
        return rows;
    }
    let mut start: usize = 0;
    assert(rows@.len() * width == 0) by (nonlinear_arith)
        requires
            rows@.len() == 0,
    ;
    while start < len
        invariant
            width > 0,
            len == input@.len(),
            start <= len,
            start == rows@.len() * width || start == len,
            rows@.len() * width >= start,
            rows@.len() > 0 ==> (rows@.len() - 1) * width < len,
            forall|i: int|
                0 <= i < rows@.len() ==> (#[trigger] rows@[i])@ == chunk(
                    input@,
                    width as nat,
                    i,
                ),
        decreases len - start,
    {
        let end: usize = if len - start > width {
            start + width
        } else {
            len
        };
        let ghost k = rows@.len() as int;
        assert((k + 1) * width == k * width + width) by (nonlinear_arith);
        let row = collect_range(input, start, end);
        rows.push(row);
        start = end;
    }
    proof {
        let k = rows@.len() as int;
        let w = width as int;
        let n = len as int;
        assert(chunk_count(n as nat, w as nat) == k) by (nonlinear_arith)
            requires
                w > 0,
                n >= 0,
                k >= 0,
                k * w >= n,
                k > 0 ==> (k - 1) * w < n,
                chunk_count(n as nat, w as nat) == (n + w - 1) / w,
        ;
    }
    rows
}

/// The line on which the cursor stands, counted from zero, when it is
/// `offset` characters into a text of `width` characters a line.
pub open spec fn cursor_row(offset: nat, width: nat) -> nat {
    if width == 0 {
        0
    } else {
        offset / width
    }
}

/// The column in which the cursor stands, counted from zero.
pub open spec fn cursor_col(offset: nat, width: nat) -> nat {
    if width == 0 {
        0
    } else {
        offset % width
    }
}

/// A cursor before the first character stands at the start of the first line.
pub proof fn lemma_cursor_at_start(width: nat)
    ensures
        cursor_row(0, width) == 0,
        cursor_col(0, width) == 0,
{
}

/// A cursor behind a text whose last line is full stands at the start of a
/// new line below all lines of the text.
pub proof fn lemma_cursor_after_full_lines(input: Seq<char>, width: nat)
    requires
        width > 0,
        input.len() % width == 0,
    ensures
        cursor_row(input.len(), width) == input.len() / width,
        cursor_row(input.len(), width) == chunks(input, width).len(),
        cursor_col(input.len(), width) == 0,
{
    let len = input.len() as int;
    let w = width as int;
    assert((len + w - 1) / w == len / w) by (nonlinear_arith)
        requires
            w > 0,
            len >= 0,
            len % w == 0,
    ;
}

/// The cursor stands where the line breaking puts the character it is on: a
/// cursor on character `offset` of the text is in the line and the column
/// that hold this character.
pub proof fn lemma_cursor_matches_lines(input: Seq<char>, width: nat, offset: nat)
    requires
        width > 0,
        offset < input.len(),
    ensures
        cursor_row(offset, width) < chunks(input, width).len(),
        cursor_col(offset, width) < chunks(input, width)[cursor_row(offset, width) as int].len(),
        chunks(input, width)[cursor_row(offset, width) as int][cursor_col(offset, width) as int]
            == input[offset as int],
{
    let len = input.len() as int;
    let w = width as int;
    let o = offset as int;
    let row = o / w;
    let col = o % w;
    assert(0 <= col < w && o == row * w + col && row >= 0 && row < (len + w - 1) / w && (row + 1)
        * w == row * w + w) by (nonlinear_arith)
        requires
            w > 0,
            0 <= o < len,
            row == o / w,
            col == o % w,
    ;
}

/// The screen coordinate of the cell that lies `cells` cells inside a panel
/// whose border is at `origin`; the last coordinate of the grid where that
/// cell would lie beyond it.
pub open spec fn on_screen(origin: u16, cells: nat) -> u16 {
    if origin + 1 + cells <= u16::MAX {
        (origin + 1 + cells) as u16
    } else {
        u16::MAX
    }
}

/// The column and the row of the screen at which the cursor is shown.
pub open spec fn cursor_position(area: Rect, offset: nat) -> (u16, u16) {
    let width = usable_width(area.width);
    (on_screen(area.x, cursor_col(offset, width)), on_screen(area.y, cursor_row(offset, width)))
}

/// The column and the line of the cursor in a text of `width` characters a
/// line, both counted from zero.
pub fn ui_input_cursor(offset: usize, width: usize) -> (cell: (usize, usize))
    ensures
        cell.0 == cursor_col(offset as nat, width as nat),
        cell.1 == cursor_row(offset as nat, width as nat),
{
    if width == 0 {
        (0, 0)
    } else {
        (offset % width, offset / width)
    }
}

/// The screen coordinate `cells` cells inside a panel whose border is at `origin`.
fn screen_coordinate(origin: u16, cells: usize) -> (at: u16)
    ensures
        at == on_screen(origin, cells as nat),
{
    let room: u16 = u16::MAX - origin;
    if room >= 1 && cells <= (room - 1) as usize {
        origin + 1 + cells as u16
    } else {
        u16::MAX
    }
}

/// The column and the row of the screen at which the cursor of the input
/// panel in `area` is shown.
pub fn input_cursor_position(state: &ApplicationState, area: Rect) -> (at: (u16, u16))
    ensures
        at == cursor_position(area, state@.input_cursor),
{
    let width: u16 = if area.width >= BORDER_COLUMNS {
        area.width - BORDER_COLUMNS
    } else {
        0
    };
    let (col, row) = ui_input_cursor(state.input_cursor, width as usize);
    (screen_coordinate(area.x, col), screen_coordinate(area.y, row))
}

/// The display lines of the draft in a panel of the given width: each line of
/// the draft as one plain run.
pub open spec fn input_lines(input: Seq<char>, panel_width: u16) -> Seq<Seq<RunView>> {
    chunks(input, usable_width(panel_width)).map_values(
        |text: Seq<char>| seq![RunView { text, style: Style::plain() }],
    )
}

/// The input panel that `state` gives in `area`.
pub open spec fn draft_panel(state: StateView, area: Rect) -> PanelView {
    PanelView {
        area,
        title: RunView { text: "Your message"@, style: Style::bold() },
        lines: input_lines(state.input, area.width),
        style: Style::colored(Color::White),
        scroll_rows: 0,
        scroll_columns: 0,
        wrap: false,
    }
}

/// Builds the input panel for `area`: the draft, broken into lines of the
/// width that the border leaves.
pub fn input_panel(state: &ApplicationState, area: Rect) -> (panel: Panel)
    ensures
        panel@ == draft_panel(state@, area),
{
    let width: u16 = if area.width >= BORDER_COLUMNS {
        area.width - BORDER_COLUMNS
    } else {
        0
    };
    let mut rows = split_each(state.input.as_slice(), width as usize);
    let ghost all = texts(rows@);
    let count = rows.len();
    let mut lines: Vec<StyledLine> = Vec::new();
    let mut i: usize = 0;
    while i < count
        invariant
            i <= count,
            count == rows@.len(),
            all == texts(rows@),
            lines@.len() == i,
            forall|j: int|
                0 <= j < i ==> (#[trigger] lines@[j])@ == seq![
                    RunView { text: all[j], style: Style::plain() },
                ],
        decreases count - i,
    {
        let mut runs: Vec<StyledRun> = Vec::new();
        runs.push(StyledRun::raw(rows[i].clone()));
        let line = StyledLine { runs };
        lines.push(line);
        i += 1;
    }
    let panel = Panel {
        area,
        title: StyledRun::styled(String::from_str("Your message"), Style::bold()),
        lines,
        style: Style::colored(Color::White),
        scroll_rows: 0,
        scroll_columns: 0,
        wrap: false,
    };
    assert(panel@.lines =~= input_lines(state@.input, area.width));
    panel
}

} // verus!
