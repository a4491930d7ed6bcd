//! A bordered box of styled lines, as it is handed to the terminal.

use vstd::prelude::*;
use crate::layout::Rect;
use crate::style::{line_views, RunView, Style, StyledLine, StyledRun};

verus! {

/// A panel, as contracts speak of it.
pub struct PanelView {
    pub area: Rect,
    pub title: RunView,
    pub lines: Seq<Seq<RunView>>,
    pub style: Style,
    pub scroll_rows: u16,
    pub scroll_columns: u16,
    pub wrap: bool,
}

/// A region of the screen: a box with a border on all four sides and a title
/// in its upper border, and left-aligned lines of text inside.
#[derive(Clone, Debug, PartialEq, Eq)]
pub struct Panel {
    /// The cells that the box covers, border included.
    pub area: Rect,
    /// The title in the upper border.
    pub title: StyledRun,
    /// The text inside, the first line on top.
    pub lines: Vec<StyledLine>,
    /// The style of what has no style of its own.
    pub style: Style,
    /// The display lines by which the text is scrolled up.
    pub scroll_rows: u16,
    /// The columns by which the text is scrolled to the left.
    pub scroll_columns: u16,
    /// Whether a line too long for the box goes on in the next display line,
    /// with its white space kept; if not, it is cut off at the border.
    pub wrap: bool,
}

impl View for Panel {
    type V = PanelView;

    open spec fn view(&self) -> PanelView {
        PanelView {
            area: self.area,
            title: self.title@,
            lines: line_views(self.lines@),
            style: self.style,
            scroll_rows: self.scroll_rows,
            scroll_columns: self.scroll_columns,
            wrap: self.wrap,
        }
    }
}

} // verus!
